//! Automatic archiving: when free disk space runs low, messages are exported
//! to a JSON archive, channel by channel, before old ones are deleted.
use vstd::prelude::*;
use crate::text::concat3;
use crate::invite::{expiry_from_now, expiry_text, last_dated_second};

verus! {

/// Whether archiving is due: free space has fallen to the threshold or below.
pub fn should_archive(available_bytes: u64, threshold_bytes: u64) -> (res: bool)
    ensures
        res == (available_bytes <= threshold_bytes),
{
    available_bytes <= threshold_bytes
}

/// The free space of a file system: blocks available to unprivileged users
/// times the block size.
pub fn available_space(blocks_available: u64, block_size: u64) -> (res: u64)
    requires
        blocks_available * block_size <= u64::MAX,
    ensures
        res == blocks_available * block_size,
{
    blocks_available * block_size
}

/// One archived message.
#[derive(Debug, Clone)]
pub struct ArchivedMessage {
    pub id: String,
    pub author: String,
    pub content: String,
    pub file: Option<String>,
    pub created_at: String,
}

/// A channel and its messages, as archived.
#[derive(Debug, Clone)]
pub struct ArchivedChannel {
    pub id: String,
    pub name: String,
    pub messages: Vec<ArchivedMessage>,
}

/// The channels that an archive keeps: those with at least one message, in
/// their order.
pub fn channels_to_archive(channels: Vec<ArchivedChannel>) -> (res: Vec<ArchivedChannel>)
    ensures
        res@ == channels@.filter(|c: ArchivedChannel| c.messages@.len() > 0),
{
    let ghost keep = |c: ArchivedChannel| c.messages@.len() > 0;
    let ghost all = channels@;
    let mut rest = channels;
    let mut res: Vec<ArchivedChannel> = Vec::new();
    let ghost mut k: int = 0;
    while rest.len() > 0
        invariant
            0 <= k <= all.len(),
            keep == (|c: ArchivedChannel| c.messages@.len() > 0),
            rest@ == all.subrange(k, all.len() as int),
            res@ == all.subrange(0, k).filter(keep),
        decreases rest@.len(),
    {
        let c = rest.remove(0);
        proof {
            assert(c == all[k]);
            assert(all.subrange(0, k + 1) =~= all.subrange(0, k).push(c));
            all.subrange(0, k).lemma_filter_push(c, keep);
            assert(rest@ =~= all.subrange(k + 1, all.len() as int));
        }
        if c.messages.len() > 0 {
            res.push(c);
        }
        proof {
            k = k + 1;
        }
    }
    proof {
        assert(all.subrange(0, k) =~= all);
    }
    res
}

/// The name of the archive file written at `timestamp` (formatted by the
/// caller).
pub fn archive_file_name(timestamp: &str) -> (res: String)
    ensures
        res@ == "archive_"@ + timestamp@ + ".json"@,
{
    concat3("archive_", timestamp, ".json")
}

/// How long messages outlive an archive, in seconds: one day.
pub const MESSAGE_RETENTION_SECONDS: i64 = 86400;

/// The date before which messages are deleted once archived: the moment one
/// day before now, in the stored date format, reading the clock. The clock
/// never reads before 1970, so that moment always has a date.
pub fn retention_cutoff() -> (res: Option<String>)
    ensures
        res is Some,
        exists|now: i64|
            0 <= now <= last_dated_second() && match res {
                Some(s) => #[trigger] expiry_text(now, -86400i64) == Some(s@),
                None => expiry_text(now, -86400i64) is None,
            },
{
    expiry_from_now(-MESSAGE_RETENTION_SECONDS)
}

} // verus!
