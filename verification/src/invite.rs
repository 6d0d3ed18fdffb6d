//! Server invitations: their codes, and whether an invitation can still be
//! used.
use vstd::prelude::*;
use rand::Rng;
use crate::error::AppError;
use crate::text::push_char;

verus! {

/// A server invitation.
#[derive(Debug, Clone)]
pub struct Invitation {
    pub id: String,
    pub server_id: String,
    pub created_by: String,
    pub code: String,
    pub expires_at: Option<String>,
    pub max_uses: Option<i32>,
    pub use_count: i32,
    pub created_at: String,
}

/// What the public preview of an invitation shows.
#[derive(Debug, Clone)]
pub struct InviteInfo {
    pub invite: Invitation,
    pub server_name: String,
    pub member_count: i64,
}

/// Request body to create an invitation.
#[derive(Debug, Clone)]
pub struct CreateInviteRequest {
    pub expires_in_seconds: Option<i64>,
    pub max_uses: Option<i32>,
}

/// The characters an invitation code is drawn from.
pub open spec fn invite_charset() -> Seq<char> {
    "abcdefghijklmnopqrstuvwxyzABCDEFGHIJKLMNOPQRSTUVWXYZ0123456789"@
}

#[verifier::external_type_specification]
#[verifier::external_body]
pub struct ExThreadRng(rand::rngs::ThreadRng);

/// Calls `rand::thread_rng`, which returns the thread-local random number
/// generator.
#[verifier::external_body]
pub(crate) fn thread_rng() -> rand::rngs::ThreadRng {
    rand::thread_rng()
}

/// Calls `Rng::gen_range` on `0..bound`, which draws a value of that range
/// (and panics on an empty range, which `requires` leaves out). The value is
/// random: only its range is stated.
#[verifier::external_body]
fn gen_index(rng: &mut rand::rngs::ThreadRng, bound: usize) -> (res: usize)
    requires
        bound > 0,
    ensures
        res < bound,
{
    rng.gen_range(0..bound)
}

/// A random invitation code: 8 characters, each a letter or a digit.
pub fn generate_invite_code() -> (res: String)
    ensures
        res@.len() == 8,
        forall|i: int| 0 <= i < 8 ==> invite_charset().contains(#[trigger] res@[i]),
{
    let charset = "abcdefghijklmnopqrstuvwxyzABCDEFGHIJKLMNOPQRSTUVWXYZ0123456789";
    proof {
        reveal_strlit("abcdefghijklmnopqrstuvwxyzABCDEFGHIJKLMNOPQRSTUVWXYZ0123456789");
    }
    let n = charset.unicode_len();
    let mut rng = thread_rng();
    let mut code = String::new();
    let mut k: usize = 0;
    while k < 8
        invariant
            k <= 8,
            n == charset@.len(),
            n == 62,
            charset@ == invite_charset(),
            code@.len() == k,
            forall|i: int| 0 <= i < k ==> invite_charset().contains(#[trigger] code@[i]),
        decreases 8 - k,
    {
        let idx = gen_index(&mut rng, n);
        let c = charset.get_char(idx);
        push_char(&mut code, c);
        proof {
            assert(invite_charset()[idx as int] == c);
            assert(invite_charset().contains(c));
            assert(code@[k as int] == c);
        }
        k += 1;
    }
    code
}

/// The moment that `chrono::NaiveDateTime::parse_from_str` reads in `s`
/// under format `fmt`, as whole seconds since the Unix epoch and the
/// nanoseconds past that second; `None` when `s` does not match.
pub uninterp spec fn parsed_datetime(s: Seq<char>, fmt: Seq<char>) -> Option<(i64, u32)>;

/// Calls `chrono::NaiveDateTime::parse_from_str(s, fmt)` and reads the
/// result, taken as UTC, with `timestamp` and `timestamp_subsec_nanos`. The
/// contract names the outcome; it is a function of `s` and `fmt` alone.
#[verifier::external_body]
fn parse_datetime(s: &str, fmt: &str) -> (res: Option<(i64, u32)>)
    ensures
        res == parsed_datetime(s@, fmt@),
{
    match chrono::NaiveDateTime::parse_from_str(s, fmt) {
        Ok(d) => {
            let utc = d.and_utc();
            Some((utc.timestamp(), utc.timestamp_subsec_nanos()))
        },
        Err(_) => None,
    }
}

/// The first second that chrono has a date for: the start of year -262143.
pub open spec fn first_dated_second() -> i64 {
    -8334601228800i64
}

/// The last second that chrono has a date for: the end of year 262142.
pub open spec fn last_dated_second() -> i64 {
    8210266876799
}

/// Calls `chrono::Utc::now` and reads the current moment with `timestamp`
/// and `timestamp_subsec_nanos`. `now` measures the system time since the
/// Unix epoch (it panics on a clock set before 1970, as when the system
/// fails) and unwraps `DateTime::from_timestamp` on it, so the moment is
/// never before the epoch and always has a date. The clock's value itself
/// is not stated.
#[verifier::external_body]
pub(crate) fn now_utc() -> (res: (i64, u32))
    ensures
        0 <= res.0 <= last_dated_second(),
        res.1 < 1_000_000_000,
{
    let now = chrono::Utc::now();
    (now.timestamp(), now.timestamp_subsec_nanos())
}

/// The format in which expiry dates are stored.
pub open spec fn expiry_format() -> Seq<char> {
    "%Y-%m-%d %H:%M:%S"@
}

/// The text that `chrono` writes in format `fmt` for the moment `secs`
/// seconds after the Unix epoch (UTC); `None` when chrono has no date for it.
pub uninterp spec fn formatted_moment(secs: i64, fmt: Seq<char>) -> Option<Seq<char>>;

/// The moment `secs` seconds after the epoch, on the second.
pub open spec fn whole_second(secs: i64) -> Option<(i64, u32)> {
    Some((secs, 0u32))
}

/// The last second of year 9999, up to which years are written with four
/// digits.
pub open spec fn last_four_digit_year_second() -> i64 {
    253402300799
}

/// Calls `chrono::DateTime::from_timestamp(secs, 0)` and, when it gives a
/// moment, `format(fmt)` and `to_string`. The format must be the expiry
/// format, for which formatting cannot fail. `from_timestamp` gives a moment
/// for every second from the start of year -262143 to the end of year
/// 262142, its documented range. The contract names the text,
/// and adds what chrono's formatting and parsing source shows for moments
/// from 1970 to the end of year 9999: the four-digit year and two-digit
/// fields are read back by `NaiveDateTime::parse_from_str` in the same
/// format as the same second.
#[verifier::external_body]
fn format_moment(secs: i64, fmt: &str) -> (res: Option<String>)
    requires
        fmt@ == expiry_format(),
    ensures
        match res {
            Some(s) => formatted_moment(secs, fmt@) == Some(s@),
            None => formatted_moment(secs, fmt@) is None,
        },
        first_dated_second() <= secs <= last_dated_second() ==> res is Some,
        0 <= secs <= last_four_digit_year_second() ==> match res {
            Some(s) => parsed_datetime(s@, fmt@) == whole_second(secs),
            None => false,
        },
{
    chrono::DateTime::from_timestamp(secs, 0).map(|d| d.format(fmt).to_string())
}

/// The stored expiry of something that expires `delay` seconds after
/// moment `now` (in seconds): `None` when that moment has no date.
pub open spec fn expiry_text(now: i64, delay: i64) -> Option<Seq<char>> {
    if i64::MIN <= now + delay <= i64::MAX {
        formatted_moment((now + delay) as i64, expiry_format())
    } else {
        None
    }
}

/// The stored expiry of something that expires `delay` seconds after moment
/// `now`; `None` when that moment has no date, which is only outside years
/// -262143 to 262142. From 1970 to the end of year 9999, the expiry reads
/// back as that very moment: whatever is checked against it has expired
/// exactly at the moments after it.
pub fn expiry_after(now: i64, delay: i64) -> (res: Option<String>)
    ensures
        match res {
            Some(s) => expiry_text(now, delay) == Some(s@),
            None => expiry_text(now, delay) is None,
        },
        first_dated_second() <= now + delay <= last_dated_second() ==> res is Some,
        0 <= now + delay <= last_four_digit_year_second() ==> (res matches Some(s) && forall|
            m: (i64, u32),
        | #[trigger] expired_at(Some(s@), m) == before(((now + delay) as i64, 0u32), m)),
{
    let fmt = "%Y-%m-%d %H:%M:%S";
    proof {
        reveal_strlit("%Y-%m-%d %H:%M:%S");
    }
    match now.checked_add(delay) {
        Some(t) => format_moment(t, fmt),
        None => None,
    }
}

/// The stored expiry of something that expires `delay` seconds from now,
/// reading the clock: the expiry after the moment that the clock gave, a
/// moment since 1970 that has a date.
pub fn expiry_from_now(delay: i64) -> (res: Option<String>)
    ensures
        first_dated_second() <= delay <= 0 ==> res is Some,
        exists|now: i64|
            0 <= now <= last_dated_second() && match res {
                Some(s) => #[trigger] expiry_text(now, delay) == Some(s@),
                None => expiry_text(now, delay) is None,
            },
{
    let (now, _) = now_utc();
    let res = expiry_after(now, delay);
    assert(0 <= now <= last_dated_second() && match res {
        Some(s) => expiry_text(now, delay) == Some(s@),
        None => expiry_text(now, delay) is None,
    });
    res
}

/// Whether moment `a` comes strictly before moment `b`, both as seconds and
/// nanoseconds.
pub open spec fn before(a: (i64, u32), b: (i64, u32)) -> bool {
    a.0 < b.0 || (a.0 == b.0 && a.1 < b.1)
}

/// Whether an invitation had expired at moment `now`: its expiry date reads
/// as a moment before `now`. An expiry that does not read as a date never
/// expires.
pub open spec fn expired_at(expires_at: Option<Seq<char>>, now: (i64, u32)) -> bool {
    match expires_at {
        Some(e) => match parsed_datetime(e, expiry_format()) {
            Some(t) => before(t, now),
            None => false,
        },
        None => false,
    }
}

/// Whether an invitation has been used as many times as it allows.
pub open spec fn exhausted(max_uses: Option<i32>, use_count: i32) -> bool {
    match max_uses {
        Some(m) => use_count >= m,
        None => false,
    }
}

/// Why an invitation cannot be used at moment `now`, or `None` when it can:
/// expiry is checked first, then the number of uses.
pub open spec fn refusal_at(invite: Invitation, now: (i64, u32)) -> Option<Seq<char>> {
    let expires = match invite.expires_at {
        Some(e) => Some(e@),
        None => None,
    };
    if expired_at(expires, now) {
        Some("Cette invitation a expiré"@)
    } else if exhausted(invite.max_uses, invite.use_count) {
        Some("Cette invitation a atteint son nombre maximal d'utilisations"@)
    } else {
        None
    }
}

/// Whether `res` answers the refusal `refusal`: `Ok` when there is none, a
/// `BadRequest` with its text otherwise.
pub open spec fn answers(res: Result<(), AppError>, refusal: Option<Seq<char>>) -> bool {
    match refusal {
        None => res is Ok,
        Some(m) => res is Err && res->Err_0 is BadRequest && res->Err_0->BadRequest_0@ == m,
    }
}

/// Decides whether an invitation can be used at moment `now` (seconds since
/// the epoch and nanoseconds): an expired invitation is refused first, then
/// one that reached its maximal number of uses.
pub fn check_invitation_usable(invite: &Invitation, now_secs: i64, now_nanos: u32) -> (res: Result<
    (),
    AppError,
>)
    ensures
        answers(res, refusal_at(*invite, (now_secs, now_nanos))),
{
    if let Some(expires) = &invite.expires_at {
        if let Some(t) = parse_datetime(expires.as_str(), "%Y-%m-%d %H:%M:%S") {
            if t.0 < now_secs || (t.0 == now_secs && t.1 < now_nanos) {
                return Err(AppError::BadRequest("Cette invitation a expiré".to_owned()));
            }
        }
    }
    if let Some(max) = invite.max_uses {
        if invite.use_count >= max {
            return Err(
                AppError::BadRequest(
                    "Cette invitation a atteint son nombre maximal d'utilisations".to_owned(),
                ),
            );
        }
    }
    Ok(())
}

/// Decides whether an invitation can be used now, reading the clock: the
/// answer is the one due at the moment that the clock gave.
pub fn check_invitation_usable_now(invite: &Invitation) -> (res: Result<(), AppError>)
    ensures
        exists|now: (i64, u32)| answers(res, #[trigger] refusal_at(*invite, now)),
        exhausted(invite.max_uses, invite.use_count) ==> res is Err,
        invite.expires_at is None && !exhausted(invite.max_uses, invite.use_count) ==> res is Ok,
{
    let (secs, nanos) = now_utc();
    let res = check_invitation_usable(invite, secs, nanos);
    assert(answers(res, refusal_at(*invite, (secs, nanos))));
    res
}

/// What an invitation's expiry was written as is what its use is checked
/// against: when the stored expiry reads back as moment `t` (as
/// `expiry_after` guarantees from 1970 to the end of year 9999), an
/// invitation with uses left is refused exactly at the moments after `t`,
/// and then as expired.
pub proof fn law_written_expiry_decides(invite: Invitation, t: i64, now: (i64, u32))
    requires
        invite.expires_at is Some,
        forall|m: (i64, u32)| #[trigger] expired_at(Some(invite.expires_at->0@), m) == before((t, 0u32), m),
        !exhausted(invite.max_uses, invite.use_count),
    ensures
        refusal_at(invite, now) is Some <==> before((t, 0u32), now),
        refusal_at(invite, now) is Some ==> refusal_at(invite, now) == Some("Cette invitation a expiré"@),
{
    assert(expired_at(Some(invite.expires_at->0@), now) == before((t, 0u32), now));
}

} // verus!
