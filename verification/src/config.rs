//! Server configuration: each setting comes from an environment value when
//! that value reads as a valid setting, and from a default otherwise.
use vstd::prelude::*;

verus! {

/// Whether `c` is an ASCII decimal digit.
pub open spec fn is_digit(c: char) -> bool {
    '0' <= c <= '9'
}

/// The value of digit `c`.
pub open spec fn digit_value(c: char) -> nat {
    (c as int - '0' as int) as nat
}

/// Whether every character of `s` is a decimal digit.
pub open spec fn all_digits(s: Seq<char>) -> bool {
    forall|i: int| 0 <= i < s.len() ==> is_digit(#[trigger] s[i])
}

/// The number that the digits `s` write.
pub open spec fn digits_value(s: Seq<char>) -> nat
    decreases s.len(),
{
    if s.len() == 0 {
        0
    } else {
        digits_value(s.drop_last()) * 10 + digit_value(s.last())
    }
}

/// The number that a nonempty run of digits writes, if `d` is one.
pub open spec fn digits_number(d: Seq<char>) -> Option<nat> {
    if d.len() > 0 && all_digits(d) {
        Some(digits_value(d))
    } else {
        None
    }
}

/// How the standard library reads an unsigned integer of at most `max`: an
/// optional `+`, then at least one decimal digit, the value not above `max`.
pub open spec fn parse_unsigned(s: Seq<char>, max: nat) -> Option<nat> {
    let d = if s.len() > 0 && s[0] == '+' {
        s.subrange(1, s.len() as int)
    } else {
        s
    };
    match digits_number(d) {
        Some(v) => if v <= max {
            Some(v)
        } else {
            None
        },
        None => None,
    }
}

/// How the standard library reads an `i64`: an optional sign, then at least
/// one decimal digit, the value within the range of `i64`.
pub open spec fn parse_signed(s: Seq<char>) -> Option<int> {
    if s.len() > 0 && s[0] == '-' {
        match digits_number(s.subrange(1, s.len() as int)) {
            Some(v) => if v <= 9223372036854775808 {
                Some(-v)
            } else {
                None
            },
            None => None,
        }
    } else {
        match parse_unsigned(s, 9223372036854775807) {
            Some(v) => Some(v as int),
            None => None,
        }
    }
}

/// A digit string never writes less than any of its prefixes.
proof fn lemma_prefix_value(s: Seq<char>, k: int)
    requires
        all_digits(s),
        0 <= k <= s.len(),
    ensures
        digits_value(s.subrange(0, k)) <= digits_value(s),
    decreases s.len(),
{
    if k < s.len() {
        let p = s.drop_last();
        assert(all_digits(p)) by {
            assert forall|i: int| 0 <= i < p.len() implies is_digit(#[trigger] p[i]) by {
                assert(p[i] == s[i]);
            }
        }
        lemma_prefix_value(p, k);
        assert(p.subrange(0, k) =~= s.subrange(0, k));
        assert(digits_value(p) <= digits_value(s)) by (nonlinear_arith)
            requires
                digits_value(s) == digits_value(p) * 10 + digit_value(s.last()),
        ;
    } else {
        assert(s.subrange(0, k) =~= s);
    }
}

/// The number written by the characters of `s` from `from` on, when they are
/// a nonempty run of digits writing at most `max`.
fn digits_in(s: &str, from: usize, max: u64) -> (res: Option<u64>)
    requires
        from <= s@.len(),
    ensures
        match digits_number(s@.subrange(from as int, s@.len() as int)) {
            Some(v) => if v <= max {
                res == Some(v as u64)
            } else {
                res is None
            },
            None => res is None,
        },
{
    let len = s.unicode_len();
    let ghost d = s@.subrange(from as int, len as int);
    if from == len {
        return None;
    }
    let mut acc: u64 = 0;
    let mut i: usize = from;
    while i < len
        invariant
            from <= i <= len,
            len == s@.len(),
            d == s@.subrange(from as int, len as int),
            acc == digits_value(s@.subrange(from as int, i as int)),
            acc <= max,
            all_digits(s@.subrange(from as int, i as int)),
        decreases len - i,
    {
        let c = s.get_char(i);
        let ghost pre = s@.subrange(from as int, i as int);
        let ghost next = s@.subrange(from as int, i + 1);
        proof {
            assert(next.drop_last() =~= pre);
            assert(next.last() == c);
            assert(d[i - from] == c);
        }
        if !('0' <= c && c <= '9') {
            proof {
                assert(!all_digits(d));
            }
            return None;
        }
        let v = (c as u32 - '0' as u32) as u64;
        if v > max || acc > (max - v) / 10 {
            proof {
                assert(digits_value(next) > max) by (nonlinear_arith)
                    requires
                        digits_value(next) == acc * 10 + v,
                        v > max || acc > (max - v) / 10,
                        acc >= 0,
                ;
                assert(all_digits(next));
                if all_digits(d) {
                    assert(next =~= d.subrange(0, i + 1 - from));
                    lemma_prefix_value(d, i + 1 - from);
                }
            }
            return None;
        }
        proof {
            assert(acc * 10 + v <= max) by (nonlinear_arith)
                requires
                    acc <= (max - v) / 10,
                    v <= max,
            ;
        }
        acc = acc * 10 + v;
        proof {
            assert(all_digits(next)) by {
                assert forall|j: int| 0 <= j < next.len() implies is_digit(#[trigger] next[j]) by {
                    if j < pre.len() {
                        assert(next[j] == pre[j]);
                    }
                }
            }
        }
        i += 1;
    }
    Some(acc)
}

/// Reads an unsigned integer of at most `max` as the standard library does.
pub fn parse_unsigned_text(s: &str, max: u64) -> (res: Option<u64>)
    ensures
        match parse_unsigned(s@, max as nat) {
            Some(v) => res == Some(v as u64),
            None => res is None,
        },
{
    let len = s.unicode_len();
    if len > 0 && s.get_char(0) == '+' {
        digits_in(s, 1, max)
    } else {
        proof {
            assert(s@.subrange(0, s@.len() as int) =~= s@);
        }
        digits_in(s, 0, max)
    }
}

/// Reads an `i64` as the standard library does.
pub fn parse_signed_text(s: &str) -> (res: Option<i64>)
    ensures
        match parse_signed(s@) {
            Some(v) => res == Some(v as i64),
            None => res is None,
        },
{
    let len = s.unicode_len();
    if len > 0 && s.get_char(0) == '-' {
        match digits_in(s, 1, 9223372036854775808u64) {
            Some(v) => {
                if v == 9223372036854775808u64 {
                    Some(i64::MIN)
                } else {
                    Some(-(v as i64))
                }
            },
            None => None,
        }
    } else {
        match parse_unsigned_text(s, 9223372036854775807u64) {
            Some(v) => Some(v as i64),
            None => None,
        }
    }
}

/// The path that `std::path::Path::join` gives for `rel` under `base`.
pub uninterp spec fn joined_path(base: Seq<char>, rel: Seq<char>) -> Seq<char>;

/// Whether `c` separates path components or names a drive on some platform.
pub open spec fn path_special(c: char) -> bool {
    c == '/' || c == '\\' || c == ':'
}

/// Whether `base` and `rel` are plain: `base` is not empty and does not end
/// with a separator or a drive colon, and `rel` is a non-empty single name
/// without separators or colons.
pub open spec fn plain_join(base: Seq<char>, rel: Seq<char>) -> bool {
    &&& base.len() > 0
    &&& !path_special(base.last())
    &&& rel.len() > 0
    &&& forall|i: int| 0 <= i < rel.len() ==> !path_special(#[trigger] rel[i])
}

/// Whether `path` is `base`, then a separator (`/`, or `\` where that is
/// the platform's), then `rel`.
pub open spec fn separated(path: Seq<char>, base: Seq<char>, rel: Seq<char>) -> bool {
    path == base.push('/') + rel || path == base.push('\\') + rel
}

/// Calls `std::path::Path::join`, which adjoins `rel` to `base`, and reads the
/// result back as text. The contract names the result and adds what the
/// documentation of `PathBuf::push` gives for plain arguments: a relative
/// single name is added after the platform's separator. Which separator that
/// is depends on the platform and is left open between the two.
#[verifier::external_body]
fn join_path(base: &str, rel: &str) -> (res: String)
    ensures
        res@ == joined_path(base@, rel@),
        plain_join(base@, rel@) ==> separated(res@, base@, rel@),
{
    std::path::Path::new(base).join(rel).to_string_lossy().into_owned()
}

/// The server's configuration.
#[derive(Debug, Clone)]
pub struct Config {
    /// Port to listen on.
    pub port: u16,
    /// Address to listen on.
    pub host: String,
    /// The SQLite database file.
    pub database_path: String,
    /// The secret that signs session tokens.
    pub jwt_secret: String,
    /// How long a session token is valid, in seconds.
    pub jwt_expiration_seconds: i64,
    /// Where uploaded files and archives live.
    pub data_dir: String,
    /// Free disk space, in bytes, under which messages are archived.
    pub archive_threshold_bytes: u64,
    /// Largest accepted upload, in bytes.
    pub max_upload_size: usize,
}

/// A setting read as an unsigned number of at most `max`, or its default.
pub open spec fn unsigned_or(v: Option<&str>, max: nat, default: nat) -> nat {
    match v {
        Some(s) => match parse_unsigned(s@, max) {
            Some(n) => n,
            None => default,
        },
        None => default,
    }
}

/// A text setting, or its default.
pub open spec fn text_or(v: Option<&str>, default: Seq<char>) -> Seq<char> {
    match v {
        Some(s) => s@,
        None => default,
    }
}

fn unsigned_setting(v: Option<&str>, max: u64, default: u64) -> (res: u64)
    requires
        default <= max,
    ensures
        res == unsigned_or(v, max as nat, default as nat),
{
    match v {
        Some(s) => match parse_unsigned_text(s, max) {
            Some(n) => n,
            None => default,
        },
        None => default,
    }
}

fn text_setting(v: Option<&str>, default: &str) -> (res: String)
    ensures
        res@ == text_or(v, default@),
{
    match v {
        Some(s) => s.to_owned(),
        None => default.to_owned(),
    }
}

impl Config {
    /// Builds the configuration from the values of the environment variables
    /// `FURACHAT_DATA_DIR`, `FURACHAT_PORT`, `FURACHAT_HOST`,
    /// `FURACHAT_JWT_SECRET`, `FURACHAT_JWT_EXPIRATION`,
    /// `FURACHAT_ARCHIVE_THRESHOLD` and `FURACHAT_MAX_UPLOAD` (`None` when a
    /// variable is unset). A number that does not read as one falls back to
    /// its default: port 8080, tokens valid 7 days, archiving under 500 MiB
    /// free, uploads up to 50 MiB.
    pub fn from_values(
        data_dir: Option<&str>,
        port: Option<&str>,
        host: Option<&str>,
        jwt_secret: Option<&str>,
        jwt_expiration: Option<&str>,
        archive_threshold: Option<&str>,
        max_upload: Option<&str>,
    ) -> (res: Config)
        ensures
            res.data_dir@ == text_or(data_dir, "data"@),
            res.database_path@ == joined_path(res.data_dir@, "furachat.db"@),
            plain_join(res.data_dir@, "furachat.db"@) ==> separated(
                res.database_path@,
                res.data_dir@,
                "furachat.db"@,
            ),
            res.port == unsigned_or(port, 65535, 8080),
            res.host@ == text_or(host, "0.0.0.0"@),
            res.jwt_secret@ == text_or(jwt_secret, "furachat-dev-secret-change-in-production"@),
            res.jwt_expiration_seconds == match jwt_expiration {
                Some(s) => match parse_signed(s@) {
                    Some(n) => n,
                    None => 604800,
                },
                None => 604800,
            },
            res.archive_threshold_bytes == unsigned_or(
                archive_threshold,
                18446744073709551615,
                524288000,
            ),
            res.max_upload_size == unsigned_or(max_upload, usize::MAX as nat, 52428800),
    {
        let dir = text_setting(data_dir, "data");
        let database_path = join_path(dir.as_str(), "furachat.db");
        let port_value = unsigned_setting(port, 65535, 8080);
        let expiration = match jwt_expiration {
            Some(s) => match parse_signed_text(s) {
                Some(n) => n,
                None => 604800,
            },
            None => 604800,
        };
        let threshold = unsigned_setting(archive_threshold, 18446744073709551615u64, 524288000);
        let max_upload_size = unsigned_setting(max_upload, usize::MAX as u64, 52428800);
        Config {
            port: port_value as u16,
            host: text_setting(host, "0.0.0.0"),
            database_path,
            jwt_secret: text_setting(jwt_secret, "furachat-dev-secret-change-in-production"),
            jwt_expiration_seconds: expiration,
            data_dir: dir,
            archive_threshold_bytes: threshold,
            max_upload_size: max_upload_size as usize,
        }
    }
}

} // verus!
