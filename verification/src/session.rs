use vstd::prelude::*;
use vstd::string::*;

verus! {

/// Session state kept across invocations: the last access token, the
/// refresh token, the expiry time and the account.
#[derive(Debug, Clone)]
pub struct SessionStore {
    pub client_id: String,
    pub access_token: String,
    pub refresh_token: Option<String>,
    /// Unix timestamp (seconds) at which the access token expires.
    pub expires_at: i64,
    pub account: Option<String>,
}

/// What the status command reports about a cached token at a given time.
#[derive(Clone, Copy, Debug, PartialEq, Eq, Structural)]
pub enum TokenStatus {
    /// The token has expired; a refresh token may still renew it.
    Expired { refresh_available: bool },
    /// The token is valid for `minutes` minutes and `seconds` seconds more.
    Valid { minutes: i64, seconds: i64 },
}

/// The token has expired at time `now`.
pub open spec fn expired_at(expires_at: int, now: int) -> bool {
    now >= expires_at
}

/// Fewer than `secs` seconds of validity are left at time `now`.
pub open spec fn expiring_within(expires_at: int, secs: int, now: int) -> bool {
    expires_at - now < secs
}

/// The status of a token that expires at `expires_at`, seen at time `now`.
pub open spec fn status_of(expires_at: int, has_refresh: bool, now: int) -> TokenStatus {
    if expired_at(expires_at, now) {
        TokenStatus::Expired { refresh_available: has_refresh }
    } else {
        TokenStatus::Valid {
            minutes: ((expires_at - now) / 60) as i64,
            seconds: ((expires_at - now) % 60) as i64,
        }
    }
}

/// A reading of the system clock: whole seconds and nanoseconds after the
/// Unix epoch (`Ok`), or before it (`Err`).
pub type ClockReading = Result<(u64, u32), (u64, u32)>;

#[verifier::external_type_specification]
#[verifier::external_body]
pub struct ExSystemTime(std::time::SystemTime);

/// How far a system time lies from the Unix epoch (what
/// `SystemTime::duration_since(UNIX_EPOCH)` reports for it).
pub uninterp spec fn reading_of(t: std::time::SystemTime) -> ClockReading;

/// `std::time::SystemTime::now`. It depends on the clock: nothing is
/// stated of it.
#[verifier::external_body]
fn system_now() -> std::time::SystemTime {
    std::time::SystemTime::now()
}

/// `SystemTime::duration_since(UNIX_EPOCH)`: the distance after the
/// epoch, or (its error) the distance before it, each as whole seconds
/// and sub-second nanoseconds (`Duration::as_secs`, `subsec_nanos`).
#[verifier::external_body]
fn since_epoch(t: &std::time::SystemTime) -> (r: ClockReading)
    ensures
        r == reading_of(*t),
{
    match t.duration_since(std::time::UNIX_EPOCH) {
        Ok(d) => Ok((d.as_secs(), d.subsec_nanos())),
        Err(e) => Err((e.duration().as_secs(), e.duration().subsec_nanos())),
    }
}

/// Seconds from the epoch within which chrono represents every time
/// (its range reaches beyond the year 250000 either way).
pub open spec fn chrono_span() -> u64 {
    8_000_000_000_000
}

/// The reading lies within the span chrono represents.
pub open spec fn chrono_representable(reading: ClockReading) -> bool {
    match reading {
        Ok((secs, _)) => secs <= chrono_span(),
        Err((secs, _)) => secs <= chrono_span(),
    }
}

/// `chrono::DateTime::<Utc>::from(t).timestamp()`. Its `From<SystemTime>`
/// takes the seconds after the epoch, or, before it, the negated seconds
/// less one when there are leftover nanoseconds; it panics only for a
/// time chrono cannot represent, which `requires` leaves out. The
/// contract claims that whole-second count.
#[verifier::external_body]
fn utc_timestamp(t: &std::time::SystemTime) -> (r: i64)
    requires
        chrono_representable(reading_of(*t)),
    ensures
        r == unix_seconds_of(reading_of(*t)),
{
    chrono::DateTime::<chrono::Utc>::from(*t).timestamp()
}

/// Whole seconds since the epoch for a clock reading, rounded down (so a
/// time before the epoch counts negative), held within `i64`.
pub open spec fn unix_seconds_of(reading: ClockReading) -> int {
    match reading {
        Ok((secs, _)) => if secs > i64::MAX {
            i64::MAX as int
        } else {
            secs as int
        },
        Err((secs, nanos)) => {
            let t = -(secs as int) - (if nanos > 0 {
                1int
            } else {
                0int
            });
            if t < i64::MIN {
                i64::MIN as int
            } else {
                t
            }
        },
    }
}

/// Whole seconds since the epoch for a clock reading.
pub fn unix_seconds(reading: ClockReading) -> (r: i64)
    ensures
        r == unix_seconds_of(reading),
{
    match reading {
        Ok((secs, _)) => if secs > (i64::MAX as u64) {
            i64::MAX
        } else {
            secs as i64
        },
        Err((secs, nanos)) => {
            let t: i128 = -(secs as i128) - (if nanos > 0 {
                1i128
            } else {
                0i128
            });
            if t < (i64::MIN as i128) {
                i64::MIN
            } else {
                t as i64
            }
        },
    }
}

fn representable(reading: &ClockReading) -> (r: bool)
    ensures
        r == chrono_representable(*reading),
{
    match reading {
        Ok((secs, _)) => *secs <= 8_000_000_000_000,
        Err((secs, _)) => *secs <= 8_000_000_000_000,
    }
}

/// The current Unix time in whole seconds, as chrono counts it for the
/// system clock (outside the span chrono represents, the same count held
/// within `i64`). The reading depends on the clock.
pub fn now_unix_seconds() -> (r: i64)
    ensures
        exists|t: std::time::SystemTime| r == unix_seconds_of(#[trigger] reading_of(t)),
{
    let t = system_now();
    let reading = since_epoch(&t);
    if representable(&reading) {
        utc_timestamp(&t)
    } else {
        unix_seconds(reading)
    }
}

impl SessionStore {
    /// The token has expired at time `now`.
    pub fn is_expired_at(&self, now: i64) -> (r: bool)
        ensures
            r == expired_at(self.expires_at as int, now as int),
    {
        now >= self.expires_at
    }

    /// Fewer than `secs` seconds of validity are left at time `now`.
    pub fn expires_within_at(&self, secs: i64, now: i64) -> (r: bool)
        ensures
            r == expiring_within(self.expires_at as int, secs as int, now as int),
    {
        (self.expires_at as i128) - (now as i128) < (secs as i128)
    }

    /// The token has expired at the current time of the clock.
    pub fn is_expired(&self) -> (r: bool)
        ensures
            exists|now: i64| r == expired_at(self.expires_at as int, now as int),
    {
        let now = now_unix_seconds();
        self.is_expired_at(now)
    }

    /// Fewer than `secs` seconds of validity are left at the current time
    /// of the clock.
    pub fn expires_within(&self, secs: i64) -> (r: bool)
        ensures
            exists|now: i64| r == expiring_within(self.expires_at as int, secs as int, now as int),
    {
        let now = now_unix_seconds();
        self.expires_within_at(secs, now)
    }

    /// The status of the cached token at time `now`.
    pub fn status_at(&self, now: i64) -> (r: TokenStatus)
        ensures
            r == status_of(self.expires_at as int, self.refresh_token is Some, now as int),
    {
        if self.is_expired_at(now) {
            TokenStatus::Expired { refresh_available: self.refresh_token.is_some() }
        } else {
            let remaining: i128 = (self.expires_at as i128) - (now as i128);
            let minutes: i128 = remaining / 60;
            let seconds: i128 = remaining % 60;
            TokenStatus::Valid { minutes: minutes as i64, seconds: seconds as i64 }
        }
    }
}

// ── Where the session is kept ───────────────────────────────────────────

/// The directory name under the home directory.
pub open spec fn store_dir_name() -> Seq<char> {
    ".workiq"@
}

/// The file name of the cache.
pub open spec fn store_file_name() -> Seq<char> {
    "token_cache.json"@
}

/// The base used when no home directory is known.
pub open spec fn fallback_base() -> Seq<char> {
    "."@
}

/// A path component that names one plain entry: no separator, no drive
/// prefix, not empty, not `.` or `..`.
pub open spec fn plain_component(c: Seq<char>) -> bool {
    &&& c.len() > 0
    &&& forall|i: int| 0 <= i < c.len() ==> c[i] != '/' && c[i] != '\\' && c[i] != ':'
    &&& c != "."@
    &&& c != ".."@
}

/// A Windows verbatim path (`\\?\...`): joining onto it rebuilds the path
/// from its components.
pub open spec fn is_verbatim(base: Seq<char>) -> bool {
    &&& base.len() >= 4
    &&& base[0] == '\\'
    &&& base[1] == '\\'
    &&& base[2] == '?'
    &&& base[3] == '\\'
}

/// `r` ends with `component`.
pub open spec fn path_ends_with(r: Seq<char>, component: Seq<char>) -> bool {
    &&& r.len() >= component.len()
    &&& r.subrange(r.len() - component.len(), r.len() as int) == component
}

/// A bare drive such as `C:`: on Windows nothing is put between it and a
/// joined component.
pub open spec fn is_drive_only(base: Seq<char>) -> bool {
    &&& base.len() == 2
    &&& base[1] == ':'
    &&& (('a' <= base[0] && base[0] <= 'z') || ('A' <= base[0] && base[0] <= 'Z'))
}

/// `r` is `base` joined with `component` by `PathBuf::push`: nothing in
/// between after an empty base or a `/` (a separator everywhere); after a
/// `\` or a bare drive, nothing (Windows) or `/` (elsewhere); otherwise
/// the platform's separator, `/` or `\`.
pub open spec fn joined_path(r: Seq<char>, base: Seq<char>, component: Seq<char>) -> bool {
    if base.len() == 0 || base.last() == '/' {
        r == base + component
    } else if base.last() == '\\' || is_drive_only(base) {
        r == base + component || r == base + seq!['/'] + component
    } else {
        r == base + seq!['/'] + component || r == base + seq!['\\'] + component
    }
}

/// What joining `component` onto `base` gives: a path that ends with the
/// component and, unless `base` is a verbatim path, `base` joined with it
/// as `joined_path` says.
pub open spec fn path_join_result(r: Seq<char>, base: Seq<char>, component: Seq<char>) -> bool {
    &&& path_ends_with(r, component)
    &&& !is_verbatim(base) ==> joined_path(r, base, component)
}

/// The home directory of the user, as `dirs::home_dir` finds it, in its
/// string form (characters that are not valid Unicode are replaced). It
/// depends on the environment: nothing is stated of it.
#[verifier::external_body]
fn home_dir() -> Option<String> {
    match dirs::home_dir() {
        Some(p) => Some(p.to_string_lossy().into_owned()),
        None => None,
    }
}

/// `std::path::Path::join` of a plain relative component onto `base`.
/// The contract claims that the result ends with `component` and, unless
/// `base` is a Windows verbatim path (which `PathBuf::push` rebuilds from
/// its components), is `base`, then a separator where `PathBuf::push`
/// puts one, then `component`, as `joined_path` says. Which separator,
/// `/` or `\\`, is the platform's (`std::path::MAIN_SEPARATOR`): the
/// contract leaves that choice to the platform.
#[verifier::external_body]
fn path_join(base: &str, component: &str) -> (r: String)
    requires
        plain_component(component@),
    ensures
        path_join_result(r@, base@, component@),
{
    std::path::Path::new(base).join(component).to_string_lossy().into_owned()
}

/// The session directory under the given home directory (the current
/// directory when there is none).
pub fn store_dir_in(home: Option<&str>) -> (r: String)
    ensures
        path_join_result(
            r@,
            match home {
                Some(h) => h@,
                None => fallback_base(),
            },
            store_dir_name(),
        ),
{
    let dir_name = ".workiq";
    proof {
        reveal_strlit(".workiq");
        reveal_strlit(".");
        reveal_strlit("..");
        assert(dir_name@.len() == 7);
        assert(dir_name@ != "."@);
        assert(dir_name@ != ".."@);
    }
    match home {
        Some(h) => path_join(h, dir_name),
        None => path_join(".", dir_name),
    }
}

/// The session directory: `.workiq` under the home directory.
pub fn store_dir() -> (r: String)
    ensures
        exists|base: Seq<char>| #[trigger] path_join_result(r@, base, store_dir_name()),
{
    match home_dir() {
        Some(h) => store_dir_in(Some(h.as_str())),
        None => store_dir_in(None),
    }
}

/// The cache file inside the given session directory.
pub fn store_path_in(dir: &str) -> (r: String)
    ensures
        path_join_result(r@, dir@, store_file_name()),
{
    let file_name = "token_cache.json";
    proof {
        reveal_strlit("token_cache.json");
        reveal_strlit(".");
        reveal_strlit("..");
    }
    path_join(dir, file_name)
}

/// The cache file: `token_cache.json` in the session directory.
pub fn store_path() -> (r: String)
    ensures
        exists|dir: Seq<char>|
            #[trigger] path_join_result(r@, dir, store_file_name()) && exists|base: Seq<char>|
                #[trigger] path_join_result(dir, base, store_dir_name()),
{
    let dir = store_dir();
    store_path_in(dir.as_str())
}


// ── Laws of expiry ──────────────────────────────────────────────────────

/// Expired means less than one second of validity left; a token that
/// expires within some margin also expires within any larger one, and at
/// any later time.
pub proof fn law_expiry_margins(expires_at: int, a: int, b: int, now: int, later: int)
    ensures
        expired_at(expires_at, now) == expiring_within(expires_at, 1, now),
        a <= b && expiring_within(expires_at, a, now) ==> expiring_within(expires_at, b, now),
        now <= later && expiring_within(expires_at, a, now) ==> expiring_within(
            expires_at,
            a,
            later,
        ),
{
}

/// The status splits the time left into whole minutes and seconds, and
/// reports expiry exactly when the token has expired.
pub proof fn law_status_splits_remaining(expires_at: i64, has_refresh: bool, now: i64)
    ensures
        status_of(expires_at as int, has_refresh, now as int) is Expired <==> expired_at(
            expires_at as int,
            now as int,
        ),
        status_of(expires_at as int, has_refresh, now as int) matches TokenStatus::Valid {
            minutes,
            seconds,
        } ==> minutes * 60 + seconds == expires_at - now && 0 <= seconds < 60 && minutes >= 0,
{
    if !expired_at(expires_at as int, now as int) {
        let rem = expires_at - now;
        assert(rem > 0);
        assert(rem / 60 * 60 + rem % 60 == rem) by (nonlinear_arith)
            requires
                rem > 0,
        ;
        assert(rem / 60 <= rem) by (nonlinear_arith)
            requires
                rem > 0,
        ;
        assert(rem <= 0x1_0000_0000_0000_0000);
    }
}

} // verus!
