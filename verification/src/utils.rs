//! Helpers on MQTT topics and strings.
use vstd::prelude::*;

verus! {

/// `suffix` is what follows the last `'/'` of `path`, or the whole of `path`
/// where it holds no `'/'`.
pub open spec fn is_topic_type(path: Seq<char>, suffix: Seq<char>) -> bool {
    &&& suffix.len() <= path.len()
    &&& suffix == path.subrange(path.len() - suffix.len(), path.len() as int)
    &&& !suffix.contains('/')
    &&& suffix.len() < path.len() ==> path[path.len() - suffix.len() - 1] == '/'
}

/// Returns the last segment of an MQTT topic: what follows its last `'/'`, or
/// the whole topic where it has no `'/'`.
pub fn get_topic_type(path: &str) -> (r: &str)
    ensures
        is_topic_type(path@, r@),
{
    let n = path.unicode_len();
    let mut i = n;
    while i > 0 && path.get_char(i - 1) != '/'
        invariant
            n == path@.len(),
            i <= n,
            forall|j: int| i <= j < n ==> path@[j] != '/',
        decreases i,
    {
        i = i - 1;
    }
    let r = path.substring_char(i, n);
    assert(!r@.contains('/')) by {
        if r@.contains('/') {
            let k = choose|k: int| 0 <= k < r@.len() && r@[k] == '/';
            assert(path@[i + k] == '/');
        }
    }
    r
}

/// Whether two strings hold the same characters.
pub fn str_equal(a: &str, b: &str) -> (r: bool)
    ensures
        r == (a@ == b@),
{
    let n = a.unicode_len();
    let m = b.unicode_len();
    if n != m {
        return false;
    }
    let mut i: usize = 0;
    while i < n
        invariant
            n == a@.len(),
            m == b@.len(),
            n == m,
            i <= n,
            forall|j: int| 0 <= j < i ==> a@[j] == b@[j],
        decreases n - i,
    {
        if a.get_char(i) != b.get_char(i) {
            return false;
        }
        i = i + 1;
    }
    assert(a@ =~= b@);
    true
}

/// The system clock's time, as std holds it.
#[verifier::external_type_specification]
#[verifier::external_body]
pub struct ExSystemTime(std::time::SystemTime);

/// Reads the system clock.
///
/// Calls `std::time::SystemTime::now()`, which does not fail. What it returns
/// depends on the clock, so nothing is stated of it.
#[verifier::external_body]
fn system_now() -> std::time::SystemTime {
    std::time::SystemTime::now()
}

/// The time from the Unix epoch to `t`, as whole seconds and the nanoseconds
/// beyond them; `None` where `t` lies before the epoch.
///
/// Calls `SystemTime::duration_since(UNIX_EPOCH)`, which returns an error for
/// a time before the epoch, and reads the `Duration` with `as_secs` and
/// `subsec_nanos`; std documents the latter as below one billion.
#[verifier::external_body]
fn since_unix_epoch(t: &std::time::SystemTime) -> (r: Option<(u64, u32)>)
    ensures
        r matches Some(p) ==> p.1 < 1_000_000_000,
{
    match t.duration_since(std::time::UNIX_EPOCH) {
        Ok(d) => Some((d.as_secs(), d.subsec_nanos())),
        Err(_) => None,
    }
}

/// Whether `c` is one of the ASCII digits `0` to `9`.
pub open spec fn is_ascii_digit(c: char) -> bool {
    '0' as u32 <= c as u32 <= '9' as u32
}

/// `t` ends in `'.'`, three digits and `'Z'`, as a UTC time with milliseconds
/// does (`...ss.sssZ`).
pub open spec fn has_millis_tail(t: Seq<char>) -> bool {
    &&& t.len() >= 5
    &&& t[t.len() - 5] == '.'
    &&& is_ascii_digit(t[t.len() - 4])
    &&& is_ascii_digit(t[t.len() - 3])
    &&& is_ascii_digit(t[t.len() - 2])
    &&& t[t.len() - 1] == 'Z'
}

/// `t` ends in `'.'`, two digits and `'Z'`, as a protocol timestamp with
/// hundredths does (`...ss.ssZ`).
pub open spec fn has_hundredths_tail(t: Seq<char>) -> bool {
    &&& t.len() >= 4
    &&& t[t.len() - 4] == '.'
    &&& is_ascii_digit(t[t.len() - 3])
    &&& is_ascii_digit(t[t.len() - 2])
    &&& t[t.len() - 1] == 'Z'
}

/// The text chrono writes for the UTC time `secs` seconds and `nanos`
/// nanoseconds after the Unix epoch, in the form `%Y-%m-%dT%H:%M:%S%.3fZ`.
pub uninterp spec fn utc_millis_text(secs: i64, nanos: u32) -> Seq<char>;

/// The UTC time `secs` seconds and `nanos` nanoseconds after the Unix epoch,
/// formatted `YYYY-MM-DDTHH:mm:ss.sssZ`; `None` where chrono cannot represent it.
///
/// Calls chrono's `DateTime::from_timestamp` (which returns `None` out of its
/// range, years beyond 262143, and never panics), then `format` and
/// `to_string`. chrono writes `%.3f` as `'.'` and three digits
/// (format/formatting.rs, `Nanosecond3`), followed here by the literal `Z`;
/// all years up to 9999 are in chrono's range. The rest of the text, which
/// depends on the calendar, is named `utc_millis_text`.
#[verifier::external_body]
fn format_utc_millis(secs: i64, nanos: u32) -> (r: Option<String>)
    ensures
        r matches Some(t) ==> t@ == utc_millis_text(secs, nanos) && has_millis_tail(t@),
        0 <= secs <= 253402300799 && nanos < 1_000_000_000 ==> r is Some,
{
    match chrono::DateTime::from_timestamp(secs, nanos) {
        Some(d) => Some(d.format("%Y-%m-%dT%H:%M:%S%.3fZ").to_string()),
        None => None,
    }
}

/// `text` without its last-but-one character, where it has two or more.
pub open spec fn without_last_but_one(text: Seq<char>) -> Seq<char> {
    if text.len() >= 2 {
        text.subrange(0, text.len() - 2) + text.subrange(text.len() - 1, text.len() as int)
    } else {
        text
    }
}

/// Dropping the last millisecond digit leaves a timestamp with hundredths.
pub proof fn lemma_millis_to_hundredths(t: Seq<char>)
    requires
        has_millis_tail(t),
    ensures
        has_hundredths_tail(without_last_but_one(t)),
{
    let r = without_last_but_one(t);
    assert(r.len() == t.len() - 1);
    assert(r[r.len() - 4] == t[t.len() - 5]);
    assert(r[r.len() - 3] == t[t.len() - 4]);
    assert(r[r.len() - 2] == t[t.len() - 3]);
    assert(r[r.len() - 1] == t[t.len() - 1]);
}

/// `a` comes before `b` in text order, or is `b`: at the first place where
/// they differ `a` holds the smaller character, or `a` is a prefix of `b`.
pub open spec fn text_le(a: Seq<char>, b: Seq<char>) -> bool {
    ||| a == b
    ||| exists|p: int|
        0 <= p < a.len() && p < b.len() && a.take(p) == b.take(p) && (a[p] as u32) < (
        #[trigger] b[p] as u32)
    ||| a.len() < b.len() && a == b.take(a.len() as int)
}

/// Dropping the last millisecond digit keeps the text order of two
/// timestamps of the same length that end in `'Z'`.
pub proof fn lemma_hundredths_keep_order(a: Seq<char>, b: Seq<char>)
    requires
        a.len() == b.len(),
        a.len() >= 2,
        a[a.len() - 1] == 'Z',
        b[b.len() - 1] == 'Z',
        text_le(a, b),
    ensures
        text_le(without_last_but_one(a), without_last_but_one(b)),
{
    let n = a.len();
    let ra = without_last_but_one(a);
    let rb = without_last_but_one(b);
    if a == b {
    } else if a.len() < b.len() && a == b.take(a.len() as int) {
    } else {
        let p = choose|p: int|
            0 <= p < a.len() && p < b.len() && a.take(p) == b.take(p) && (a[p] as u32) < (
            #[trigger] b[p] as u32);
        assert(p != n - 1);
        if p < n - 2 {
            assert(ra.take(p) =~= a.take(p));
            assert(rb.take(p) =~= b.take(p));
            assert(ra[p] == a[p]);
            assert(rb[p] == b[p]);
            assert(0 <= p < ra.len() && p < rb.len() && ra.take(p) == rb.take(p) && (ra[p] as u32) < (
            #[trigger] rb[p] as u32));
        } else {
            assert forall|i: int| 0 <= i < ra.len() implies ra[i] == rb[i] by {
                if i < p {
                    assert(a.take(p)[i] == b.take(p)[i]);
                }
            }
            assert(ra =~= rb);
        }
    }
}

/// Turns a timestamp with milliseconds (`YYYY-MM-DDTHH:mm:ss.sssZ`) into the
/// protocol's form with hundredths (`YYYY-MM-DDTHH:mm:ss.ssZ`) by dropping
/// the last fractional digit, the last-but-one character.
pub fn timestamp_in_hundredths(text: &str) -> (r: String)
    ensures
        r@ == without_last_but_one(text@),
{
    let n = text.unicode_len();
    if n < 2 {
        return String::from_str(text);
    }
    let head = text.substring_char(0, n - 2);
    let tail = text.substring_char(n - 1, n);
    String::from_str(head).concat(tail)
}

/// The protocol timestamp (`YYYY-MM-DDTHH:mm:ss.ssZ`, UTC) of the time `secs`
/// seconds and `nanos` nanoseconds after the Unix epoch; `None` where chrono
/// cannot represent that time. Every year up to 9999 gives a timestamp.
pub fn timestamp_at(secs: u64, nanos: u32) -> (r: Option<String>)
    ensures
        r matches Some(t) ==> secs <= i64::MAX && t@ == without_last_but_one(
            utc_millis_text(secs as i64, nanos),
        ) && has_hundredths_tail(t@),
        secs <= 253402300799 && nanos < 1_000_000_000 ==> r is Some,
{
    if secs > i64::MAX as u64 {
        return None;
    }
    match format_utc_millis(secs as i64, nanos) {
        Some(text) => {
            proof {
                lemma_millis_to_hundredths(text@);
            }
            Some(timestamp_in_hundredths(text.as_str()))
        },
        None => None,
    }
}

/// The time read from the system clock, as seconds and the nanoseconds
/// beyond them since the Unix epoch; `None` where the clock reads a time
/// before the epoch.
pub fn clock_since_unix_epoch() -> (r: Option<(u64, u32)>)
    ensures
        r matches Some(p) ==> p.1 < 1_000_000_000,
{
    since_unix_epoch(&system_now())
}

/// `t` is the protocol timestamp of some time at or after the Unix epoch:
/// chrono's text for it with the last millisecond digit dropped, which ends
/// in `'.'`, two digits and `'Z'`.
pub open spec fn is_protocol_timestamp(t: Seq<char>) -> bool {
    &&& has_hundredths_tail(t)
    &&& exists|secs: i64, nanos: u32|
        0 <= secs && nanos < 1_000_000_000 && t == without_last_but_one(
            #[trigger] utc_millis_text(secs, nanos),
        )
}

/// The current time in UTC as a protocol timestamp (`YYYY-MM-DDTHH:mm:ss.ssZ`,
/// ISO 8601); `None` where the clock reads a time before the Unix epoch or
/// beyond chrono's range.
pub fn get_timestamp() -> (r: Option<String>)
    ensures
        r matches Some(t) ==> is_protocol_timestamp(t@),
{
    match clock_since_unix_epoch() {
        Some((secs, nanos)) => {
            let r = timestamp_at(secs, nanos);
            proof {
                if r is Some {
                    let s = secs as i64;
                    assert(r->Some_0@ == without_last_but_one(utc_millis_text(s, nanos)));
                }
            }
            r
        },
        None => None,
    }
}

/// The current time in whole seconds since the Unix epoch; `None` where the
/// clock reads a time before the epoch or too late for 64-bit seconds.
pub fn unix_seconds_now() -> (r: Option<i64>)
    ensures
        r matches Some(s) ==> s >= 0,
{
    match clock_since_unix_epoch() {
        Some((secs, _)) => if secs <= i64::MAX as u64 {
            Some(secs as i64)
        } else {
            None
        },
        None => None,
    }
}

/// The decimal digit `d`.
pub open spec fn digit_char(d: nat) -> char {
    if d == 0 {
        '0'
    } else if d == 1 {
        '1'
    } else if d == 2 {
        '2'
    } else if d == 3 {
        '3'
    } else if d == 4 {
        '4'
    } else if d == 5 {
        '5'
    } else if d == 6 {
        '6'
    } else if d == 7 {
        '7'
    } else if d == 8 {
        '8'
    } else {
        '9'
    }
}

/// The decimal writing of `n`, without leading zeros.
pub open spec fn decimal(n: nat) -> Seq<char>
    decreases n,
{
    if n < 10 {
        seq![digit_char(n)]
    } else {
        decimal(n / 10).push(digit_char(n % 10))
    }
}

/// Appends the digit `d` to `s`.
fn push_digit(s: &mut String, d: u64)
    requires
        d < 10,
    ensures
        final(s)@ == old(s)@.push(digit_char(d as nat)),
{
    let text = if d == 0 {
        "0"
    } else if d == 1 {
        "1"
    } else if d == 2 {
        "2"
    } else if d == 3 {
        "3"
    } else if d == 4 {
        "4"
    } else if d == 5 {
        "5"
    } else if d == 6 {
        "6"
    } else if d == 7 {
        "7"
    } else if d == 8 {
        "8"
    } else {
        "9"
    };
    proof {
        reveal_strlit("0");
        reveal_strlit("1");
        reveal_strlit("2");
        reveal_strlit("3");
        reveal_strlit("4");
        reveal_strlit("5");
        reveal_strlit("6");
        reveal_strlit("7");
        reveal_strlit("8");
        reveal_strlit("9");
    }
    s.append(text);
    assert(final(s)@ =~= old(s)@.push(digit_char(d as nat)));
}

/// Appends the decimal writing of `n` to `s`.
pub fn push_decimal(s: &mut String, n: u64)
    ensures
        final(s)@ == old(s)@ + decimal(n as nat),
    decreases n,
{
    if n >= 10 {
        push_decimal(s, n / 10);
        push_digit(s, n % 10);
        assert(final(s)@ =~= old(s)@ + decimal(n as nat));
    } else {
        push_digit(s, n);
        assert(final(s)@ =~= old(s)@ + decimal(n as nat));
    }
}

}
