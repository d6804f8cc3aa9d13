//! Text that crosses the engine's boundary, and time in milliseconds.
use crate::error::{KafkaError, KafkaResult};
use std::time::{Duration, SystemTime};
use vstd::prelude::*;
use vstd::string::StringSliceAdditionalSpecFns;
use vstd::utf8::{decode_utf8, valid_utf8};

verus! {

/// `bytes` holds no zero byte.
pub open spec fn nul_free(bytes: Seq<u8>) -> bool {
    forall|i: int| 0 <= i < bytes.len() ==> bytes[i] != 0
}

/// The number of bytes of `buf` that stand before its first zero byte; all of them where it
/// holds none.
pub open spec fn c_str_len(buf: Seq<u8>) -> nat
    decreases buf.len(),
{
    if buf.len() == 0 || buf[0] == 0 {
        0
    } else {
        1 + c_str_len(buf.drop_first())
    }
}

/// The text that a buffer filled by the engine holds: what stands before the first zero byte.
pub open spec fn c_str_bytes(buf: Seq<u8>) -> Seq<u8> {
    buf.take(c_str_len(buf) as int)
}

/// `c_str_len` never passes the end of the buffer, no byte before it is zero, and where it
/// stops short of the end it stops at a zero byte.
pub proof fn lemma_c_str_len(buf: Seq<u8>)
    ensures
        c_str_len(buf) <= buf.len(),
        forall|i: int| 0 <= i < c_str_len(buf) ==> buf[i] != 0,
        c_str_len(buf) < buf.len() ==> buf[c_str_len(buf) as int] == 0,
        nul_free(c_str_bytes(buf)),
    decreases buf.len(),
{
    if buf.len() == 0 || buf[0] == 0 {
    } else {
        let rest = buf.drop_first();
        lemma_c_str_len(rest);
        assert forall|i: int| 0 <= i < c_str_len(buf) implies buf[i] != 0 by {
            if i > 0 {
                assert(buf[i] == rest[i - 1]);
            }
        }
        if c_str_len(buf) < buf.len() {
            assert(buf[c_str_len(buf) as int] == rest[c_str_len(rest) as int]);
        }
    }
}

/// A position that no zero byte precedes, and that is the end of the buffer or holds a zero
/// byte, is `c_str_len`.
pub proof fn lemma_c_str_len_unique(buf: Seq<u8>, n: int)
    requires
        0 <= n <= buf.len(),
        forall|i: int| 0 <= i < n ==> buf[i] != 0,
        n < buf.len() ==> buf[n] == 0,
    ensures
        c_str_len(buf) == n,
    decreases buf.len(),
{
    if buf.len() == 0 || buf[0] == 0 {
    } else {
        let rest = buf.drop_first();
        assert forall|i: int| 0 <= i < n - 1 implies rest[i] != 0 by {
            assert(rest[i] == buf[i + 1]);
        }
        if n < buf.len() {
            assert(rest[n - 1] == buf[n]);
        }
        lemma_c_str_len_unique(rest, n - 1);
    }
}

/// A name without a zero byte, with the zero byte that ends it on the engine's side, is read
/// back as it was.
pub proof fn lemma_terminated_name_reads_back(name: Seq<u8>)
    requires
        nul_free(name),
    ensures
        c_str_bytes(name.push(0)) == name,
{
    lemma_c_str_len_unique(name.push(0), name.len() as int);
    assert(name.push(0).take(name.len() as int) =~= name);
}

/// The position of the first zero byte of `bytes`, if it holds one.
pub fn find_nul(bytes: &[u8]) -> (pos: Option<usize>)
    ensures
        pos matches Some(p) ==> p == c_str_len(bytes@) && p < bytes@.len() && bytes@[p as int] == 0,
        pos is None <==> nul_free(bytes@),
{
    let mut i: usize = 0;
    while i < bytes.len()
        invariant
            i <= bytes@.len(),
            forall|j: int| 0 <= j < i ==> bytes@[j] != 0,
        decreases bytes@.len() - i,
    {
        if bytes[i] == 0 {
            proof {
                lemma_c_str_len_unique(bytes@, i as int);
            }
            return Some(i);
        }
        i += 1;
    }
    None
}

/// The part of a buffer filled by the engine that holds its text: what stands before the
/// first zero byte, and the whole buffer where there is none.
pub fn until_nul(buf: &[u8]) -> (text: &[u8])
    ensures
        text@ == c_str_bytes(buf@),
{
    match find_nul(buf) {
        Some(end) => vstd::slice::slice_subrange(buf, 0, end),
        None => {
            proof {
                lemma_c_str_len_unique(buf@, buf@.len() as int);
                assert(buf@.take(buf@.len() as int) =~= buf@);
            }
            buf
        },
    }
}

/// A name in the form in which the engine takes it: its bytes, none of them zero. The zero
/// byte that ends it on the engine's side is not among them.
#[derive(Debug, PartialEq, Eq)]
pub struct NativeString {
    bytes: Vec<u8>,
}

impl View for NativeString {
    type V = Seq<u8>;

    closed spec fn view(&self) -> Seq<u8> {
        self.bytes@
    }
}

impl NativeString {
    #[verifier::type_invariant]
    spec fn well_formed(self) -> bool {
        nul_free(self.bytes@)
    }

    /// Takes `text` as a name for the engine, unless it holds a zero byte: the error then
    /// gives the position of the first one among the bytes of `text`.
    pub fn new(text: &str) -> (made: KafkaResult<NativeString>)
        ensures
            nul_free(text.spec_bytes()) ==> (made matches Ok(name) && name@ == text.spec_bytes()),
            !nul_free(text.spec_bytes()) ==> made == Err::<NativeString, KafkaError>(
                KafkaError::Nul(c_str_len(text.spec_bytes()) as usize),
            ),
    {
        let bytes = text.as_bytes();
        match find_nul(bytes) {
            Some(pos) => Err(KafkaError::Nul(pos)),
            None => Ok(NativeString { bytes: vstd::slice::slice_to_vec(bytes) }),
        }
    }

    /// The bytes of the name.
    pub fn as_bytes(&self) -> (bytes: &[u8])
        ensures
            bytes@ == self@,
            nul_free(bytes@),
    {
        proof {
            use_type_invariant(self);
        }
        self.bytes.as_slice()
    }
}

/// What `String::from_utf8_lossy` makes of a run of bytes.
pub uninterp spec fn utf8_lossy(bytes: Seq<u8>) -> Seq<char>;

/// Reads bytes as text, putting the replacement character in place of what is not UTF-8.
///
/// Trusted: the body calls `String::from_utf8_lossy`. The contract names its result, and says
/// what the documentation says of bytes that are valid UTF-8: they are read as they stand.
#[verifier::external_body]
pub(crate) fn string_from_utf8_lossy(bytes: &[u8]) -> (text: String)
    ensures
        text@ == utf8_lossy(bytes@),
        valid_utf8(bytes@) ==> text@ == decode_utf8(bytes@),
{
    String::from_utf8_lossy(bytes).into_owned()
}

/// What `str::trim` leaves of a text.
pub uninterp spec fn trimmed(text: Seq<char>) -> Seq<char>;

/// Takes the white space off both ends of a text.
///
/// Trusted: the body calls `str::trim`. The contract gives its result a name and claims no
/// more.
#[verifier::external_body]
pub(crate) fn str_trim(text: &str) -> (rest: &str)
    ensures
        rest@ == trimmed(text@),
{
    text.trim()
}

/// The text that the engine left in `bytes_cstr`: the bytes before the first zero byte, read
/// as UTF-8 with the replacement character in place of what is not. Bytes that are valid
/// UTF-8 are read as they stand.
pub fn bytes_cstr_to_owned(bytes_cstr: &[u8]) -> (text: String)
    ensures
        text@ == utf8_lossy(c_str_bytes(bytes_cstr@)),
        valid_utf8(c_str_bytes(bytes_cstr@)) ==> text@ == decode_utf8(c_str_bytes(bytes_cstr@)),
{
    string_from_utf8_lossy(until_nul(bytes_cstr))
}

/// The whole milliseconds in `secs` seconds and `subsec_nanos` nanoseconds.
pub open spec fn millis_of(secs: u64, subsec_nanos: u32) -> int {
    secs * 1000 + subsec_nanos / 1_000_000
}

/// The whole milliseconds in `secs` seconds and `subsec_nanos` nanoseconds as a `u64`:
/// `u64::MAX` where they are more than a `u64` holds.
pub open spec fn saturated_millis(secs: u64, subsec_nanos: u32) -> u64 {
    if millis_of(secs, subsec_nanos) <= u64::MAX {
        millis_of(secs, subsec_nanos) as u64
    } else {
        u64::MAX
    }
}

/// The whole milliseconds in `secs` seconds and `subsec_nanos` nanoseconds, and `u64::MAX`
/// where they are more than a `u64` holds.
pub fn millis_from_parts(secs: u64, subsec_nanos: u32) -> (millis: u64)
    ensures
        millis == saturated_millis(secs, subsec_nanos),
{
    let fraction: u64 = (subsec_nanos / 1_000_000) as u64;
    match secs.checked_mul(1000) {
        Some(whole) => match whole.checked_add(fraction) {
            Some(millis) => millis,
            None => u64::MAX,
        },
        None => u64::MAX,
    }
}

/// The seconds of a duration.
///
/// Trusted: the body calls `Duration::as_secs`; nothing is claimed of the result.
#[verifier::external_body]
fn duration_secs(duration: &Duration) -> (secs: u64) {
    duration.as_secs()
}

/// The part of a duration below one second, in nanoseconds.
///
/// Trusted: the body calls `Duration::subsec_nanos`, whose documentation says that the result
/// is less than one billion.
#[verifier::external_body]
fn duration_subsec_nanos(duration: &Duration) -> (nanos: u32)
    ensures
        nanos < 1_000_000_000,
{
    duration.subsec_nanos()
}

/// The time from the Unix epoch to `time`, and `None` where `time` is before the epoch.
///
/// Trusted: the body calls `SystemTime::duration_since` with `std::time::UNIX_EPOCH`; nothing
/// is claimed of the result.
#[verifier::external_body]
fn since_unix_epoch(time: &SystemTime) -> (elapsed: Option<Duration>) {
    match time.duration_since(std::time::UNIX_EPOCH) {
        Ok(elapsed) => Some(elapsed),
        Err(_) => None,
    }
}

/// The time of the system's clock.
///
/// Trusted: the body calls `SystemTime::now`; nothing is claimed of the result.
#[verifier::external_body]
fn system_time_now() -> (now: SystemTime) {
    SystemTime::now()
}

/// `secs` is what `Duration::as_secs` has returned for `duration`.
pub closed spec fn as_secs_returned(duration: Duration, secs: u64) -> bool {
    call_ensures(duration_secs, (&duration,), secs)
}

/// `nanos` is what `Duration::subsec_nanos` has returned for `duration`.
pub closed spec fn subsec_nanos_returned(duration: Duration, nanos: u32) -> bool {
    call_ensures(duration_subsec_nanos, (&duration,), nanos)
}

/// `elapsed` is what `SystemTime::duration_since` has returned for `time` and the Unix
/// epoch: the time from the epoch to `time`, and `None` where `time` is before the epoch.
pub closed spec fn since_unix_epoch_returned(time: SystemTime, elapsed: Option<Duration>) -> bool {
    call_ensures(since_unix_epoch, (&time,), elapsed)
}

/// `time` is what `SystemTime::now` has returned.
pub closed spec fn now_returned(time: SystemTime) -> bool {
    call_ensures(system_time_now, (), time)
}

/// Asks the system's clock for the time.
pub(crate) fn current_time() -> (time: SystemTime)
    ensures
        now_returned(time),
{
    system_time_now()
}

/// `millis` is the length of `duration` in whole milliseconds: what [`saturated_millis`]
/// makes of the seconds of the duration and of its nanoseconds below one second.
pub open spec fn is_millis_of(duration: Duration, millis: u64) -> bool {
    exists|secs: u64, nanos: u32|
        #[trigger] as_secs_returned(duration, secs) && #[trigger] subsec_nanos_returned(
            duration,
            nanos,
        ) && millis == saturated_millis(secs, nanos)
}

/// Converts a duration to whole milliseconds, and to `u64::MAX` where they are more than a
/// `u64` holds.
pub fn duration_to_millis(duration: Duration) -> (millis: u64)
    ensures
        is_millis_of(duration, millis),
{
    let secs = duration_secs(&duration);
    let nanos = duration_subsec_nanos(&duration);
    assert(as_secs_returned(duration, secs) && subsec_nanos_returned(duration, nanos));
    millis_from_parts(secs, nanos)
}

/// The milliseconds since the Unix epoch that `elapsed` stands for: zero where the time was
/// before the epoch, and `i64::MAX` where they are more than an `i64` holds.
pub open spec fn epoch_millis_of(elapsed: Option<u64>) -> i64 {
    match elapsed {
        None => 0,
        Some(millis) => if millis <= i64::MAX {
            millis as i64
        } else {
            i64::MAX
        },
    }
}

/// Turns the milliseconds elapsed since the Unix epoch, `None` standing for a time before it,
/// into a signed count.
pub fn epoch_millis(elapsed: Option<u64>) -> (millis: i64)
    ensures
        millis == epoch_millis_of(elapsed),
{
    match elapsed {
        None => 0,
        Some(millis) => if millis <= i64::MAX as u64 {
            millis as i64
        } else {
            i64::MAX
        },
    }
}

/// `millis` is `time` in milliseconds since the Unix epoch: zero where `time` is before the
/// epoch, and else what [`epoch_millis_of`] makes of the length, in whole milliseconds, of
/// the time from the epoch to `time`.
pub open spec fn is_epoch_millis_of(time: SystemTime, millis: i64) -> bool {
    exists|elapsed: Option<Duration>| #[trigger]
        since_unix_epoch_returned(time, elapsed) && match elapsed {
            None => millis == epoch_millis_of(None),
            Some(duration) => exists|length: u64| #[trigger]
                is_millis_of(duration, length) && millis == epoch_millis_of(Some(length)),
        }
}

/// Converts a system time to milliseconds since the Unix epoch: zero for a time before the
/// epoch, never negative.
pub fn millis_to_epoch(time: SystemTime) -> (millis: i64)
    ensures
        is_epoch_millis_of(time, millis),
        millis >= 0,
{
    let elapsed = since_unix_epoch(&time);
    assert(since_unix_epoch_returned(time, elapsed));
    match elapsed {
        Some(duration) => {
            let length = duration_to_millis(duration);
            epoch_millis(Some(length))
        },
        None => epoch_millis(None),
    }
}

/// The system's time type, carried through as it is.
#[verifier::external_type_specification]
#[verifier::external_body]
pub struct ExSystemTime(SystemTime);

} // verus!
