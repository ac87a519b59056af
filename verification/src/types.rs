//! Common types shared by the systems built on this core: identifiers,
//! timestamps, version numbers, lifecycle and health states.

use vstd::prelude::*;

use crate::rng::GovernorRng;
use crate::text::{dec_u64, hex32_u128, spec_dec, spec_is_hex_char};

verus! {

/// Unique identifier: an owned string key.
#[derive(Debug, Clone, PartialEq, Eq, Hash)]
pub struct Id(String);

impl Id {
    /// The characters of the identifier.
    pub closed spec fn view(self) -> Seq<char> {
        self.0@
    }

    /// Create an ID from a string.
    pub fn new(id: &str) -> (r: Id)
        ensures
            r@ == id@,
    {
        Id(id.to_owned())
    }

    /// Generate a random ID: 32 lower-case hexadecimal characters drawn from
    /// a non-deterministic source.
    pub fn generate() -> (r: Id)
        ensures
            r@.len() == 32,
            forall|i: int| 0 <= i < 32 ==> spec_is_hex_char(#[trigger] r@[i]),
    {
        let mut rng = GovernorRng::new_random();
        let a = rng.next_u32();
        let b = rng.next_u32();
        let c = rng.next_u32();
        let d = rng.next_u32();
        let value: u128 = (a as u128) | ((b as u128) << 32) | ((c as u128) << 64) | ((
        d as u128) << 96);
        let text = hex32_u128(value);
        proof {
            crate::text::lemma_hex32_chars(value);
        }
        Id(text)
    }

    /// The ID as a string slice.
    pub fn as_str(&self) -> (r: &str)
        ensures
            r@ == self@,
    {
        self.0.as_str()
    }
}

/// Timestamp in milliseconds since the Unix epoch.
#[derive(Debug, Clone, Copy, PartialEq, Eq, PartialOrd, Ord)]
pub struct Timestamp(u64);

/// Relies on std's `SystemTime::now`: the milliseconds since the Unix epoch,
/// or 0 if the system clock reads earlier than the epoch. The value depends
/// on the environment, so nothing is assumed of it.
#[verifier::external_body]
fn system_millis_now() -> u64 {
    match std::time::SystemTime::now().duration_since(std::time::UNIX_EPOCH) {
        Ok(elapsed) => elapsed.as_millis() as u64,
        Err(_) => 0,
    }
}

impl Timestamp {
    /// The milliseconds the timestamp holds.
    pub closed spec fn spec_millis(self) -> u64 {
        self.0
    }

    /// Create a timestamp from milliseconds since the Unix epoch.
    pub fn from_millis(millis: u64) -> (r: Timestamp)
        ensures
            r.spec_millis() == millis,
    {
        Timestamp(millis)
    }

    /// The current time. If the system clock reads earlier than the Unix
    /// epoch (after a clock adjustment), this is 0 rather than a panic.
    pub fn now() -> Timestamp {
        Timestamp(system_millis_now())
    }

    /// The timestamp as milliseconds.
    pub fn as_millis(&self) -> (r: u64)
        ensures
            r == self.spec_millis(),
    {
        self.0
    }

    /// The timestamp as whole seconds.
    pub fn as_secs(&self) -> (r: u64)
        ensures
            r == self.spec_millis() / 1000,
    {
        self.0 / 1000
    }

    /// The timestamp rendered in decimal milliseconds.
    pub fn describe(&self) -> (r: String)
        ensures
            r@ == spec_dec(self.spec_millis() as int),
    {
        dec_u64(self.0)
    }
}

/// Whether a character is a decimal digit.
pub open spec fn spec_is_digit(c: char) -> bool {
    48 <= c as int && c as int <= 57
}

/// The numeric value of a decimal digit character.
pub open spec fn spec_digit_val(c: char) -> int {
    c as int - 48
}

/// Whether every character of a sequence is a decimal digit.
pub open spec fn spec_all_digits(s: Seq<char>) -> bool {
    forall|i: int| 0 <= i < s.len() ==> spec_is_digit(#[trigger] s[i])
}

/// The numeric value of a sequence of decimal digits, most significant
/// first.
pub open spec fn spec_digits_val(s: Seq<char>) -> int
    decreases s.len(),
{
    if s.len() == 0 {
        0
    } else {
        spec_digits_val(s.drop_last()) * 10 + spec_digit_val(s.last())
    }
}

/// The digit part of an unsigned number literal: everything after an
/// optional leading plus sign.
pub open spec fn spec_unsigned_digits(s: Seq<char>) -> Seq<char> {
    if s.len() >= 1 && s[0] == '+' {
        s.skip(1)
    } else {
        s
    }
}

/// Whether a plain digit sequence (no sign) parses as a `u32`: at least one
/// decimal digit, with a value that fits in 32 bits.
pub open spec fn spec_u32_parseable_digits(d: Seq<char>) -> bool {
    &&& d.len() >= 1
    &&& spec_all_digits(d)
    &&& spec_digits_val(d) <= u32::MAX
}

/// Whether a sequence of characters parses as a `u32`, the way the standard
/// number parser reads it: an optional leading plus sign, then at least one
/// decimal digit, with a value that fits in 32 bits.
pub open spec fn spec_u32_parseable(s: Seq<char>) -> bool {
    spec_u32_parseable_digits(spec_unsigned_digits(s))
}

/// The value such a sequence parses to.
pub open spec fn spec_u32_value(s: Seq<char>) -> int {
    spec_digits_val(spec_unsigned_digits(s))
}

/// The value of a digit sequence is non-negative.
proof fn lemma_digits_val_nonneg(s: Seq<char>)
    requires
        spec_all_digits(s),
    ensures
        spec_digits_val(s) >= 0,
    decreases s.len(),
{
    if s.len() > 0 {
        assert(spec_all_digits(s.drop_last()));
        lemma_digits_val_nonneg(s.drop_last());
    }
}

/// Extending a digit sequence on the right never shrinks its value.
proof fn lemma_digits_val_prefix(s: Seq<char>, k: int)
    requires
        0 <= k <= s.len(),
        spec_all_digits(s),
    ensures
        spec_digits_val(s.take(k)) <= spec_digits_val(s),
    decreases s.len() - k,
{
    if k == s.len() {
        assert(s.take(k) =~= s);
    } else {
        lemma_digits_val_prefix(s, k + 1);
        let t = s.take(k + 1);
        assert(t.drop_last() =~= s.take(k));
        assert(spec_all_digits(s.take(k)));
        lemma_digits_val_nonneg(s.take(k));
        assert(t.last() == s[k]);
    }
}

/// Index of the first `'.'` at or after `from`, or the sequence's length if
/// there is none.
pub open spec fn spec_find_dot(s: Seq<char>, from: int) -> int
    decreases s.len() - from,
{
    if from < 0 || from >= s.len() {
        s.len() as int
    } else if s[from] == '.' {
        from
    } else {
        spec_find_dot(s, from + 1)
    }
}

/// Find the first `'.'` at or after `from`.
fn find_dot(s: &str, len: usize, from: usize) -> (r: usize)
    requires
        len == s@.len(),
        from <= len,
    ensures
        r == spec_find_dot(s@, from as int),
        from <= r <= len,
{
    let mut i = from;
    while i < len
        invariant
            len == s@.len(),
            from <= i <= len,
            spec_find_dot(s@, from as int) == spec_find_dot(s@, i as int),
        decreases len - i,
    {
        let c = s.get_char(i);
        if c == '.' {
            assert(spec_find_dot(s@, i as int) == i);
            return i;
        }
        assert(spec_find_dot(s@, i as int) == spec_find_dot(s@, i + 1 as int));
        i = i + 1;
    }
    assert(spec_find_dot(s@, i as int) == s@.len());
    i
}

/// Parse the characters `from..to` of `s` as a `u32`: an optional leading
/// plus sign, then at least one decimal digit, with a value that fits.
fn parse_u32_range(s: &str, len: usize, from: usize, to: usize) -> (r: Option<u32>)
    requires
        len == s@.len(),
        from <= to <= len,
    ensures
        r is Some <==> spec_u32_parseable(s@.subrange(from as int, to as int)),
        r matches Some(v) ==> v as int == spec_u32_value(s@.subrange(from as int, to as int)),
{
    let ghost seg = s@.subrange(from as int, to as int);
    let mut start = from;
    if from < to && s.get_char(from) == '+' {
        start = from + 1;
    }
    let ghost digits = spec_unsigned_digits(seg);
    proof {
        assert(digits =~= s@.subrange(start as int, to as int));
    }
    if start == to {
        // No digits at all: not a number.
        return None;
    }
    let mut acc: u32 = 0;
    let mut i = start;
    while i < to
        invariant
            len == s@.len(),
            from <= start <= i <= to <= len,
            digits == spec_unsigned_digits(s@.subrange(from as int, to as int)),
            digits =~= s@.subrange(start as int, to as int),
            spec_all_digits(s@.subrange(start as int, i as int)),
            acc as int == spec_digits_val(s@.subrange(start as int, i as int)),
        decreases to - i,
    {
        let c = s.get_char(i);
        let code = c as u32;
        if code < 48 || code > 57 {
            proof {
                assert(digits[i - start] == s@[i as int]);
                assert(!spec_all_digits(digits));
            }
            return None;
        }
        let d = code - 48;
        let ghost prefix = s@.subrange(start as int, i as int);
        let ghost extended = s@.subrange(start as int, i + 1 as int);
        proof {
            assert(extended =~= prefix.push(s@[i as int]));
            assert(extended.drop_last() =~= prefix);
            assert(spec_digits_val(extended) == acc * 10 + d);
        }
        let scaled = match acc.checked_mul(10) {
            Some(m) => m,
            None => {
                proof {
                    overflow_means_unparseable(digits, extended, i + 1 - start);
                }
                return None;
            },
        };
        acc = match scaled.checked_add(d) {
            Some(n) => n,
            None => {
                proof {
                    overflow_means_unparseable(digits, extended, i + 1 - start);
                }
                return None;
            },
        };
        i = i + 1;
    }
    proof {
        assert(digits =~= s@.subrange(start as int, i as int));
    }
    Some(acc)
}

/// If some prefix of the digit part already exceeds the 32-bit range, the
/// whole sequence cannot parse as a `u32`.
proof fn overflow_means_unparseable(digits: Seq<char>, prefix: Seq<char>, k: int)
    requires
        0 <= k <= digits.len(),
        prefix =~= digits.take(k),
        spec_digits_val(prefix) > u32::MAX,
    ensures
        !spec_u32_parseable_digits(digits),
{
    if spec_all_digits(digits) {
        lemma_digits_val_prefix(digits, k);
    }
}

/// Version number with major, minor and patch components.
#[derive(Debug, Clone, PartialEq, Eq, PartialOrd, Ord, Hash)]
pub struct Version {
    /// Major version.
    pub major: u32,
    /// Minor version.
    pub minor: u32,
    /// Patch version.
    pub patch: u32,
}

/// Whether a string parses as a version: exactly three dot-separated parts,
/// each an unsigned 32-bit number.
pub open spec fn spec_version_parseable(s: Seq<char>) -> bool {
    let d1 = spec_find_dot(s, 0);
    let d2 = spec_find_dot(s, d1 + 1);
    &&& d1 < s.len()
    &&& d2 < s.len()
    &&& spec_find_dot(s, d2 + 1) == s.len()
    &&& spec_u32_parseable(s.subrange(0, d1))
    &&& spec_u32_parseable(s.subrange(d1 + 1, d2))
    &&& spec_u32_parseable(s.subrange(d2 + 1, s.len() as int))
}

/// The version such a string parses to.
pub open spec fn spec_version_value(s: Seq<char>) -> Version {
    let d1 = spec_find_dot(s, 0);
    let d2 = spec_find_dot(s, d1 + 1);
    Version {
        major: spec_u32_value(s.subrange(0, d1)) as u32,
        minor: spec_u32_value(s.subrange(d1 + 1, d2)) as u32,
        patch: spec_u32_value(s.subrange(d2 + 1, s.len() as int)) as u32,
    }
}

impl Version {
    /// Create a version from its three components.
    pub fn new(major: u32, minor: u32, patch: u32) -> (v: Version)
        ensures
            v == (Version { major, minor, patch }),
    {
        Version { major, minor, patch }
    }

    /// Parse a version from a string such as `"1.2.3"`: exactly three
    /// dot-separated parts, each an unsigned 32-bit number.
    pub fn parse(s: &str) -> (r: Option<Version>)
        ensures
            r is Some <==> spec_version_parseable(s@),
            r matches Some(v) ==> v == spec_version_value(s@),
    {
        let len = s.unicode_len();
        let d1 = find_dot(s, len, 0);
        if d1 == len {
            return None;
        }
        let d2 = find_dot(s, len, d1 + 1);
        if d2 == len {
            return None;
        }
        let d3 = find_dot(s, len, d2 + 1);
        if d3 != len {
            return None;
        }
        let major = match parse_u32_range(s, len, 0, d1) {
            Some(v) => v,
            None => {
                return None;
            },
        };
        let minor = match parse_u32_range(s, len, d1 + 1, d2) {
            Some(v) => v,
            None => {
                return None;
            },
        };
        let patch = match parse_u32_range(s, len, d2 + 1, len) {
            Some(v) => v,
            None => {
                return None;
            },
        };
        Some(Version { major, minor, patch })
    }

    /// The version rendered as its three components with dots between.
    pub fn describe(&self) -> (r: String)
        ensures
            r@ == spec_dec(self.major as int) + "."@ + spec_dec(self.minor as int) + "."@
                + spec_dec(self.patch as int),
    {
        let mut t = dec_u64(self.major as u64);
        t.append(".");
        let minor_text = dec_u64(self.minor as u64);
        t.append(minor_text.as_str());
        t.append(".");
        let patch_text = dec_u64(self.patch as u64);
        t.append(patch_text.as_str());
        proof {
            assert(t@ =~= spec_dec(self.major as int) + "."@ + spec_dec(self.minor as int) + "."@
                + spec_dec(self.patch as int));
        }
        t
    }
}

/// Lifecycle state for stateful systems. Initial state `Ready`-bound
/// systems start at `Initializing`; there is no terminal state.
#[derive(Debug, Clone, Copy, PartialEq, Eq)]
pub enum LifecycleState {
    /// The system is initializing.
    Initializing,
    /// The system is ready to accept requests.
    Ready,
    /// The system is running normally.
    Running,
    /// The system is paused.
    Paused,
    /// The system is shutting down.
    ShuttingDown,
    /// The system has shut down.
    Stopped,
    /// The system is in an error state.
    Error,
}

impl LifecycleState {
    /// The state's display name.
    pub fn describe(&self) -> (r: &'static str)
        ensures
            r@ == (match *self {
                LifecycleState::Initializing => "initializing"@,
                LifecycleState::Ready => "ready"@,
                LifecycleState::Running => "running"@,
                LifecycleState::Paused => "paused"@,
                LifecycleState::ShuttingDown => "shutting_down"@,
                LifecycleState::Stopped => "stopped"@,
                LifecycleState::Error => "error"@,
            }),
    {
        match self {
            LifecycleState::Initializing => "initializing",
            LifecycleState::Ready => "ready",
            LifecycleState::Running => "running",
            LifecycleState::Paused => "paused",
            LifecycleState::ShuttingDown => "shutting_down",
            LifecycleState::Stopped => "stopped",
            LifecycleState::Error => "error",
        }
    }
}

/// Health check status.
#[derive(Debug, Clone, PartialEq, Eq)]
pub enum HealthStatus {
    /// The system is healthy.
    Healthy,
    /// The system is degraded but operational.
    Degraded {
        /// Why the system is degraded.
        reason: String,
    },
    /// The system is unhealthy.
    Unhealthy {
        /// Why the system is unhealthy.
        reason: String,
    },
}

impl HealthStatus {
    /// The status as display text, with the reason where there is one.
    pub fn describe(&self) -> (r: String)
        ensures
            *self is Healthy ==> r@ == "healthy"@,
            *self matches HealthStatus::Degraded { reason } ==> r@ == "degraded: "@ + reason@,
            *self matches HealthStatus::Unhealthy { reason } ==> r@ == "unhealthy: "@ + reason@,
    {
        match self {
            HealthStatus::Healthy => "healthy".to_owned(),
            HealthStatus::Degraded { reason } => {
                let mut t = "degraded: ".to_owned();
                t.append(reason.as_str());
                t
            },
            HealthStatus::Unhealthy { reason } => {
                let mut t = "unhealthy: ".to_owned();
                t.append(reason.as_str());
                t
            },
        }
    }
}

} // verus!
