//! A single-process generator of time-ordered 128-bit identifiers.
//!
//! A [`Flaker`] holds a fixed 6-byte worker identifier, the millisecond
//! timestamp of the last identifier it produced, and a 16-bit sequence
//! counter.  Each identifier packs counter, worker identifier and timestamp
//! into one unsigned 128-bit value whose integer ordering is also a
//! time-then-sequence ordering: identifiers minted by one generator are
//! strictly increasing as long as the wall clock does not run backwards.

use vstd::prelude::*;

mod clock;

verus! {

/// The one recoverable failure: the sampled wall-clock time was strictly
/// earlier than the time recorded for the last generated identifier.
#[derive(Debug, PartialEq, Eq, Structural)]
pub enum FlakeError {
    ClockIsRunningBackwards,
}

/// Byte order in which the 6-byte worker identifier is presented at
/// construction.  Storage is normalized to little-endian order.
#[derive(PartialEq, Eq, Structural)]
pub enum Endianness {
    LittleEndian,
    BigEndian,
}

/// A generator instance: fixed worker identifier, timestamp of the last
/// generated identifier, and the sequence counter for that millisecond.
pub struct Flaker {
    identifier: [u8; 6],
    last_generated_time_ms: u64,
    counter: u16,
}

/// The mathematical state of a generator: the stored identifier bytes
/// (already normalized to little-endian order), the millisecond timestamp of
/// the last generated identifier, and the sequence counter.
#[verifier::ext_equal]
pub struct FlakerView {
    pub identifier: Seq<u8>,
    pub last_generated_time_ms: u64,
    pub counter: u16,
}

impl View for Flaker {
    type V = FlakerView;

    closed spec fn view(&self) -> FlakerView {
        FlakerView {
            identifier: self.identifier@,
            last_generated_time_ms: self.last_generated_time_ms,
            counter: self.counter,
        }
    }
}

/// The identifier bytes a generator stores for input bytes `id` presented in
/// byte order `endian`: the bytes themselves for little-endian input,
/// their reversal for big-endian input.
pub open spec fn stored_identifier(id: Seq<u8>, endian: Endianness) -> Seq<u8> {
    match endian {
        Endianness::LittleEndian => id,
        Endianness::BigEndian => id.reverse(),
    }
}

/// The little-endian integer value of the six stored identifier bytes.
pub open spec fn identifier_value(id: Seq<u8>) -> int
    recommends
        id.len() == 6,
{
    id[0] + id[1] * 0x100 + id[2] * 0x1_0000 + id[3] * 0x100_0000 + id[4] * 0x1_0000_0000 + id[5]
        * 0x100_0000_0000
}

/// The 128-bit identifier packed from a generator state, as an integer.
/// Byte 0 is least significant: bytes 0-1 hold the counter, bytes 2-7 the
/// stored identifier, bytes 8-15 the timestamp, each field little-endian.
pub open spec fn packed_id(f: FlakerView) -> int
    recommends
        f.identifier.len() == 6,
{
    f.counter + identifier_value(f.identifier) * 0x1_0000 + f.last_generated_time_ms
        * 0x1_0000_0000_0000_0000
}

/// A generation request at sampled time `now_ms` succeeds exactly when the
/// clock has not moved backwards since the last generated identifier.
pub open spec fn can_generate(f: FlakerView, now_ms: u64) -> bool {
    now_ms >= f.last_generated_time_ms
}

/// The counter after a successful generation at `now_ms`: reset to zero when
/// the millisecond advanced, incremented (wrapping at 16 bits) when the call
/// falls in the same millisecond as the previous one.
pub open spec fn next_counter(f: FlakerView, now_ms: u64) -> u16 {
    if now_ms > f.last_generated_time_ms {
        0u16
    } else if f.counter == 0xFFFFu16 {
        0u16
    } else {
        (f.counter + 1) as u16
    }
}

/// The milliseconds-since-epoch reading derived from a clock sample of
/// `secs` whole seconds and `nanos` fractional nanoseconds: seconds times
/// 1000 plus the whole milliseconds of the fraction.  A reading too far in
/// the future for 64 bits of milliseconds saturates; the real clock never
/// comes near that bound.
pub open spec fn millis_of_duration(secs: u64, nanos: u32) -> int
    recommends
        nanos < 1_000_000_000,
{
    if secs * 1000 + nanos / 1_000_000 <= u64::MAX {
        secs * 1000 + nanos / 1_000_000
    } else {
        u64::MAX as int
    }
}

/// The generator state after a successful generation at `now_ms`.
pub open spec fn advanced(f: FlakerView, now_ms: u64) -> FlakerView {
    FlakerView {
        identifier: f.identifier,
        last_generated_time_ms: now_ms,
        counter: next_counter(f, now_ms),
    }
}

impl Flaker {
    /// Returns a new generator whose last-generated time starts at `now_ms`,
    /// with the identifier normalized to little-endian storage order and the
    /// sequence counter at zero.
    pub fn new_at_time(identifier: [u8; 6], endian: Endianness, now_ms: u64) -> (f: Flaker)
        ensures
            f@ == (FlakerView {
                identifier: stored_identifier(identifier@, endian),
                last_generated_time_ms: now_ms,
                counter: 0u16,
            }),
    {
        let stored: [u8; 6] = match endian {
            Endianness::LittleEndian => identifier,
            Endianness::BigEndian => [
                identifier[5],
                identifier[4],
                identifier[3],
                identifier[2],
                identifier[1],
                identifier[0],
            ],
        };
        proof {
            assert(stored@ =~= stored_identifier(identifier@, endian));
        }
        Flaker { identifier: stored, last_generated_time_ms: now_ms, counter: 0 }
    }

    /// Returns a new generator for the given identifier, with the
    /// last-generated time initialized from the wall clock and the counter at
    /// zero.  A big-endian identifier is reversed into little-endian storage
    /// order.
    pub fn new(identifier: [u8; 6], endian: Endianness) -> (f: Flaker)
        ensures
            f@.identifier == stored_identifier(identifier@, endian),
            f@.counter == 0u16,
    {
        let now_ms: u64 = Flaker::current_time_in_ms();
        Flaker::new_at_time(identifier, endian, now_ms)
    }

    /// Returns a new generator from a 6-byte vector, assuming the bytes are
    /// presented in little-endian order.  Where possible, prefer the array
    /// form and use `new`.
    pub fn new_from_identifier(identifier: Vec<u8>) -> (f: Flaker)
        requires
            identifier@.len() == 6,
        ensures
            f@.identifier == identifier@,
            f@.counter == 0u16,
    {
        let a_identifier: [u8; 6] = [
            identifier[0],
            identifier[1],
            identifier[2],
            identifier[3],
            identifier[4],
            identifier[5],
        ];
        proof {
            assert(a_identifier@ =~= identifier@);
        }
        Flaker::new(a_identifier, Endianness::LittleEndian)
    }

    /// Returns the current Unix time in milliseconds: the wall clock's
    /// whole seconds times 1000 plus the whole milliseconds of its fractional
    /// second.  A clock reading before the epoch contributes the magnitude of
    /// its offset.  Nothing can be stated about the value itself: the rest of
    /// the library takes it as an argument and is proved for every reading.
    fn current_time_in_ms() -> u64 {
        let now = clock::system_time_now();
        let since_epoch = match clock::duration_since_epoch(&now) {
            Ok(dur) => dur,
            Err(err) => clock::error_duration(&err),
        };
        let secs: u64 = clock::duration_as_secs(&since_epoch);
        let nanos: u32 = clock::duration_subsec_nanos(&since_epoch);
        Flaker::millis(secs, nanos)
    }

    /// Combines a sampled duration's parts into milliseconds, saturating at
    /// the largest 64-bit value.
    fn millis(secs: u64, nanos: u32) -> (r: u64)
        requires
            nanos < 1_000_000_000,
        ensures
            r as int == millis_of_duration(secs, nanos),
    {
        let total: u128 = secs as u128 * 1000 + (nanos / 1_000_000) as u128;
        if total <= u64::MAX as u128 {
            total as u64
        } else {
            u64::MAX
        }
    }

    /// Advances the internal state for a generation request at sampled time
    /// `now_ms`.  Rejects the request, leaving the state untouched, exactly
    /// when the clock has moved backwards; otherwise resets or increments the
    /// counter and records `now_ms`.  A counter that overflows its 16 bits
    /// within one millisecond wraps to zero, as the packing has no room for
    /// more; uniqueness is then the caller's burst-rate concern.
    fn update(&mut self, now_ms: u64) -> (r: Result<(), FlakeError>)
        ensures
            r is Ok <==> can_generate(old(self)@, now_ms),
            r is Ok ==> final(self)@ == advanced(old(self)@, now_ms),
            r is Err ==> final(self)@ == old(self)@ && r == Err::<(), FlakeError>(
                FlakeError::ClockIsRunningBackwards,
            ),
    {
        if self.last_generated_time_ms > now_ms {
            return Err(FlakeError::ClockIsRunningBackwards);
        }
        if self.last_generated_time_ms < now_ms {
            self.counter = 0;
        } else if self.counter == 0xFFFF {
            self.counter = 0;
        } else {
            self.counter = self.counter + 1;
        }
        self.last_generated_time_ms = now_ms;
        Ok(())
    }

    /// Packs the current state into the 128-bit identifier value: counter in
    /// the two least significant bytes, the six stored identifier bytes next,
    /// and the timestamp in the eight most significant bytes.
    fn construct_id(&self) -> (r: u128)
        ensures
            r as int == packed_id(self@),
    {
        let counter_part: u128 = self.counter as u128;
        let identifier_part: u128 = self.identifier[0] as u128 + self.identifier[1] as u128 * 0x100
            + self.identifier[2] as u128 * 0x1_0000 + self.identifier[3] as u128 * 0x100_0000
            + self.identifier[4] as u128 * 0x1_0000_0000 + self.identifier[5] as u128
            * 0x100_0000_0000;
        let time_part: u128 = self.last_generated_time_ms as u128;
        counter_part + identifier_part * 0x1_0000 + time_part * 0x1_0000_0000_0000_0000
    }

    /// Generates the next identifier as if the wall clock read `now_ms`
    /// milliseconds since the Unix epoch.  Fails, leaving the state
    /// untouched, exactly when `now_ms` lies before the time of the last
    /// generated identifier.
    pub fn get_id_at_time(&mut self, now_ms: u64) -> (r: Result<u128, FlakeError>)
        ensures
            r is Ok <==> can_generate(old(self)@, now_ms),
            r is Ok ==> final(self)@ == advanced(old(self)@, now_ms) && r->Ok_0 as int == packed_id(
                final(self)@,
            ),
            r is Err ==> final(self)@ == old(self)@ && r == Err::<u128, FlakeError>(
                FlakeError::ClockIsRunningBackwards,
            ),
    {
        match self.update(now_ms) {
            Ok(()) => Ok(self.construct_id()),
            Err(e) => Err(e),
        }
    }

    /// Generates the next identifier from the current wall clock.  Fails,
    /// leaving the state untouched, exactly when the clock has run backwards
    /// past the time of the last generated identifier.  On success the new
    /// identifier exceeds the packed value of the previous state, provided
    /// the 16-bit counter did not wrap within one millisecond.
    pub fn get_id(&mut self) -> (r: Result<u128, FlakeError>)
        ensures
            r is Ok ==> can_generate(old(self)@, final(self)@.last_generated_time_ms) && final(
                self)@ == advanced(old(self)@, final(self)@.last_generated_time_ms) && r->Ok_0
                as int == packed_id(final(self)@),
            r is Err ==> final(self)@ == old(self)@ && r == Err::<u128, FlakeError>(
                FlakeError::ClockIsRunningBackwards,
            ),
            r is Ok && old(self)@.counter < 0xFFFFu16 ==> packed_id(final(self)@) > packed_id(
                old(self)@,
            ),
    {
        let now_ms: u64 = Flaker::current_time_in_ms();
        let ghost pre = self@;
        let r = self.get_id_at_time(now_ms);
        proof {
            if r is Ok && pre.counter < 0xFFFFu16 {
                lemma_generation_increases(pre, now_ms);
            }
        }
        r
    }
}

/// A single successful generation at time `now` yields an identifier
/// strictly greater than the packed value of the state before it, provided
/// the counter does not wrap within the same millisecond.
proof fn lemma_generation_increases(f: FlakerView, now: u64)
    requires
        can_generate(f, now),
        now == f.last_generated_time_ms ==> f.counter < 0xFFFFu16,
    ensures
        packed_id(advanced(f, now)) > packed_id(f),
{
}

/// Law: identifiers are monotonic over time.  After a successful generation
/// at time `t1`, a generation at any time `t2` no earlier than `t1` also
/// succeeds, and its identifier is strictly greater as a 128-bit integer —
/// except where both calls share one millisecond and the first left the
/// counter at its 16-bit maximum, so that the counter wraps to zero.
pub proof fn lemma_ids_strictly_increase(f: FlakerView, t1: u64, t2: u64)
    requires
        can_generate(f, t1),
        t1 <= t2,
        t2 == t1 ==> advanced(f, t1).counter < 0xFFFFu16,
    ensures
        can_generate(advanced(f, t1), t2),
        packed_id(advanced(advanced(f, t1), t2)) > packed_id(advanced(f, t1)),
{
    lemma_generation_increases(advanced(f, t1), t2);
}

/// Law: identifiers are monotonic within one millisecond.  Two generations
/// with the same sampled time yield strictly increasing identifiers, the
/// counter increment dominating the ordering, as long as the counter does
/// not wrap around its 16 bits.
pub proof fn lemma_same_millisecond_increases(f: FlakerView, t: u64)
    requires
        can_generate(f, t),
        advanced(f, t).counter < 0xFFFFu16,
    ensures
        packed_id(advanced(advanced(f, t), t)) > packed_id(advanced(f, t)),
{
    lemma_ids_strictly_increase(f, t, t);
}

/// The six bytes of a stored identifier are worth less than 48 bits.
proof fn lemma_identifier_value_bounds(id: Seq<u8>)
    requires
        id.len() == 6,
    ensures
        0 <= identifier_value(id) < 0x1_0000_0000_0000,
{
}

/// Law: the packing is layout-exact.  Each field of the generator state is
/// recoverable from its place in the 128-bit value — the counter from the two
/// least significant bytes, the stored identifier from the six bytes above
/// them, and the timestamp from the eight most significant bytes.
pub proof fn lemma_packed_fields(f: FlakerView)
    requires
        f.identifier.len() == 6,
    ensures
        packed_id(f) % 0x1_0000 == f.counter,
        (packed_id(f) / 0x1_0000) % 0x1_0000_0000_0000 == identifier_value(f.identifier),
        packed_id(f) / 0x1_0000_0000_0000_0000 == f.last_generated_time_ms,
{
    lemma_identifier_value_bounds(f.identifier);
    let c: int = f.counter as int;
    let i: int = identifier_value(f.identifier);
    let t: int = f.last_generated_time_ms as int;
    assert((c + i * 0x1_0000 + t * 0x1_0000_0000_0000_0000) % 0x1_0000 == c) by (nonlinear_arith)
        requires
            0 <= c < 0x1_0000,
            0 <= i,
            0 <= t,
    ;
    assert((c + i * 0x1_0000 + t * 0x1_0000_0000_0000_0000) / 0x1_0000 == i + t
        * 0x1_0000_0000_0000) by (nonlinear_arith)
        requires
            0 <= c < 0x1_0000,
            0 <= i,
            0 <= t,
    ;
    assert((i + t * 0x1_0000_0000_0000) % 0x1_0000_0000_0000 == i) by (nonlinear_arith)
        requires
            0 <= i < 0x1_0000_0000_0000,
            0 <= t,
    ;
    assert((c + i * 0x1_0000 + t * 0x1_0000_0000_0000_0000) / 0x1_0000_0000_0000_0000 == t)
        by (nonlinear_arith)
        requires
            0 <= c < 0x1_0000,
            0 <= i < 0x1_0000_0000_0000,
            0 <= t,
    ;
}

/// Law: endianness normalization round-trips.  Constructing with identifier
/// bytes presented big-endian stores the same identifier — and so packs the
/// same identifier bytes into every generated value — as constructing with
/// the reversed bytes presented little-endian.
pub proof fn lemma_endianness_round_trip(id: Seq<u8>, rev: Seq<u8>)
    requires
        id.len() == 6,
        rev.len() == 6,
        forall|i: int| 0 <= i < 6 ==> rev[i] == id[5 - i],
    ensures
        stored_identifier(id, Endianness::BigEndian) == stored_identifier(
            rev,
            Endianness::LittleEndian,
        ),
{
    assert(id.reverse() =~= rev);
}

} // verus!
