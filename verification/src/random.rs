//! Random integers for the host, drawn from the operating system's entropy.
//!
//! The 32-bit value is assembled here from four freshly read bytes. The 64-bit
//! value is drawn from a secure generator that the operating system has just
//! seeded. Either way a failure of the entropy source comes back as a value.

use rand::rngs::{OsRng, StdRng};
use rand::{Rng, SeedableRng};
use vstd::prelude::*;

verus! {

/// Why no random value could be produced.
#[derive(Clone, Copy, Debug, PartialEq, Eq, Structural)]
pub enum RandomError {
    /// The operating system's entropy source could not supply the bytes.
    EntropySourceFailure,
}

/// The error that `getrandom::getrandom` reports. Nothing in here looks inside
/// it.
#[verifier::external_type_specification]
#[verifier::external_body]
pub struct ExEntropyError(getrandom::Error);

/// The error that `SeedableRng::from_rng` reports. Nothing in here looks
/// inside it.
#[verifier::external_type_specification]
#[verifier::external_body]
pub struct ExSeedingError(rand::Error);

/// The secure generator of `rand`. It is carried from its seeding to the draw
/// and nothing in here looks inside it.
#[verifier::external_type_specification]
#[verifier::external_body]
pub struct ExSeededGenerator(StdRng);

/// The number that four bytes spell when the first is the most significant.
pub open spec fn big_endian_value(bytes: Seq<u8>) -> nat
    recommends
        bytes.len() == 4,
{
    (bytes[0] as nat) * 0x100_0000 + (bytes[1] as nat) * 0x1_0000 + (bytes[2] as nat) * 0x100
        + (bytes[3] as nat)
}

/// Every byte counts: four bytes that spell the same number are the same
/// four bytes, and the number fits 32 bits.
pub proof fn lemma_big_endian_value_keeps_every_byte(first: Seq<u8>, second: Seq<u8>)
    requires
        first.len() == 4,
        second.len() == 4,
    ensures
        big_endian_value(first) <= u32::MAX,
        big_endian_value(first) == big_endian_value(second) ==> first == second,
{
    if big_endian_value(first) == big_endian_value(second) {
        assert(first[0] == second[0]);
        assert(first =~= second);
    }
}

/// Assembles a 32-bit integer from four bytes, most significant first.
pub fn u32_from_big_endian(bytes: [u8; 4]) -> (value: u32)
    ensures
        value == big_endian_value(bytes@),
{
    let b0: u8 = bytes[0];
    let b1: u8 = bytes[1];
    let b2: u8 = bytes[2];
    let b3: u8 = bytes[3];
    let value: u32 = ((b0 as u32) << 24) | ((b1 as u32) << 16) | ((b2 as u32) << 8) | (b3
        as u32);
    assert(value == b0 * 0x100_0000 + b1 * 0x1_0000 + b2 * 0x100 + b3) by (bit_vector)
        requires
            value == ((b0 as u32) << 24) | ((b1 as u32) << 16) | ((b2 as u32) << 8) | (b3
                as u32),
    ;
    value
}

/// Turns the outcome of one read of the entropy source into the value handed
/// to the host.
///
/// `bytes` is the buffer after the read. A read that succeeded yields the
/// big-endian value of the four bytes. A read that failed, for whatever reason,
/// yields `EntropySourceFailure`, and the buffer is not looked at.
pub fn uint32_from_entropy(outcome: Result<(), getrandom::Error>, bytes: [u8; 4]) -> (r: Result<
    u32,
    RandomError,
>)
    ensures
        outcome is Ok ==> (r matches Ok(value) && value == big_endian_value(bytes@)),
        outcome is Err ==> r == Err::<u32, RandomError>(RandomError::EntropySourceFailure),
{
    match outcome {
        Ok(()) => Ok(u32_from_big_endian(bytes)),
        Err(_) => Err(RandomError::EntropySourceFailure),
    }
}

/// Calls `getrandom::getrandom` on the four bytes of `dest`.
///
/// The contract claims nothing. The bytes come from the operating system and
/// differ from call to call, and whether the read succeeds is the operating
/// system's to say; so the caller knows of `dest` and of the outcome only
/// their types.
#[verifier::external_body]
fn fill_from_entropy_source(dest: &mut [u8; 4]) -> (outcome: Result<(), getrandom::Error>) {
    getrandom::getrandom(dest)
}

/// Calls `SeedableRng::from_rng` for `StdRng` on `OsRng`: a new generator
/// whose seed is read from the operating system.
///
/// The contract claims nothing. Whether the seed can be read is the operating
/// system's to say, and the generator that comes back is opaque. The call
/// reports a failed read as `Err` and does not panic.
#[verifier::external_body]
fn seed_generator_from_entropy_source() -> (outcome: Result<StdRng, rand::Error>) {
    StdRng::from_rng(OsRng)
}

/// Calls `Rng::gen` for `u64` on `generator`: the next 64 bits of its stream.
///
/// The contract claims nothing: the value follows from a seed that nobody
/// here has seen. The call cannot fail and does not panic.
#[verifier::external_body]
fn draw_u64(generator: &mut StdRng) -> (value: u64) {
    generator.gen::<u64>()
}

/// Turns the outcome of seeding a generator and drawing from it into the
/// value handed to the host.
///
/// A draw yields its value unchanged. A seeding that failed, for whatever
/// reason, yields `EntropySourceFailure`.
pub fn u64_from_draw(outcome: Result<u64, rand::Error>) -> (r: Result<u64, RandomError>)
    ensures
        outcome matches Ok(value) ==> r == Ok::<u64, RandomError>(value),
        outcome is Err ==> r == Err::<u64, RandomError>(RandomError::EntropySourceFailure),
{
    match outcome {
        Ok(value) => Ok(value),
        Err(_) => Err(RandomError::EntropySourceFailure),
    }
}

/// A fresh 64-bit value from a secure generator seeded by the operating
/// system.
///
/// Every call seeds a generator of its own and draws once from it, so no call
/// depends on another. Where the entropy source cannot supply the seed the
/// result is `Err(EntropySourceFailure)`; the process goes on. Once the seed
/// is read the draw cannot fail.
pub fn get_secure_random_u64() -> (r: Result<u64, RandomError>)
    ensures
        r is Err ==> r == Err::<u64, RandomError>(RandomError::EntropySourceFailure),
{
    let outcome = match seed_generator_from_entropy_source() {
        Ok(mut generator) => Ok(draw_u64(&mut generator)),
        Err(failure) => Err(failure),
    };
    u64_from_draw(outcome)
}

/// A fresh 32-bit value made of four bytes of operating-system entropy, the
/// first byte read being the most significant.
///
/// Reads exactly four bytes. Where the entropy source cannot supply them the
/// result is `Err(EntropySourceFailure)`; the process goes on.
pub fn get_secure_random_uint32() -> (r: Result<u32, RandomError>)
    ensures
        r is Err ==> r == Err::<u32, RandomError>(RandomError::EntropySourceFailure),
{
    let mut bytes: [u8; 4] = [0u8; 4];
    let outcome = fill_from_entropy_source(&mut bytes);
    uint32_from_entropy(outcome, bytes)
}

} // verus!
