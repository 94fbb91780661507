//! The seeded pseudo-random source that fills a grid.
//!
//! The generator is `random::Xorshift128Plus`, held by value: the `random`
//! crate's default source is a handle to one generator that a whole thread
//! shares, so what it hands out next depends on who else has read from it.
//! The algorithm is not restated here: the module names the generator's state
//! and what one read does to it, and everything above is proved for whatever
//! those names stand for.

use vstd::prelude::*;

verus! {

/// The generator of the `random` crate, opaque to the verifier.
#[verifier::external_type_specification]
#[verifier::external_body]
pub struct ExXorshift128Plus(random::Xorshift128Plus);

/// The two words of state that a generator holds.
pub uninterp spec fn generator_state(source: random::Xorshift128Plus) -> (u64, u64);

/// What one read of a generator in state `(s0, s1)` gives: the value read,
/// then the two words of the state it leaves behind.
pub uninterp spec fn xorshift_read(s0: u64, s1: u64) -> (u64, u64, u64);

/// The value that a generator in state `state` hands out next.
pub open spec fn output_of(state: (u64, u64)) -> u64 {
    xorshift_read(state.0, state.1).0
}

/// The state that follows `state` after one read.
pub open spec fn successor_of(state: (u64, u64)) -> (u64, u64) {
    (xorshift_read(state.0, state.1).1, xorshift_read(state.0, state.1).2)
}

/// The state of a generator that started in `state` and was read `n` times.
pub open spec fn state_after(state: (u64, u64), n: nat) -> (u64, u64)
    decreases n,
{
    if n == 0 {
        state
    } else {
        successor_of(state_after(state, (n - 1) as nat))
    }
}

/// The value of the read with index `i`, counted from zero, of a generator
/// that started in `state`.
pub open spec fn drawn(state: (u64, u64), i: nat) -> u64 {
    output_of(state_after(state, i))
}

/// The least value read that makes a cell alive. A read `v` stands for the
/// fraction `v / u64::MAX`, and a cell lives where that fraction is nearer to
/// one than to zero. The fraction is taken in double precision, which rounds
/// the last 512 values below the midpoint up to it.
pub const ALIVE_FROM: u64 = 9223372036854775296;

/// Whether a value read from the generator makes a cell alive.
pub open spec fn coin(value: u64) -> bool {
    value >= ALIVE_FROM
}

/// The cells that `n` reads of a generator starting in `state` give.
pub open spec fn random_cells(state: (u64, u64), n: nat) -> Seq<bool> {
    Seq::new(n, |i: int| coin(drawn(state, i as nat)))
}

/// Calls `random::Xorshift128Plus::new`, which stores the two seed words as
/// the generator's state. The crate asserts that the seed is not all zero, so
/// such a seed is left out.
#[verifier::external_body]
pub(crate) fn seeded(s0: u64, s1: u64) -> (source: random::Xorshift128Plus)
    requires
        s0 != 0 || s1 != 0,
    ensures
        generator_state(source) == (s0, s1),
{
    random::Xorshift128Plus::new([s0, s1])
}

/// Calls `random::Source::read_u64` on the generator. The value and the new
/// state depend on the old state alone; the contract names both and says no
/// more of them.
#[verifier::external_body]
pub(crate) fn read_word(source: &mut random::Xorshift128Plus) -> (value: u64)
    ensures
        value == xorshift_read(generator_state(*old(source)).0, generator_state(*old(source)).1).0,
        generator_state(*final(source)).0
            == xorshift_read(generator_state(*old(source)).0, generator_state(*old(source)).1).1,
        generator_state(*final(source)).1
            == xorshift_read(generator_state(*old(source)).0, generator_state(*old(source)).1).2,
{
    random::Source::read_u64(source)
}

/// Makes a generator from a seed of two words. A seed that is all zero is
/// not a state of the generator and gives `None`.
pub fn source_from_seed(s0: u64, s1: u64) -> (made: Option<random::Xorshift128Plus>)
    ensures
        made is Some <==> (s0 != 0 || s1 != 0),
        made is Some ==> generator_state(made->Some_0) == (s0, s1),
{
    if s0 != 0 || s1 != 0 {
        Some(seeded(s0, s1))
    } else {
        None
    }
}

/// Turns a value read from the generator into a cell.
pub fn flip(value: u64) -> (alive: bool)
    ensures
        alive == coin(value),
{
    value >= ALIVE_FROM
}

/// Reads one cell from the generator.
pub fn read_cell(source: &mut random::Xorshift128Plus) -> (alive: bool)
    ensures
        alive == coin(output_of(generator_state(*old(source)))),
        generator_state(*final(source)) == successor_of(generator_state(*old(source))),
{
    let value: u64 = read_word(source);
    flip(value)
}

} // verus!
