//! The boundary to the random number generator.
//!
//! All data is drawn from a `ChaCha8Rng`, a seeded generator whose output is
//! the key stream of the ChaCha cipher: what it puts out is fixed by its
//! seed, its stream number and its position in the stream, on every machine.
//! The contracts here say so by naming each draw's result as a function of
//! that state.
//!
//! Nothing in this file is proved. Each item states what the `rand`,
//! `rand_chacha` and `fake` crates do, and the rest of the library is
//! verified against these statements.

use fake::Fake;
use rand::Rng;
use rand_chacha::ChaCha8Rng;
use vstd::prelude::*;

verus! {

/// `rand_chacha::ChaCha8Rng`, the generator that all data is drawn from.
/// It is carried through as an opaque value.
#[verifier::external_type_specification]
#[verifier::external_body]
pub struct ExChaCha8Rng(ChaCha8Rng);

/// The abstract state of a ChaCha stream: the three values by which
/// `rand_chacha` compares two generators, and which alone determine
/// everything a generator puts out from then on.
pub struct StreamState {
    /// The 32 bytes of the seed.
    pub seed: Seq<u8>,
    /// The number of the stream.
    pub stream: u64,
    /// The offset from the start of the stream, in 32-bit words.
    pub word_pos: u128,
}

/// The abstract state of `rng`: what `get_seed`, `get_stream` and
/// `get_word_pos` report of it.
pub uninterp spec fn stream_state(rng: ChaCha8Rng) -> StreamState;

/// What `gen_range(low..high)` gives for a 16-bit integer on a generator in
/// `state`: the value drawn, and the state the generator is left in.
pub uninterp spec fn drawn_i16(state: StreamState, low: i16, high: i16) -> (i16, StreamState);

/// What `gen_range(low..high)` gives for a 32-bit integer on a generator in
/// `state`: the value drawn, and the state the generator is left in.
pub uninterp spec fn drawn_i32(state: StreamState, low: i32, high: i32) -> (i32, StreamState);

/// What `gen_range(low..=high)` gives for a 32-bit integer on a generator in
/// `state`: the value drawn, and the state the generator is left in.
pub uninterp spec fn drawn_i32_inclusive(state: StreamState, low: i32, high: i32) -> (
    i32,
    StreamState,
);

/// What `gen_range(low..high)` gives for a 64-bit integer on a generator in
/// `state`: the value drawn, and the state the generator is left in.
pub uninterp spec fn drawn_i64(state: StreamState, low: i64, high: i64) -> (i64, StreamState);

/// What `fake` gives for a `String` asked from the range
/// `min_len..max_len` on a generator in `state`: the characters of the
/// text, and the state the generator is left in. The length is drawn as a
/// `usize`, for which `rand` consumes one word of the machine's width, so
/// the result depends on that width too: `word_bits`.
pub uninterp spec fn faked_text(state: StreamState, min_len: usize, max_len: usize, word_bits: u32) -> (
    Seq<char>,
    StreamState,
);

/// The characters that `rand`'s `Alphanumeric` distribution picks from.
pub open spec fn is_alphanumeric(c: char) -> bool {
    ||| 'A' <= c <= 'Z'
    ||| 'a' <= c <= 'z'
    ||| '0' <= c <= '9'
}

/// Calls `Rng::gen_range` with `low..high` on 16-bit integers.
///
/// Trusted: `gen_range` panics on an empty range and otherwise returns a
/// value of the range; the value and the generator's new state depend on
/// nothing but the generator's state and the two bounds.
#[verifier::external_body]
pub(crate) fn draw_i16(rng: &mut ChaCha8Rng, low: i16, high: i16) -> (value: i16)
    requires
        low < high,
    ensures
        low <= value < high,
        (value, stream_state(*final(rng))) == drawn_i16(stream_state(*old(rng)), low, high),
{
    rng.gen_range(low..high)
}

/// Calls `Rng::gen_range` with `low..high` on 32-bit integers.
///
/// Trusted: `gen_range` panics on an empty range and otherwise returns a
/// value of the range; the value and the generator's new state depend on
/// nothing but the generator's state and the two bounds.
#[verifier::external_body]
pub(crate) fn draw_i32(rng: &mut ChaCha8Rng, low: i32, high: i32) -> (value: i32)
    requires
        low < high,
    ensures
        low <= value < high,
        (value, stream_state(*final(rng))) == drawn_i32(stream_state(*old(rng)), low, high),
{
    rng.gen_range(low..high)
}

/// Calls `Rng::gen_range` with `low..=high` on 32-bit integers.
///
/// Trusted: `gen_range` panics on an empty range and otherwise returns a
/// value of the range, both bounds included; the value and the generator's
/// new state depend on nothing but the generator's state and the two bounds.
#[verifier::external_body]
pub(crate) fn draw_i32_inclusive(rng: &mut ChaCha8Rng, low: i32, high: i32) -> (value: i32)
    requires
        low <= high,
    ensures
        low <= value <= high,
        (value, stream_state(*final(rng))) == drawn_i32_inclusive(
            stream_state(*old(rng)),
            low,
            high,
        ),
{
    rng.gen_range(low..=high)
}

/// Calls `Rng::gen_range` with `low..high` on 64-bit integers.
///
/// Trusted: `gen_range` panics on an empty range and otherwise returns a
/// value of the range; the value and the generator's new state depend on
/// nothing but the generator's state and the two bounds.
#[verifier::external_body]
pub(crate) fn draw_i64(rng: &mut ChaCha8Rng, low: i64, high: i64) -> (value: i64)
    requires
        low < high,
    ensures
        low <= value < high,
        (value, stream_state(*final(rng))) == drawn_i64(stream_state(*old(rng)), low, high),
{
    rng.gen_range(low..high)
}

/// Calls `Fake::fake_with_rng` on `min_len..max_len` for a `String`.
///
/// Trusted: `fake` draws a length with `gen_range(min_len..max_len)`, which
/// panics on an empty range, and then collects that many characters of
/// `rand`'s `Alphanumeric` distribution; the text and the generator's new
/// state depend on nothing but the generator's state, the two bounds and the
/// width of `usize`.
#[verifier::external_body]
pub(crate) fn fake_text(rng: &mut ChaCha8Rng, min_len: usize, max_len: usize) -> (text: String)
    requires
        min_len < max_len,
    ensures
        min_len <= text@.len() < max_len,
        forall|i: int| 0 <= i < text@.len() ==> is_alphanumeric(#[trigger] text@[i]),
        (text@, stream_state(*final(rng))) == faked_text(
            stream_state(*old(rng)),
            min_len,
            max_len,
            usize::BITS,
        ),
{
    (min_len..max_len).fake_with_rng::<String, ChaCha8Rng>(rng)
}

} // verus!
