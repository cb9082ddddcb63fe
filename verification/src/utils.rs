//! Generation of one value for a column type.

use crate::rng::{
    draw_i16, draw_i32, draw_i32_inclusive, draw_i64, drawn_i16, drawn_i32, drawn_i32_inclusive,
    drawn_i64, fake_text, faked_text, is_alphanumeric, stream_state, StreamState,
};
use crate::type_id::{TypeIdentifier, TIMESTAMP_OID, UUID_OID};
use crate::value::{view_of, FloatDraw, FloatKind, GeneratedValue, ValueView};
use rand_chacha::ChaCha8Rng;
use vstd::prelude::*;

verus! {

/// Lower bound of the 32-bit and 64-bit integers; twice that of the 16-bit ones.
pub const MIN_INT: i16 = 10;

/// Upper bound of the 16-bit and 32-bit integers; half that of the 64-bit ones.
pub const MAX_INT: i16 = 1000;

/// Least length of a text, in characters.
pub const MIN_TEXT_LEN: usize = 10;

/// Bound on the length of a text, in characters; no text reaches it.
pub const MAX_TEXT_LEN: usize = 29;

/// Number of elements of a floating-point array.
pub const ARRAY_LEN: usize = 1024;

/// Floating-point numbers are drawn from `[-FLOAT_FACTOR, FLOAT_FACTOR)`.
pub const FLOAT_FACTOR: i16 = 10;

/// Least day offset of a date.
pub const MIN_DATE_DAYS: i32 = 360;

/// Bound on the day offset of a date; no date reaches it.
pub const MAX_DATE_DAYS: i32 = 18000;

/// What one call yields.
pub struct Outcome {
    /// The value, if there is one.
    pub value: Option<ValueView>,
    /// The state in which the generator is left.
    pub state: StreamState,
}

/// The floating-point data of a column of the given kind.
pub open spec fn float_policy(kind: FloatKind) -> FloatDraw {
    FloatDraw {
        kind,
        count: if kind is SingleArray || kind is DoubleArray {
            1024
        } else {
            1
        },
        low: (-10) as i16,
        high: 10,
    }
}

/// The outcome of generating a value of type `type_id` on a generator in
/// state `state`.
///
/// Integers, booleans, texts and dates are drawn, and the generator moves
/// on. Floating-point data is described and left to the caller, a time is
/// the constant 02:10:20, and the remaining types have no value: for all of
/// these the generator stays where it is.
pub open spec fn generation(type_id: TypeIdentifier, state: StreamState) -> Outcome {
    match type_id {
        TypeIdentifier::Int16 => {
            let (v, next) = drawn_i16(state, 5, 1000);
            Outcome { value: Some(ValueView::Int16(v)), state: next }
        },
        TypeIdentifier::Int32 => {
            let (v, next) = drawn_i32(state, 10, 1000);
            Outcome { value: Some(ValueView::Int32(v)), state: next }
        },
        TypeIdentifier::Int64 => {
            let (v, next) = drawn_i64(state, 10, 2000);
            Outcome { value: Some(ValueView::Int64(v)), state: next }
        },
        TypeIdentifier::Float32 => Outcome {
            value: Some(ValueView::Floats(float_policy(FloatKind::Single))),
            state,
        },
        TypeIdentifier::Float64 => Outcome {
            value: Some(ValueView::Floats(float_policy(FloatKind::Double))),
            state,
        },
        TypeIdentifier::Float32Array => Outcome {
            value: Some(ValueView::Floats(float_policy(FloatKind::SingleArray))),
            state,
        },
        TypeIdentifier::Float64Array => Outcome {
            value: Some(ValueView::Floats(float_policy(FloatKind::DoubleArray))),
            state,
        },
        TypeIdentifier::Boolean => {
            let (v, next) = drawn_i32_inclusive(state, 0, 1);
            Outcome { value: Some(ValueView::Boolean(v != 0)), state: next }
        },
        TypeIdentifier::Numeric => Outcome {
            value: Some(ValueView::Floats(float_policy(FloatKind::Numeric))),
            state,
        },
        TypeIdentifier::Text | TypeIdentifier::Varchar | TypeIdentifier::Bpchar => {
            let (text, next) = faked_text(state, 10, 29, usize::BITS);
            Outcome { value: Some(ValueView::Text(text)), state: next }
        },
        TypeIdentifier::Date => {
            let (v, next) = drawn_i32(state, 360, 18000);
            Outcome { value: Some(ValueView::Date { pg_epoch_days: v }), state: next }
        },
        TypeIdentifier::Time => Outcome {
            value: Some(ValueView::Time { hour: 2, minute: 10, second: 20 }),
            state,
        },
        TypeIdentifier::Timestamp | TypeIdentifier::Uuid | TypeIdentifier::Unsupported => Outcome {
            value: None,
            state,
        },
    }
}

/// The bounds that every generated value keeps, whatever the generator's
/// state was.
pub open spec fn within_policy(value: ValueView) -> bool {
    match value {
        ValueView::Int16(v) => 5 <= v < 1000,
        ValueView::Int32(v) => 10 <= v < 1000,
        ValueView::Int64(v) => 10 <= v < 2000,
        ValueView::Boolean(_) => true,
        ValueView::Text(text) => {
            &&& 10 <= text.len() < 29
            &&& forall|i: int| 0 <= i < text.len() ==> is_alphanumeric(#[trigger] text[i])
        },
        ValueView::Date { pg_epoch_days } => 360 <= pg_epoch_days < 18000,
        ValueView::Time { hour, minute, second } => hour == 2 && minute == 10 && second == 20,
        ValueView::Floats(draw) => {
            &&& draw.well_formed()
            &&& draw.low == -10
            &&& draw.high == 10
            &&& draw.count == if draw.is_array() {
                1024int
            } else {
                1int
            }
        },
    }
}

/// Generates one value of the type `type_id`, drawing on `rng`.
///
/// The value and the state in which `rng` is left are those of
/// [`generation`]: they depend on the type and on the state of `rng` alone.
/// Every value keeps the bounds of [`within_policy`].
///
/// A time is not drawn: it is always 02:10:20. No value is generated for a
/// timestamp, a UUID or an unsupported type, and `rng` is then left as it
/// was.
pub fn generate_random_data_for_oid(type_id: TypeIdentifier, rng: &mut ChaCha8Rng) -> (result:
    Option<GeneratedValue>)
    ensures
        view_of(result) == generation(type_id, stream_state(*old(rng))).value,
        stream_state(*final(rng)) == generation(type_id, stream_state(*old(rng))).state,
        result is Some <==> type_id.is_supported(),
        result matches Some(value) ==> within_policy(value@),
{
    match type_id {
        TypeIdentifier::Int16 => Some(GeneratedValue::Int16(draw_i16(rng, MIN_INT / 2, MAX_INT))),
        TypeIdentifier::Int32 => Some(
            GeneratedValue::Int32(draw_i32(rng, MIN_INT as i32, MAX_INT as i32)),
        ),
        TypeIdentifier::Int64 => Some(
            GeneratedValue::Int64(draw_i64(rng, MIN_INT as i64, MAX_INT as i64 * 2)),
        ),
        TypeIdentifier::Float32 => Some(GeneratedValue::Floats(float_draw(FloatKind::Single))),
        TypeIdentifier::Float64 => Some(GeneratedValue::Floats(float_draw(FloatKind::Double))),
        TypeIdentifier::Float32Array => Some(
            GeneratedValue::Floats(float_draw(FloatKind::SingleArray)),
        ),
        TypeIdentifier::Float64Array => Some(
            GeneratedValue::Floats(float_draw(FloatKind::DoubleArray)),
        ),
        TypeIdentifier::Boolean => Some(GeneratedValue::from_coin(draw_i32_inclusive(rng, 0, 1))),
        TypeIdentifier::Numeric => Some(GeneratedValue::Floats(float_draw(FloatKind::Numeric))),
        TypeIdentifier::Text | TypeIdentifier::Varchar | TypeIdentifier::Bpchar => Some(
            GeneratedValue::Text(fake_text(rng, MIN_TEXT_LEN, MAX_TEXT_LEN)),
        ),
        TypeIdentifier::Date => Some(
            GeneratedValue::Date { pg_epoch_days: draw_i32(rng, MIN_DATE_DAYS, MAX_DATE_DAYS) },
        ),
        TypeIdentifier::Time => Some(GeneratedValue::Time { hour: 2, minute: 10, second: 20 }),
        TypeIdentifier::Timestamp => None,
        TypeIdentifier::Uuid => None,
        TypeIdentifier::Unsupported => None,
    }
}

/// Describes the floating-point data of a column of the given kind.
fn float_draw(kind: FloatKind) -> (draw: FloatDraw)
    ensures
        draw == float_policy(kind),
        draw.well_formed(),
{
    let count = match kind {
        FloatKind::SingleArray | FloatKind::DoubleArray => ARRAY_LEN,
        _ => 1,
    };
    FloatDraw { kind, count, low: -FLOAT_FACTOR, high: FLOAT_FACTOR }
}

/// A stored way of generating values: picked once for a type by
/// [`create_closure`], applied any number of times by [`apply_builder`].
#[derive(Clone, Copy, Debug, PartialEq, Eq, Hash, Structural)]
pub enum DataBuilder {
    /// A 16-bit integer drawn from `[low, high)`.
    Int16 { low: i16, high: i16 },
    /// Floating-point data, which the caller draws.
    Floats(FloatDraw),
    /// No value.
    Nothing,
}

impl DataBuilder {
    /// The builder can be applied: what it draws from is not empty.
    pub open spec fn well_formed(self) -> bool {
        match self {
            DataBuilder::Int16 { low, high } => low < high,
            DataBuilder::Floats(draw) => draw.well_formed(),
            DataBuilder::Nothing => true,
        }
    }

    /// Tells whether the builder can be applied.
    pub fn is_well_formed(&self) -> (ok: bool)
        ensures
            ok == self.well_formed(),
    {
        match self {
            DataBuilder::Int16 { low, high } => *low < *high,
            DataBuilder::Floats(draw) => draw.is_well_formed(),
            DataBuilder::Nothing => true,
        }
    }
}

/// The builder of each type: 16-bit integers from `[10, 1000)`, arrays of
/// 1024 64-bit floats from `[-1, 1)`, and nothing for any other type.
///
/// The builders know fewer types than [`generation`] does, and their ranges
/// are their own: [`generation`] draws 16-bit integers from `[5, 1000)` and
/// floats from `[-10, 10)`.
pub open spec fn builder_for(type_id: TypeIdentifier) -> DataBuilder {
    match type_id {
        TypeIdentifier::Int16 => DataBuilder::Int16 { low: 10, high: 1000 },
        TypeIdentifier::Float64Array => DataBuilder::Floats(
            FloatDraw { kind: FloatKind::DoubleArray, count: 1024, low: (-1) as i16, high: 1 },
        ),
        _ => DataBuilder::Nothing,
    }
}

/// The outcome of applying `builder` on a generator in state `state`.
pub open spec fn built(builder: DataBuilder, state: StreamState) -> Outcome {
    match builder {
        DataBuilder::Int16 { low, high } => {
            let (v, next) = drawn_i16(state, low, high);
            Outcome { value: Some(ValueView::Int16(v)), state: next }
        },
        DataBuilder::Floats(draw) => Outcome { value: Some(ValueView::Floats(draw)), state },
        DataBuilder::Nothing => Outcome { value: None, state },
    }
}

/// Picks the builder for the type `type_id`.
pub fn create_closure(type_id: TypeIdentifier) -> (builder: DataBuilder)
    ensures
        builder == builder_for(type_id),
        builder.well_formed(),
{
    match type_id {
        TypeIdentifier::Int16 => DataBuilder::Int16 { low: MIN_INT, high: MAX_INT },
        TypeIdentifier::Float64Array => DataBuilder::Floats(
            FloatDraw { kind: FloatKind::DoubleArray, count: ARRAY_LEN, low: -1, high: 1 },
        ),
        _ => DataBuilder::Nothing,
    }
}

/// Applies the builder `f` once, drawing on `rng`.
///
/// The value and the state in which `rng` is left are those of [`built`]:
/// they depend on the builder and on the state of `rng` alone. An integer
/// lies in the builder's range; floating-point data is handed on as the
/// builder describes it, with `rng` left as it was.
pub fn apply_builder(f: DataBuilder, rng: &mut ChaCha8Rng) -> (result: Option<GeneratedValue>)
    requires
        f.well_formed(),
    ensures
        view_of(result) == built(f, stream_state(*old(rng))).value,
        stream_state(*final(rng)) == built(f, stream_state(*old(rng))).state,
        result is None <==> f is Nothing,
        f matches DataBuilder::Int16 { low, high } ==> (result matches Some(
            GeneratedValue::Int16(v),
        ) && low <= v < high),
{
    match f {
        DataBuilder::Int16 { low, high } => Some(GeneratedValue::Int16(draw_i16(rng, low, high))),
        DataBuilder::Floats(draw) => Some(GeneratedValue::Floats(draw)),
        DataBuilder::Nothing => None,
    }
}

/// Settles what a numeric column receives once the number drawn for it has
/// been turned into a decimal: the decimal, or `default` where the
/// conversion failed. No failure is handed on.
pub fn numeric_or_default<D, E>(converted: Result<D, E>, default: D) -> (decimal: D)
    ensures
        decimal == match converted {
            Ok(d) => d,
            Err(_) => default,
        },
{
    match converted {
        Ok(d) => d,
        Err(_) => default,
    }
}

/// Whether the raw identifier `oid` is one of those that the table of known
/// types holds.
pub open spec fn is_recognized(oid: u32) -> bool {
    !(TypeIdentifier::of_oid(oid) is Unsupported)
}

/// Generation is deterministic: two generators in the same state yield the
/// same value for the same type, and are left in the same state.
pub proof fn lemma_generation_is_deterministic(
    type_id: TypeIdentifier,
    first: ChaCha8Rng,
    second: ChaCha8Rng,
)
    requires
        stream_state(first) == stream_state(second),
    ensures
        generation(type_id, stream_state(first)) == generation(type_id, stream_state(second)),
{
}

/// Applying a builder is deterministic: on two generators in the same state
/// one builder yields the same value, and leaves them in the same state.
pub proof fn lemma_building_is_deterministic(
    builder: DataBuilder,
    first: ChaCha8Rng,
    second: ChaCha8Rng,
)
    requires
        stream_state(first) == stream_state(second),
    ensures
        built(builder, stream_state(first)) == built(builder, stream_state(second)),
{
}

/// The identifiers of timestamps and of UUIDs, and every identifier that the
/// table of known types does not hold, yield no value and leave the
/// generator as it was.
pub proof fn lemma_unsupported_identifier_yields_nothing(oid: u32, state: StreamState)
    requires
        oid == TIMESTAMP_OID || oid == UUID_OID || !is_recognized(oid),
    ensures
        generation(TypeIdentifier::of_oid(oid), state) == (Outcome { value: None, state }),
{
}

} // verus!
