//! What the generator hands back.

use vstd::prelude::*;

verus! {

/// Which floating-point data a [`FloatDraw`] asks for.
#[derive(Clone, Copy, Debug, PartialEq, Eq, Hash, Structural)]
pub enum FloatKind {
    /// One 32-bit float.
    Single,
    /// One 64-bit float.
    Double,
    /// A sequence of 32-bit floats.
    SingleArray,
    /// A sequence of 64-bit floats.
    DoubleArray,
    /// One 32-bit float, turned into an arbitrary-precision decimal; where
    /// that conversion fails, the decimal is zero.
    Numeric,
}

/// Floating-point data still to be drawn.
///
/// The library does no floating-point arithmetic. For a floating-point
/// column it fixes how many numbers are drawn and from which range, and
/// leaves the generator untouched; the caller draws `count` numbers, each
/// independently and uniformly from `[low, high)`, on the same generator.
#[derive(Clone, Copy, Debug, PartialEq, Eq, Hash, Structural)]
pub struct FloatDraw {
    /// What the numbers drawn become.
    pub kind: FloatKind,
    /// How many numbers are drawn.
    pub count: usize,
    /// The lower bound of the range, which belongs to it.
    pub low: i16,
    /// The upper bound of the range, which does not belong to it.
    pub high: i16,
}

impl FloatDraw {
    /// The range is not empty, and only an array has another count than one.
    pub open spec fn well_formed(self) -> bool {
        &&& self.low < self.high
        &&& self.is_array() || self.count == 1
    }

    /// Whether the numbers drawn form a sequence.
    pub open spec fn is_array(self) -> bool {
        self.kind is SingleArray || self.kind is DoubleArray
    }

    /// Tells whether the draw can be carried out as it stands.
    pub fn is_well_formed(&self) -> (ok: bool)
        ensures
            ok == self.well_formed(),
    {
        let array = match self.kind {
            FloatKind::SingleArray | FloatKind::DoubleArray => true,
            _ => false,
        };
        self.low < self.high && (array || self.count == 1)
    }
}

/// One generated value.
#[derive(Debug, PartialEq, Eq)]
pub enum GeneratedValue {
    /// A 16-bit integer.
    Int16(i16),
    /// A 32-bit integer.
    Int32(i32),
    /// A 64-bit integer.
    Int64(i64),
    /// A boolean.
    Boolean(bool),
    /// A text.
    Text(String),
    /// A calendar date, as the number of days since 2000-01-01.
    Date { pg_epoch_days: i32 },
    /// A time of day, in whole seconds.
    Time { hour: u8, minute: u8, second: u8 },
    /// Floating-point data, which the caller draws.
    Floats(FloatDraw),
}

/// A [`GeneratedValue`] as a mathematical value, variant by variant: a text
/// is the sequence of its characters, everything else is itself.
pub enum ValueView {
    /// A 16-bit integer.
    Int16(i16),
    /// A 32-bit integer.
    Int32(i32),
    /// A 64-bit integer.
    Int64(i64),
    /// A boolean.
    Boolean(bool),
    /// The characters of a text.
    Text(Seq<char>),
    /// A calendar date, as the number of days since 2000-01-01.
    Date { pg_epoch_days: i32 },
    /// A time of day, in whole seconds.
    Time { hour: u8, minute: u8, second: u8 },
    /// Floating-point data, which the caller draws.
    Floats(FloatDraw),
}

impl View for GeneratedValue {
    type V = ValueView;

    open spec fn view(&self) -> ValueView {
        match *self {
            GeneratedValue::Int16(v) => ValueView::Int16(v),
            GeneratedValue::Int32(v) => ValueView::Int32(v),
            GeneratedValue::Int64(v) => ValueView::Int64(v),
            GeneratedValue::Boolean(v) => ValueView::Boolean(v),
            GeneratedValue::Text(s) => ValueView::Text(s@),
            GeneratedValue::Date { pg_epoch_days } => ValueView::Date { pg_epoch_days },
            GeneratedValue::Time { hour, minute, second } => ValueView::Time {
                hour,
                minute,
                second,
            },
            GeneratedValue::Floats(draw) => ValueView::Floats(draw),
        }
    }
}

impl GeneratedValue {
    /// The boolean that a drawn integer stands for: zero is `false`, any
    /// other number is `true`.
    pub fn from_coin(draw: i32) -> (value: GeneratedValue)
        ensures
            value == GeneratedValue::Boolean(draw != 0),
    {
        GeneratedValue::Boolean(draw != 0)
    }
}

impl Clone for GeneratedValue {
    fn clone(&self) -> (copy: Self)
        ensures
            copy@ == self@,
    {
        match self {
            GeneratedValue::Int16(v) => GeneratedValue::Int16(*v),
            GeneratedValue::Int32(v) => GeneratedValue::Int32(*v),
            GeneratedValue::Int64(v) => GeneratedValue::Int64(*v),
            GeneratedValue::Boolean(v) => GeneratedValue::Boolean(*v),
            GeneratedValue::Text(s) => GeneratedValue::Text(s.clone()),
            GeneratedValue::Date { pg_epoch_days } => GeneratedValue::Date {
                pg_epoch_days: *pg_epoch_days,
            },
            GeneratedValue::Time { hour, minute, second } => GeneratedValue::Time {
                hour: *hour,
                minute: *minute,
                second: *second,
            },
            GeneratedValue::Floats(draw) => GeneratedValue::Floats(*draw),
        }
    }
}

/// The view of what a generating function returns.
pub open spec fn view_of(result: Option<GeneratedValue>) -> Option<ValueView> {
    match result {
        Some(value) => Some(value@),
        None => None,
    }
}

} // verus!
