use fixture_gen::utils::numeric_or_default;
use fixture_gen::{
    apply_builder, create_closure, DataBuilder, FloatDraw, FloatKind, GeneratedValue,
    TypeIdentifier,
};
use rand::{Rng, SeedableRng};
use rand_chacha::ChaCha8Rng;

fn seeded(seed: u64) -> ChaCha8Rng {
    ChaCha8Rng::seed_from_u64(seed)
}

#[test]
fn builder_of_16_bit_integers() {
    assert_eq!(
        create_closure(TypeIdentifier::Int16),
        DataBuilder::Int16 { low: 10, high: 1000 }
    );
}

#[test]
fn builder_of_64_bit_float_arrays() {
    assert_eq!(
        create_closure(TypeIdentifier::Float64Array),
        DataBuilder::Floats(FloatDraw {
            kind: FloatKind::DoubleArray,
            count: 1024,
            low: -1,
            high: 1
        })
    );
}

#[test]
fn every_other_type_has_the_empty_builder() {
    for type_id in vec![
        TypeIdentifier::Int32,
        TypeIdentifier::Int64,
        TypeIdentifier::Float32,
        TypeIdentifier::Float64,
        TypeIdentifier::Float32Array,
        TypeIdentifier::Boolean,
        TypeIdentifier::Numeric,
        TypeIdentifier::Text,
        TypeIdentifier::Varchar,
        TypeIdentifier::Bpchar,
        TypeIdentifier::Date,
        TypeIdentifier::Time,
        TypeIdentifier::Timestamp,
        TypeIdentifier::Uuid,
        TypeIdentifier::Unsupported,
    ] {
        assert_eq!(create_closure(type_id), DataBuilder::Nothing);
    }
}

#[test]
fn created_builders_are_well_formed() {
    assert!(create_closure(TypeIdentifier::Int16).is_well_formed());
    assert!(create_closure(TypeIdentifier::Float64Array).is_well_formed());
    assert!(create_closure(TypeIdentifier::Text).is_well_formed());
}

#[test]
fn well_formedness_of_builders() {
    assert!(DataBuilder::Int16 { low: 0, high: 1 }.is_well_formed());
    assert!(!DataBuilder::Int16 { low: 1, high: 1 }.is_well_formed());
    assert!(!DataBuilder::Int16 { low: 2, high: 1 }.is_well_formed());
    assert!(DataBuilder::Int16 { low: i16::MIN, high: i16::MAX }.is_well_formed());
    assert!(DataBuilder::Nothing.is_well_formed());
    let draw = FloatDraw { kind: FloatKind::Double, count: 1, low: -1, high: 1 };
    assert!(DataBuilder::Floats(draw).is_well_formed());
    assert!(!DataBuilder::Floats(FloatDraw { count: 2, ..draw }).is_well_formed());
    assert!(!DataBuilder::Floats(FloatDraw { high: -1, ..draw }).is_well_formed());
}

#[test]
fn applied_integer_builder_is_the_draw_from_its_range() {
    let builder = create_closure(TypeIdentifier::Int16);
    for seed in 0u64..500 {
        let mut rng = seeded(seed);
        let mut reference = seeded(seed);
        let expected: i16 = reference.gen_range(10..1000);
        assert_eq!(apply_builder(builder, &mut rng), Some(GeneratedValue::Int16(expected)));
        assert!(10 <= expected && expected < 1000);
        assert_eq!(rng, reference);
    }
}

#[test]
fn applied_integer_builder_with_a_fixed_seed() {
    let builder = create_closure(TypeIdentifier::Int16);
    assert_eq!(apply_builder(builder, &mut seeded(42)), Some(GeneratedValue::Int16(231)));
    assert_eq!(apply_builder(builder, &mut seeded(7)), Some(GeneratedValue::Int16(148)));
}

#[test]
fn a_builder_is_applied_many_times() {
    let builder = create_closure(TypeIdentifier::Int16);
    let mut rng = seeded(13);
    let mut reference = seeded(13);
    for _round in 0..1000 {
        let expected: i16 = reference.gen_range(10..1000);
        assert_eq!(apply_builder(builder, &mut rng), Some(GeneratedValue::Int16(expected)));
    }
    assert_eq!(rng, reference);
}

#[test]
fn applied_integer_builder_keeps_a_narrow_range() {
    let builder = DataBuilder::Int16 { low: -3, high: -2 };
    let mut rng = seeded(1);
    for _round in 0..100 {
        assert_eq!(apply_builder(builder, &mut rng), Some(GeneratedValue::Int16(-3)));
    }
    let builder = DataBuilder::Int16 { low: i16::MAX - 1, high: i16::MAX };
    assert_eq!(apply_builder(builder, &mut rng), Some(GeneratedValue::Int16(i16::MAX - 1)));
}

#[test]
fn applied_float_builder_hands_the_draw_on() {
    let builder = create_closure(TypeIdentifier::Float64Array);
    let mut rng = seeded(21);
    assert_eq!(
        apply_builder(builder, &mut rng),
        Some(GeneratedValue::Floats(FloatDraw {
            kind: FloatKind::DoubleArray,
            count: 1024,
            low: -1,
            high: 1
        }))
    );
    assert_eq!(rng, seeded(21));
}

#[test]
fn applied_empty_builder_gives_no_value() {
    for type_id in vec![TypeIdentifier::Text, TypeIdentifier::Uuid, TypeIdentifier::Unsupported] {
        let mut rng = seeded(21);
        assert_eq!(apply_builder(create_closure(type_id), &mut rng), None);
        assert_eq!(rng, seeded(21));
    }
}

#[test]
fn applying_a_builder_is_deterministic() {
    for type_id in vec![
        TypeIdentifier::Int16,
        TypeIdentifier::Float64Array,
        TypeIdentifier::Date,
    ] {
        let builder = create_closure(type_id);
        let mut first = seeded(6);
        let mut second = seeded(6);
        for _round in 0..20 {
            assert_eq!(apply_builder(builder, &mut first), apply_builder(builder, &mut second));
        }
        assert_eq!(first, second);
    }
}

#[test]
fn failed_numeric_conversion_gives_the_default() {
    let failed: Result<i64, String> = Err(String::from("cannot convert"));
    assert_eq!(numeric_or_default(failed, 0), 0);
    let failed: Result<String, u8> = Err(1);
    assert_eq!(numeric_or_default(failed, String::from("0")), String::from("0"));
}

#[test]
fn successful_numeric_conversion_is_kept() {
    let converted: Result<i64, String> = Ok(-7);
    assert_eq!(numeric_or_default(converted, 0), -7);
    let converted: Result<String, u8> = Ok(String::from("9.25"));
    assert_eq!(numeric_or_default(converted, String::from("0")), String::from("9.25"));
}
