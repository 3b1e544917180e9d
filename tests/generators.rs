use unique_id::random::RandomGenerator;
use unique_id::sequence::{Counter, SequenceGenerator};
use unique_id::string::StringGenerator;
use unique_id::{Generator, GeneratorFromSeed, GeneratorFromStr, GeneratorWithInvalid};

#[test]
fn random_invalid_id_is_zero() {
    assert_eq!(RandomGenerator::invalid_id(), 0);
    assert_eq!(RandomGenerator::invalid_id(), RandomGenerator::invalid_id());
}

#[test]
fn random_ids_carry_version_and_variant() {
    let generator = RandomGenerator::default();
    for _ in 0..1000 {
        let id = generator.next_id();
        assert_eq!((id >> 76) & 0xf, 4);
        assert_eq!((id >> 62) & 0x3, 2);
        assert_ne!(id, RandomGenerator::invalid_id());
    }
}

#[test]
fn random_ids_differ() {
    let generator = RandomGenerator::default();
    let first = generator.next_id();
    let second = generator.next_id();
    assert_ne!(first, second);
}

#[test]
fn sequence_invalid_id_is_minus_one() {
    assert_eq!(SequenceGenerator::invalid_id(), -1);
    assert_eq!(SequenceGenerator::invalid_id(), SequenceGenerator::invalid_id());
}

#[test]
fn sequence_default_starts_at_one() {
    let generator = SequenceGenerator::default();
    assert_eq!(generator.next_id(), 1);
    assert_eq!(generator.next_id(), 2);
    assert_eq!(generator.next_id(), 3);
}

#[test]
fn sequence_seed_gives_first_values() {
    let generator = SequenceGenerator::new(42);
    assert_eq!(generator.next_id(), 42);
    assert_eq!(generator.next_id(), 43);
}

#[test]
fn sequence_seed_zero() {
    let generator = SequenceGenerator::new(0);
    assert_eq!(generator.next_id(), 0);
    assert_eq!(generator.next_id(), 1);
}

#[test]
fn sequence_clones_share_the_counter() {
    let generator = SequenceGenerator::new(10);
    let other = generator.clone();
    assert_eq!(generator.next_id(), 10);
    assert_eq!(other.next_id(), 11);
    assert_eq!(generator.next_id(), 12);
}

#[test]
fn sequence_values_strictly_increase() {
    let generator = SequenceGenerator::new(7);
    let other = generator.clone();
    let mut last = generator.next_id();
    for i in 0..1000 {
        let next = if i % 2 == 0 { other.next_id() } else { generator.next_id() };
        assert!(next > last);
        assert_eq!(next, last + 1);
        last = next;
    }
}

#[test]
fn sequence_validator_digits() {
    assert!(SequenceGenerator::is_valid_value("12345"));
    assert!(!SequenceGenerator::is_valid_value("12a45"));
    assert!(!SequenceGenerator::is_valid_value("-1"));
    assert!(!SequenceGenerator::is_valid_value("12 3"));
    assert!(!SequenceGenerator::is_valid_value("\u{663}"));
    assert!(SequenceGenerator::is_valid_value(""));
    assert!(SequenceGenerator::is_valid_value("0"));
}

#[test]
fn counter_issues_and_advances() {
    let mut counter = Counter::starting_at(5);
    assert_eq!(counter.next_value(), 5);
    assert_eq!(counter.issue(), 5);
    assert_eq!(counter.next_value(), 6);
    assert_eq!(counter.issue(), 6);
}

#[test]
fn counter_stops_at_largest_value() {
    let mut counter = Counter::starting_at(i64::MAX);
    assert_eq!(counter.issue(), i64::MAX);
    assert_eq!(counter.issue(), i64::MAX);
    assert!(counter.next_value() >= 0);
}

#[test]
fn string_invalid_id_is_empty() {
    assert_eq!(StringGenerator::invalid_id(), String::new());
    assert_eq!(StringGenerator::invalid_id(), StringGenerator::invalid_id());
}

#[test]
fn string_ids_have_fixed_form() {
    let generator = StringGenerator::default();
    for _ in 0..1000 {
        let id = generator.next_id();
        assert_eq!(id.chars().count(), 22);
        assert!(id
            .chars()
            .all(|c| c.is_ascii_alphanumeric() || c == '-' || c == '_'));
        assert!(StringGenerator::is_valid_value(&id));
        assert_ne!(id, StringGenerator::invalid_id());
    }
}

#[test]
fn string_validator_format() {
    assert!(!StringGenerator::is_valid_value(""));
    assert!(StringGenerator::is_valid_value("abc-123_XYZ"));
    assert!(!StringGenerator::is_valid_value("abc 123"));
    assert!(!StringGenerator::is_valid_value("abc+123"));
    assert!(!StringGenerator::is_valid_value("abc="));
    assert!(StringGenerator::is_valid_value("\u{e9}t\u{e9}"));
    assert!(StringGenerator::is_valid_value("-"));
}

#[test]
fn sequence_reseed_reaches_every_clone() {
    let generator = SequenceGenerator::new(5);
    let other = generator.clone();
    assert_eq!(generator.next_id(), 5);
    generator.reseed(100);
    assert_eq!(other.next_id(), 100);
    assert_eq!(generator.next_id(), 101);
}

#[test]
fn sequence_instances_from_new_are_independent() {
    let first = SequenceGenerator::new(3);
    let second = SequenceGenerator::new(50);
    assert_eq!(first.next_id(), 3);
    assert_eq!(second.next_id(), 50);
    assert_eq!(first.next_id(), 4);
}
