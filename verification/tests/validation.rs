//! The adapter: fast path, diagnostic path, and description rendering.

use jsonschema_custom_validation::custom_format::description;
use jsonschema_custom_validation::custom_format::CustomFormat;
use jsonschema_custom_validation::errors::error;
use jsonschema_custom_validation::errors::no_error;
use jsonschema_custom_validation::errors::ErrorKind;
use jsonschema_custom_validation::errors::ValidationError;
use jsonschema_custom_validation::formats::is_even_length_t;
use jsonschema_custom_validation::instance::Instance;
use jsonschema_custom_validation::paths::InstancePath;
use jsonschema_custom_validation::paths::PathChunk;
use jsonschema_custom_validation::validator::Validate;

fn sample_path() -> InstancePath {
    let mut path = InstancePath::new();
    path.push(PathChunk::Property("item".to_string()));
    path.push(PathChunk::Index(3));
    path
}

#[test]
fn even_length_scenario() {
    let f = is_even_length_t;
    let path = sample_path();

    let even = Instance::Str("ab".to_string());
    assert!(Validate::is_valid(&f, &even));
    let mut errs = Validate::validate(&f, &even, &path);
    assert!(errs.next().is_none());

    let odd = Instance::Str("abc".to_string());
    assert!(!Validate::is_valid(&f, &odd));
    let mut errs = Validate::validate(&f, &odd, &path);
    let err = errs.next().expect("one error");
    assert_eq!(err.kind, ErrorKind::Format("is_even_length".to_string()));
    assert_eq!(err.path, sample_path());
    assert_eq!(err.instance, Instance::Str("abc".to_string()));
    assert!(errs.next().is_none());

    let boolean = Instance::Bool(true);
    assert!(Validate::is_valid(&f, &boolean));
    let mut errs = Validate::validate(&f, &boolean, &path);
    assert!(errs.next().is_none());
}

#[test]
fn non_string_instances_always_pass() {
    let f = is_even_length_t;
    let path = InstancePath::new();
    let instances = vec![
        Instance::Null,
        Instance::Bool(false),
        Instance::Number("7".to_string()),
        Instance::Array(vec![Instance::Str("abc".to_string())]),
        Instance::Object(vec![("k".to_string(), Instance::Str("abc".to_string()))]),
    ];
    for instance in instances {
        assert!(Validate::is_valid(&f, &instance));
        let mut errs = Validate::validate(&f, &instance, &path);
        assert!(errs.next().is_none());
    }
}

#[test]
fn string_instances_follow_predicate() {
    let f = is_even_length_t;
    for s in ["", "a", "ab", "abc", "abcd", "odd?!"] {
        let direct = CustomFormat::is_valid(&f, s);
        let through_adapter = Validate::is_valid(&f, &Instance::Str(s.to_string()));
        assert_eq!(direct, through_adapter);
        assert_eq!(direct, s.chars().count() % 2 == 0);
    }
}

#[test]
fn failing_string_yields_exactly_one_error() {
    let f = is_even_length_t;
    let path = sample_path();
    let mut errs = Validate::validate(&f, &Instance::Str("xyz".to_string()), &path);
    let mut count: usize = 0;
    while let Some(err) = errs.next() {
        assert_eq!(err.kind, ErrorKind::Format("is_even_length".to_string()));
        assert_eq!(err.path, sample_path());
        count += 1;
    }
    assert_eq!(count, 1);
}

#[test]
fn description_matches_error_name() {
    let f = is_even_length_t;
    assert_eq!(description(&f), "format: is_even_length");
    assert_eq!(description(&f), format!("format: {}", CustomFormat::name(&f)));

    let mut errs = Validate::validate(
        &f,
        &Instance::Str("abc".to_string()),
        &InstancePath::new(),
    );
    let err = errs.next().expect("one error");
    let ErrorKind::Format(tag) = err.kind;
    assert_eq!(description(&f), format!("format: {}", tag));
}

#[test]
fn instance_string_query() {
    assert_eq!(Instance::Str("ab".to_string()).as_str(), Some("ab"));
    assert_eq!(Instance::Null.as_str(), None);
    assert_eq!(Instance::Bool(true).as_str(), None);
    assert_eq!(Instance::Number("2".to_string()).as_str(), None);
}

#[test]
fn error_sequence_helpers() {
    let mut empty = no_error();
    assert!(empty.next().is_none());

    let built = ValidationError::format(
        sample_path(),
        Instance::Str("abc".to_string()),
        "is_even_length",
    );
    let mut one = error(built);
    let err = one.next().expect("one error");
    assert_eq!(err.path, sample_path());
    assert_eq!(err.instance, Instance::Str("abc".to_string()));
    assert_eq!(err.kind, ErrorKind::Format("is_even_length".to_string()));
    assert!(one.next().is_none());
    assert!(one.next().is_none());
}
