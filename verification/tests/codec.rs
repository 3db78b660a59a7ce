use redis_bigint::bigint::BigInteger;
use redis_bigint::error::CommandError;
use redis_bigint::error::ErrorKind;
use redis_bigint::keyspace::KeySpace;
use redis_bigint::keyspace::Stored;
use redis_bigint::radix::check_radix;
use redis_bigint::radix::parse;

fn written(value: &BigInteger, radix: i64) -> String {
    match redis_bigint::radix::format(value, radix) {
        Ok(text) => text,
        Err(error) => panic!("refused: {:?}", error),
    }
}

fn read(text: &str, radix: i64) -> BigInteger {
    match parse(text, radix) {
        Ok(value) => value,
        Err(error) => panic!("refused: {:?}", error),
    }
}

#[test]
fn check_radix_accepts_two_to_thirty_six() {
    assert_eq!(check_radix(2), Ok(2));
    assert_eq!(check_radix(10), Ok(10));
    assert_eq!(check_radix(36), Ok(36));
    assert_eq!(check_radix(1), Err(CommandError::RadixError));
    assert_eq!(check_radix(0), Err(CommandError::RadixError));
    assert_eq!(check_radix(-10), Err(CommandError::RadixError));
    assert_eq!(check_radix(37), Err(CommandError::RadixError));
    assert_eq!(check_radix(i64::MAX), Err(CommandError::RadixError));
    assert_eq!(check_radix(i64::MIN), Err(CommandError::RadixError));
    assert_eq!(check_radix(4294967296 + 10), Err(CommandError::RadixError));
}

#[test]
fn written_values_read_back_in_every_radix() {
    let samples = [
        "0", "1", "-1", "35", "36", "-37", "255", "-256", "4294967295", "4294967296",
        "-18446744073709551616", "340282366920938463463374607431768211456",
        "-123456789012345678901234567890123456789012345678901234567890",
    ];
    for radix in 2..=36 {
        for sample in samples {
            let value = read(sample, 10);
            let text = written(&value, radix);
            let back = read(&text, radix);
            assert_eq!(written(&back, 10), sample, "radix {}", radix);
            assert_eq!(written(&back, radix), text, "radix {}", radix);
        }
    }
}

#[test]
fn format_writes_exact_digits() {
    assert_eq!(written(&read("255", 10), 16), "ff");
    assert_eq!(written(&read("255", 10), 2), "11111111");
    assert_eq!(written(&read("-255", 10), 8), "-377");
    assert_eq!(written(&read("35", 10), 36), "z");
    assert_eq!(written(&read("36", 10), 36), "10");
    assert_eq!(written(&read("-1295", 10), 36), "-zz");
    assert_eq!(written(&read("0", 10), 2), "0");
    assert_eq!(written(&read("-0", 10), 36), "0");
    assert_eq!(written(&read("10", 10), 11), "a");
    assert_eq!(written(&read("1000000", 10), 10), "1000000");
    assert_eq!(written(&read("18446744073709551616", 10), 16), "10000000000000000");
}

#[test]
fn parse_reads_signs_underscores_and_both_cases() {
    assert_eq!(written(&read("+12", 10), 10), "12");
    assert_eq!(written(&read("-12", 10), 10), "-12");
    assert_eq!(written(&read("1_2", 10), 10), "12");
    assert_eq!(written(&read("12__", 10), 10), "12");
    assert_eq!(written(&read("aB", 16), 10), "171");
    assert_eq!(written(&read("-Z", 36), 10), "-35");
    assert_eq!(written(&read("0000", 2), 10), "0");
    assert_eq!(written(&read("-10", 2), 10), "-2");
}

#[test]
fn parse_judges_the_radix_before_the_text() {
    assert_eq!(parse("12", 1).err(), Some(CommandError::RadixError));
    assert_eq!(parse("not a number", 37).err(), Some(CommandError::RadixError));
    assert_eq!(parse("", -5).err(), Some(CommandError::RadixError));
    assert_eq!(
        redis_bigint::radix::format(&read("12", 10), 0),
        Err(CommandError::RadixError)
    );
    assert_eq!(
        redis_bigint::radix::format(&read("12", 10), 37),
        Err(CommandError::RadixError)
    );
}

#[test]
fn parse_error_carries_the_reason() {
    assert_eq!(
        parse("", 10).err(),
        Some(CommandError::ParseError("cannot parse integer from empty string".to_string()))
    );
    assert_eq!(
        parse("-", 10).err(),
        Some(CommandError::ParseError("cannot parse integer from empty string".to_string()))
    );
    assert_eq!(
        parse("12x", 10).err(),
        Some(CommandError::ParseError("invalid digit found in string".to_string()))
    );
    assert_eq!(
        parse("_1", 10).err(),
        Some(CommandError::ParseError("invalid digit found in string".to_string()))
    );
}

#[test]
fn error_messages_and_kinds() {
    let cases = [
        (CommandError::WrongArity, ErrorKind::WrongArity, "wrong number of arguments"),
        (
            CommandError::RadixError,
            ErrorKind::Radix,
            "invalid radix provided, must be between 2 and 36",
        ),
        (
            CommandError::ParseError("invalid digit found in string".to_string()),
            ErrorKind::Parse,
            "error while parsing input: invalid digit found in string",
        ),
        (
            CommandError::WrongTypeError,
            ErrorKind::WrongType,
            "operation against a key holding the wrong kind of value",
        ),
        (CommandError::MissingKeyError, ErrorKind::MissingKey, "target key does not exist"),
        (
            CommandError::SelfOperationError,
            ErrorKind::SelfOperation,
            "adding a value to itself is not allowed",
        ),
        (CommandError::ArgumentParseError, ErrorKind::ArgumentParse, "couldn't parse as integer"),
    ];
    for (error, kind, message) in cases {
        assert_eq!(error.kind(), kind);
        assert_eq!(error.message(), message);
    }
    match parse("1.5", 10) {
        Err(error) => assert_eq!(
            error.message(),
            "error while parsing input: invalid digit found in string"
        ),
        Ok(_) => panic!("accepted"),
    }
}

#[test]
fn big_integer_arithmetic_in_place() {
    let mut value = read("-5", 10);
    value.add_assign(&read("12", 10));
    assert_eq!(written(&value, 10), "7");
    value.add_int(-9);
    assert_eq!(written(&value, 10), "-2");
    value.add_int(i64::MAX);
    assert_eq!(written(&value, 10), "9223372036854775805");
    value.add_int(i64::MIN);
    assert_eq!(written(&value, 10), "-3");
    value.increment();
    assert_eq!(written(&value, 10), "-2");
    value.decrement();
    value.decrement();
    assert_eq!(written(&value, 10), "-4");
}

#[test]
fn a_clone_is_equal_and_independent() {
    let mut value = read("123456789012345678901234567890", 10);
    let copy = value.clone();
    value.increment();
    assert_eq!(written(&copy, 10), "123456789012345678901234567890");
    assert_eq!(written(&value, 10), "123456789012345678901234567891");
}

#[test]
fn big_integer_passes_to_and_from_the_arithmetic_library() {
    let seven = num_bigint::BigInt::from(7);
    let value = BigInteger::from_bigint(seven.clone());
    assert_eq!(value.as_bigint(), &seven);
    assert_eq!(written(&value, 2), "111");
    assert_eq!(value.into_bigint(), seven);
    assert_eq!(read("-ff", 16).into_bigint(), num_bigint::BigInt::from(-255));
}

#[test]
fn typed_access_tells_the_three_cases_apart() {
    let mut space = KeySpace::new();
    let key = "k".to_string();
    let host = "h".to_string();
    assert!(matches!(space.get_typed(&key), Ok(None)));
    assert!(matches!(space.get_typed_mut(&key), Ok(None)));
    assert!(space.lookup(&key).is_none());
    space.create_typed(&key, read("5", 10));
    space.bind_native(&host, "text".to_string());
    match space.get_typed(&key) {
        Ok(Some(value)) => assert_eq!(written(value, 10), "5"),
        _ => panic!("no integer at the key"),
    }
    assert_eq!(space.get_typed(&host).err(), Some(CommandError::WrongTypeError));
    assert_eq!(space.get_typed_mut(&host).err(), Some(CommandError::WrongTypeError));
    assert!(matches!(space.lookup(&host), Some(Stored::Native(_))));
    assert!(matches!(space.lookup(&key), Some(Stored::BigInteger(_))));
}

#[test]
fn writing_through_the_typed_reference_is_seen_by_later_reads() {
    let mut space = KeySpace::new();
    let key = "k".to_string();
    space.create_typed(&key, read("5", 10));
    space.create_typed(&"other".to_string(), read("1", 10));
    match space.get_typed_mut(&key) {
        Ok(Some(value)) => {
            value.add_int(10);
            value.increment();
        }
        _ => panic!("no integer at the key"),
    }
    match space.get_typed(&key) {
        Ok(Some(value)) => assert_eq!(written(value, 10), "16"),
        _ => panic!("no integer at the key"),
    }
    match space.get_typed(&"other".to_string()) {
        Ok(Some(value)) => assert_eq!(written(value, 10), "1"),
        _ => panic!("no integer at the other key"),
    }
}

#[test]
fn create_typed_replaces_what_the_key_held() {
    let mut space = KeySpace::new();
    let key = "k".to_string();
    space.create_typed(&key, read("5", 10));
    space.create_typed(&key, read("6", 10));
    match space.get_typed(&key) {
        Ok(Some(value)) => assert_eq!(written(value, 10), "6"),
        _ => panic!("no integer at the key"),
    }
    space.bind_native(&key, "text".to_string());
    assert_eq!(space.get_typed(&key).err(), Some(CommandError::WrongTypeError));
    space.create_typed(&key, read("7", 10));
    match space.get_typed(&key) {
        Ok(Some(value)) => assert_eq!(written(value, 10), "7"),
        _ => panic!("no integer at the key"),
    }
}
