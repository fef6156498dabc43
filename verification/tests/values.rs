use brupop::retry::exponential_delays;
use brupop::string_map::StringMap;
use brupop::text::{concat3, i64_text, parse_unsigned, str_before, str_eq, u64_text};
use brupop::time::Timestamp;
use brupop::version::Version;

#[test]
fn versions_are_those_of_semver() {
    for text in ["1.2.3", "0.0.1-alpha.1", "1.0.0+build.5", "10.20.30-rc.1+exp.sha"] {
        let version = Version::from_str(text).unwrap();
        assert_eq!(version.to_text(), text);
        let parsed = semver::Version::parse(text).unwrap();
        assert_eq!(parsed.to_string(), version.to_text());
        assert!(version.same(&version.copy()));
    }
    for text in ["", "1", "1.2", "01.2.3", "v1.2.3", "1.2.3-", "1.2.3 "] {
        assert!(Version::from_str(text).is_none());
    }
    let a = Version::from_str("1.2.3").unwrap();
    let b = Version::from_str("1.2.3+x").unwrap();
    assert!(!a.same(&b));
}

#[test]
fn instants_are_written_and_read() {
    let at = Timestamp::from_timestamp(0, 0).unwrap();
    assert_eq!(at.to_rfc3339(), "1970-01-01T00:00:00+00:00");
    let read = Timestamp::parse_from_rfc3339("1970-01-01T02:00:00.5+02:00").unwrap();
    assert_eq!((read.seconds(), read.nanos()), (0, 500_000_000));
    assert_eq!(
        Timestamp::parse_from_rfc3339("1970-01-01"),
        Err("premature end of input".to_string())
    );
    assert!(Timestamp::from_timestamp(i64::MAX, 0).is_none());
    assert!(Timestamp::now().seconds() > 1_600_000_000);
    assert_eq!(read.since(&at).to_std(), Ok((0, 500_000_000)));
    assert_eq!(
        at.since(&read).to_std(),
        Err("Source duration value is out of range for the target type".to_string())
    );
}

#[test]
fn delays_grow_up_to_their_limit() {
    assert_eq!(exponential_delays(2, 20, 6), [2, 4, 8, 16, 20, 20]);
    assert!(exponential_delays(2, 20, 0).is_empty());
}

#[test]
fn maps_keep_the_last_value() {
    let map = StringMap::new()
        .with("a".to_string(), "1".to_string())
        .with("b".to_string(), "2".to_string())
        .with("a".to_string(), "3".to_string());
    assert_eq!(map.get("a").unwrap(), "3");
    assert_eq!(map.get("b").unwrap(), "2");
    assert!(map.get("c").is_none());
    assert_eq!(map.entries().len(), 2);
    assert_eq!(map.copy().get("a").unwrap(), "3");
}

#[test]
fn texts_and_numbers() {
    assert!(str_eq("\u{e9}", "\u{e9}"));
    assert!(!str_eq("a", "ab"));
    for (a, b) in [("", "a"), ("a", "b"), ("a", "ab"), ("B", "a"), ("z", "\u{e9}")] {
        assert!(str_before(a, b));
        assert!(a < b);
        assert!(!str_before(b, a));
    }
    assert_eq!(concat3("a", "b", "c"), "abc");
    for n in [0, 7, 10, 99, 1_000_000, u64::MAX] {
        assert_eq!(u64_text(n), n.to_string());
        assert_eq!(parse_unsigned(&n.to_string(), u64::MAX), Some(n));
    }
    for n in [0, -1, 42, i64::MIN, i64::MAX] {
        assert_eq!(i64_text(n), n.to_string());
    }
    assert_eq!(parse_unsigned("+12", 12), Some(12));
    assert_eq!(parse_unsigned("13", 12), None);
    assert_eq!(parse_unsigned("", 12), None);
    assert_eq!(parse_unsigned("+", 12), None);
    assert_eq!(parse_unsigned("1x", 12), None);
}
