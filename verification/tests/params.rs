use std::borrow::Cow;

use porkbun_rs::api::{BodyParams, ParamValue, QueryParams};
use url::Url;

/// A value of the caller's own with a wire form.
struct Flag(bool);

impl ParamValue<'static> for Flag {
    fn as_value(&self) -> Cow<'static, str> {
        if self.0 {
            "on".into()
        } else {
            "off".into()
        }
    }
}

#[test]
fn bool_str() {
    let items = &[(true, "true"), (false, "false")];

    for (i, s) in items {
        assert_eq!(i.as_value(), *s);
    }
}

#[test]
fn text_is_unchanged() {
    assert_eq!("plain text".as_value(), "plain text");
    assert_eq!("".as_value(), "");
    assert_eq!("a b&c=d".to_string().as_value(), "a b&c=d");
    assert_eq!((&"owned".to_string()).as_value(), "owned");
    let cow: Cow<'static, str> = "cow".into();
    assert_eq!(cow.as_value(), "cow");
    assert_eq!((&cow).as_value(), "cow");
}

#[test]
fn integers_are_decimal() {
    assert_eq!(0u64.as_value(), "0");
    assert_eq!(7u64.as_value(), "7");
    assert_eq!(10u64.as_value(), "10");
    assert_eq!(600u64.as_value(), "600");
    assert_eq!(1234567890u64.as_value(), "1234567890");
    assert_eq!(u64::MAX.as_value(), "18446744073709551615");
    for n in [0u64, 9, 10, 99, 100, 101, 65535, 4294967296] {
        assert_eq!(n.as_value(), format!("{}", n));
    }
}

#[test]
fn query_parameters_keep_their_order() {
    let mut params = QueryParams::default();
    params
        .push("b".into(), "2")
        .push("a".into(), 1u64)
        .push_opt("skipped".into(), None::<bool>)
        .push_opt("flag".into(), Some(true))
        .push("a".into(), "again")
        .extend(vec![("x".into(), Flag(true)), ("y".into(), Flag(false))]);

    let mut url = Url::parse("https://porkbun.invalid/api/json/v3/dummy").unwrap();
    params.add_to_url(&mut url);

    let pairs: Vec<(String, String)> = url
        .query_pairs()
        .map(|(k, v)| (k.into_owned(), v.into_owned()))
        .collect();
    let expected: Vec<(String, String)> = [
        ("b", "2"),
        ("a", "1"),
        ("flag", "true"),
        ("a", "again"),
        ("x", "on"),
        ("y", "off"),
    ]
    .iter()
    .map(|(k, v)| (k.to_string(), v.to_string()))
    .collect();
    assert_eq!(pairs, expected);
    assert_eq!(
        url.as_str(),
        "https://porkbun.invalid/api/json/v3/dummy?b=2&a=1&flag=true&a=again&x=on&y=off",
    );
}

#[test]
fn query_parameters_come_behind_those_of_the_url() {
    let mut params = QueryParams::default();
    params.push("key".into(), "a value").push("sign".into(), "&=?#");

    let mut url = Url::parse("https://porkbun.invalid/path?first=1#part").unwrap();
    assert!(params.try_add_to_url(&mut url));

    let pairs: Vec<(String, String)> = url
        .query_pairs()
        .map(|(k, v)| (k.into_owned(), v.into_owned()))
        .collect();
    assert_eq!(
        pairs,
        vec![
            ("first".to_string(), "1".to_string()),
            ("key".to_string(), "a value".to_string()),
            ("sign".to_string(), "&=?#".to_string()),
        ],
    );
    assert_eq!(url.path(), "/path");
    assert_eq!(url.fragment(), Some("part"));
    assert_eq!(url.host_str(), Some("porkbun.invalid"));
}

#[test]
fn no_parameters_leave_the_pairs_alone() {
    let params = QueryParams::default();
    let mut url = Url::parse("https://porkbun.invalid/path?first=1").unwrap();
    assert!(params.try_add_to_url(&mut url));
    assert_eq!(url.query_pairs().count(), 1);
    assert_eq!(url.path(), "/path");
}

#[test]
fn body_parameters_are_a_json_list() {
    let mut params = BodyParams::default();
    params
        .push("name".into(), "*")
        .push_opt("ttl".into(), Some(600u64))
        .push_opt("none".into(), None::<u64>)
        .extend(vec![("flag".into(), false)]);

    let (content_type, body) = params.into_body().unwrap();
    assert_eq!(content_type, "application/json");
    assert_eq!(
        String::from_utf8(body).unwrap(),
        r#"[["name","*"],["ttl","600"],["flag","false"]]"#,
    );
}

#[test]
fn wire_forms_read_back_to_the_same_wire_form() {
    for value in [true, false] {
        let written = value.as_value();
        let read: bool = written.parse().unwrap();
        assert_eq!(read, value);
        assert_eq!(read.as_value(), written);
    }
    for value in [0u64, 1, 9, 10, 42, 1000, 18446744073709551615] {
        let written = value.as_value();
        let read: u64 = written.parse().unwrap();
        assert_eq!(read, value);
        assert_eq!(read.as_value(), written);
    }
    for value in ["", "text", " spaced ", "ünï¢ødé"] {
        let written = value.as_value();
        assert_eq!(written, value);
        assert_eq!(written.as_value(), written);
    }
}
