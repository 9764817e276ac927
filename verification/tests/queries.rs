use std::borrow::Cow;
use std::cell::RefCell;
use std::collections::HashMap;

use porkbun_rs::api::{self, ApiError, Client, Endpoint, Method, QueryParams, Request, Response};
use porkbun_rs::auth::Auth;
use porkbun_rs::endpoints::{CreateDns, DeleteDns, DnsContent, EditDns, Ping, RetrieveDns};
use serde::de::{Deserialize, Deserializer, IgnoredAny, MapAccess, Visitor};
use serde_json::Value;
use url::Url;

/// What a test expects the client to be asked, and the status to answer with.
#[derive(Debug)]
struct ExpectedUrl {
    method: Method,
    endpoint: &'static str,
    query: Vec<(Cow<'static, str>, Cow<'static, str>)>,
    content_type: Option<String>,
    body: Vec<u8>,
    status: u16,
}

impl ExpectedUrl {
    fn new(endpoint: &'static str) -> Self {
        ExpectedUrl {
            method: Method::Get,
            endpoint,
            query: Vec::new(),
            content_type: None,
            body: Vec::new(),
            status: 200,
        }
    }

    fn method(mut self, method: Method) -> Self {
        self.method = method;
        self
    }

    fn status(mut self, status: u16) -> Self {
        self.status = status;
        self
    }

    fn query(mut self, key: &'static str, value: &'static str) -> Self {
        self.query.push((key.into(), value.into()));
        self
    }

    fn content_type(mut self, content_type: &str) -> Self {
        self.content_type = Some(content_type.into());
        self
    }

    fn body_json(mut self, body: &Value) -> Self {
        self.body = serde_json::to_vec(body).unwrap();
        self
    }

    fn check(&self, method: Method, url: &Url) {
        // Test that the method is as expected.
        assert_eq!(method, self.method);

        // Ensure that the URL was not tampered with in the meantime.
        assert_eq!(url.scheme(), "https");
        assert_eq!(url.username(), "");
        assert_eq!(url.password(), None);
        assert_eq!(url.host_str().unwrap(), "porkbun.invalid");
        assert_eq!(url.port(), None);
        assert_eq!(url.path(), format!("/api/json/v3/{}", self.endpoint));
        let mut count = 0;
        for (ref key, ref value) in url.query_pairs() {
            let found = self.query.iter().any(|(expected_key, expected_value)| {
                key == expected_key && value == expected_value
            });

            if !found {
                panic!("unexpected query parameter `{}={}`", key, value);
            }
            count += 1;
        }
        assert_eq!(count, self.query.len());
        assert_eq!(url.fragment(), None);
    }
}

#[derive(Debug, Clone)]
struct MockResponse {
    status: u16,
    data: Vec<u8>,
}

impl MockResponse {
    fn response(&self) -> Response {
        Response {
            status: self.status,
            body: self.data.clone(),
        }
    }
}

#[derive(Debug, Default)]
struct MockClient {
    response_map: HashMap<(Method, String), MockResponse>,
}

const CLIENT_STUB: &str = "https://porkbun.invalid/api/json/v3";

struct SingleTestClient {
    client: MockClient,

    expected: ExpectedUrl,
}

impl SingleTestClient {
    fn new_raw<T>(expected: ExpectedUrl, data: T) -> Self
    where
        T: Into<Vec<u8>>,
    {
        let mut client = MockClient::default();

        let request = (
            expected.method,
            format!("/api/json/v3/{}", expected.endpoint),
        );
        let response = MockResponse {
            status: expected.status,
            data: data.into(),
        };

        client.response_map.insert(request, response);

        Self { client, expected }
    }

    fn new_json(expected: ExpectedUrl, data: &Value) -> Self {
        let data = serde_json::to_vec(data).unwrap();
        Self::new_raw(expected, data)
    }
}

/// An error as a message.
fn shown<E: std::fmt::Debug>(error: &ApiError<E>) -> String {
    format!("{:?}", error)
}

/// A JSON object with the given members, each a JSON string.
fn object(members: &[(&str, &str)]) -> Value {
    let mut map = serde_json::Map::new();
    for (name, value) in members {
        map.insert(name.to_string(), Value::String(value.to_string()));
    }
    Value::Object(map)
}

#[derive(Debug)]
enum TestClientError {}

impl Client for SingleTestClient {
    type Error = TestClientError;

    fn rest_endpoint(&self, endpoint: &str) -> Result<Url, ApiError<Self::Error>> {
        Url::parse(&format!("{}/{}", CLIENT_STUB, endpoint))
            .map_err(|source| ApiError::UrlParse { source })
    }

    fn rest(&self, request: Request, body: Vec<u8>) -> Result<Response, ApiError<Self::Error>> {
        self.expected.check(request.method, &request.url);
        assert_eq!(
            &body,
            &self.expected.body,
            "\nbody is not the same:\nactual  : {}\nexpected: {}\n",
            String::from_utf8_lossy(&body),
            String::from_utf8_lossy(&self.expected.body),
        );
        let content_type = request.content_type.iter().map(|value| value.as_str());
        if let Some(expected_content_type) = self.expected.content_type.as_ref() {
            itertools::assert_equal(
                content_type,
                [expected_content_type.as_str()].iter().cloned(),
            );
        } else {
            assert_eq!(content_type.count(), 0);
        }

        Ok(self
            .client
            .response_map
            .get(&(request.method, request.url.path().into()))
            .expect("no matching request found")
            .response())
    }

    fn auth(&self) -> serde_json::Map<String, Value> {
        serde_json::Map::default()
    }
}

struct Dummy;

impl Endpoint for Dummy {
    fn method(&self) -> Method {
        Method::Get
    }

    fn endpoint(&self) -> Cow<'static, str> {
        "dummy".into()
    }
}

#[derive(Debug)]
struct DummyResult {
    value: u8,
}

struct DummyResultVisitor;

impl<'de> Visitor<'de> for DummyResultVisitor {
    type Value = DummyResult;

    fn expecting(&self, formatter: &mut std::fmt::Formatter) -> std::fmt::Result {
        formatter.write_str("struct DummyResult")
    }

    fn visit_map<A>(self, mut map: A) -> Result<DummyResult, A::Error>
    where
        A: MapAccess<'de>,
    {
        let mut value = None;
        while let Some(key) = map.next_key::<String>()? {
            if key == "value" {
                value = Some(map.next_value::<u8>()?);
            } else {
                map.next_value::<IgnoredAny>()?;
            }
        }
        match value {
            Some(value) => Ok(DummyResult { value }),
            None => Err(serde::de::Error::missing_field("value")),
        }
    }
}

impl<'de> Deserialize<'de> for DummyResult {
    fn deserialize<D>(deserializer: D) -> Result<Self, D::Error>
    where
        D: Deserializer<'de>,
    {
        deserializer.deserialize_struct("DummyResult", &["value"], DummyResultVisitor)
    }
}

const DUMMY_RESULT: &str = "porkbun_rs::api::endpoint::tests::DummyResult";

fn query_dummy(client: &SingleTestClient) -> Result<DummyResult, ApiError<TestClientError>> {
    api::query(&Dummy, client, DUMMY_RESULT, serde_json::from_value::<DummyResult>)
}

#[test]
fn test_porkbun_empty_response() {
    let endpoint = ExpectedUrl::new("dummy");
    let client = SingleTestClient::new_raw(endpoint, "");

    let res: Result<DummyResult, _> = query_dummy(&client);
    let err = res.unwrap_err();
    if let ApiError::Json { source } = err {
        assert_eq!(
            format!("{}", source),
            "EOF while parsing a value at line 1 column 0",
        );
    } else {
        panic!("unexpected error: {}", shown(&err));
    }
}

#[test]
fn endpoint_test_porkbun_error_bad_json() {
    let endpoint = ExpectedUrl::new("dummy").status(404);
    let client = SingleTestClient::new_raw(endpoint, "");

    let res: Result<DummyResult, _> = query_dummy(&client);
    let err = res.unwrap_err();
    if let ApiError::Json { source } = err {
        assert_eq!(
            format!("{}", source),
            "EOF while parsing a value at line 1 column 0",
        );
    } else {
        panic!("unexpected error: {}", shown(&err));
    }
}

#[test]
fn endpoint_test_porkbun_error_detection() {
    let endpoint = ExpectedUrl::new("dummy").status(404);
    let client = SingleTestClient::new_json(
        endpoint,
        &object(&[
            ("status", "ERROR"),
            ("message", "All HTTP request must use POST."),
        ]),
    );

    let res: Result<DummyResult, _> = query_dummy(&client);
    let err = res.unwrap_err();
    if let ApiError::PorkBun { message, status } = err {
        assert_eq!(message, "All HTTP request must use POST.");
        assert_eq!(status, "ERROR");
    } else {
        panic!("unexpected error: {}", shown(&err));
    }
}

#[test]
fn endpoint_test_porkbun_error_detection_unknown() {
    let endpoint = ExpectedUrl::new("dummy").status(404);
    let err_obj = object(&[("bogus", "dummy error message")]);
    let client = SingleTestClient::new_json(endpoint, &err_obj);

    let res: Result<DummyResult, _> = query_dummy(&client);
    let err = res.unwrap_err();
    if let ApiError::PorkBunUnrecognized { obj } = err {
        assert_eq!(obj, err_obj);
    } else {
        panic!("unexpected error: {}", shown(&err));
    }
}

#[test]
fn test_bad_deserialization() {
    let endpoint = ExpectedUrl::new("dummy");
    let mut map = serde_json::Map::new();
    map.insert("not_value".to_string(), Value::from(0));
    let client = SingleTestClient::new_json(endpoint, &Value::Object(map));

    let res: Result<DummyResult, _> = query_dummy(&client);
    let err = res.unwrap_err();
    if let ApiError::DataType { source, typename } = err {
        assert_eq!(format!("{}", source), "missing field `value`");
        assert_eq!(typename, "porkbun_rs::api::endpoint::tests::DummyResult");
    } else {
        panic!("unexpected error: {}", shown(&err));
    }
}

#[test]
fn test_good_deserialization() {
    let endpoint = ExpectedUrl::new("dummy");
    let mut map = serde_json::Map::new();
    map.insert("value".to_string(), Value::from(0));
    let client = SingleTestClient::new_json(endpoint, &Value::Object(map));

    let res: DummyResult = query_dummy(&client).unwrap();
    assert_eq!(res.value, 0);
}

#[test]
fn porkbun_error_message_string() {
    let obj = object(&[
        ("status", "ERROR"),
        ("message", "All HTTP request must use POST."),
    ]);

    let err: ApiError<TestClientError> = ApiError::from_porkbun(obj);
    if let ApiError::PorkBun { message, status } = err {
        assert_eq!(message, "All HTTP request must use POST.");
        assert_eq!(status, "ERROR");
    } else {
        panic!("unexpected error: {}", shown(&err));
    }
}

#[test]
fn gitlab_error_message_unrecognized() {
    let err_obj = object(&[("some_weird_key", "an even weirder value")]);

    let err: ApiError<TestClientError> = ApiError::from_porkbun(err_obj.clone());
    if let ApiError::PorkBunUnrecognized { obj } = err {
        assert_eq!(obj, err_obj);
    } else {
        panic!("unexpected error: {}", shown(&err));
    }
}

#[test]
fn test_porkbun_non_json_response() {
    let endpoint = ExpectedUrl::new("dummy");
    let client = SingleTestClient::new_raw(endpoint, "not json");

    api::ignore(Dummy).query(&client).unwrap()
}

#[test]
fn ignore_test_porkbun_error_bad_json() {
    let endpoint = ExpectedUrl::new("dummy").status(404);
    let client = SingleTestClient::new_raw(endpoint, "");

    let err = api::ignore(Dummy).query(&client).unwrap_err();
    if let ApiError::Json { source } = err {
        assert_eq!(
            format!("{}", source),
            "EOF while parsing a value at line 1 column 0",
        );
    } else {
        panic!("unexpected error: {}", shown(&err));
    }
}

#[test]
fn ping_endpoint() {
    let endpoint = ExpectedUrl::new("ping").method(Method::Post);
    let client = SingleTestClient::new_raw(endpoint, "");

    let endpoint = Ping::builder().build().unwrap();

    api::ignore(endpoint).query(&client).unwrap();
}

#[test]
fn delete_endpoint() {
    let endpoint = ExpectedUrl::new("dns/delete/example.com/1234").method(Method::Post);
    let client = SingleTestClient::new_raw(endpoint, "");

    let endpoint = DeleteDns::builder()
        .id("1234")
        .domain("example.com")
        .build()
        .unwrap();

    api::ignore(endpoint).query(&client).unwrap();
}

#[test]
fn retrieve_endpoint() {
    let endpoint = ExpectedUrl::new("dns/retrieve/example.com").method(Method::Post);
    let client = SingleTestClient::new_raw(endpoint, "");

    let endpoint = RetrieveDns::builder()
        .domain("example.com")
        .build()
        .unwrap();

    api::ignore(endpoint).query(&client).unwrap();
}

#[test]
fn ignore_test_porkbun_error_detection() {
    let endpoint = ExpectedUrl::new("dummy").status(404);
    let client = SingleTestClient::new_json(
        endpoint,
        &object(&[("message", "dummy error message"), ("status", "ERROR")]),
    );

    let err = api::ignore(Dummy).query(&client).unwrap_err();
    if let ApiError::PorkBun { message, status } = err {
        assert_eq!(message, "dummy error message");
        assert_eq!(status, "ERROR")
    } else {
        panic!("unexpected error: {}", shown(&err));
    }
}

#[test]
fn ignore_test_porkbun_error_detection_unknown() {
    let endpoint = ExpectedUrl::new("dummy").status(404);
    let err_obj = object(&[("bogus", "dummy error message")]);
    let client = SingleTestClient::new_json(endpoint, &err_obj);

    let err = api::ignore(Dummy).query(&client).unwrap_err();
    if let ApiError::PorkBunUnrecognized { obj } = err {
        assert_eq!(obj, err_obj);
    } else {
        panic!("unexpected error: {}", shown(&err));
    }
}

#[test]
fn create_endpoint() {
    let endpoint = ExpectedUrl::new("dns/create/example.com")
        .method(Method::Post)
        .content_type("application/json")
        .body_json(&object(&[
            ("name", "*"),
            ("ttl", "600"),
            ("prio", "600"),
            ("type", "MX"),
            ("content", "cname"),
        ]));
    let client = SingleTestClient::new_raw(endpoint, "");

    let endpoint = CreateDns::builder()
        .domain("example.com")
        .record(DnsContent::Mx {
            priority: 600,
            content: "cname".to_string(),
        })
        .ttl(600)
        .name("*")
        .build()
        .unwrap();

    api::ignore(endpoint).query(&client).unwrap();
}

#[test]
fn edit_endpoint() {
    let endpoint = ExpectedUrl::new("dns/edit/example.com/1234")
        .method(Method::Post)
        .content_type("application/json")
        .body_json(&object(&[
            ("name", "*"),
            ("ttl", "600"),
            ("prio", "600"),
            ("type", "MX"),
            ("content", "cnameCname"),
        ]));
    let client = SingleTestClient::new_raw(endpoint, "");

    let endpoint = EditDns::builder()
        .id("1234")
        .domain("example.com")
        .name("*")
        .record(DnsContent::Mx {
            priority: 600,
            content: "cnameCname".to_string(),
        })
        .ttl(600)
        .build()
        .unwrap();

    api::ignore(endpoint).query(&client).unwrap();
}

/// An endpoint with parameters and a body of its own.
struct Search;

impl Endpoint for Search {
    fn method(&self) -> Method {
        Method::Get
    }

    fn endpoint(&self) -> Cow<'static, str> {
        "search".into()
    }

    fn parameters(&self) -> QueryParams<'_> {
        let mut params = QueryParams::default();
        params
            .push("term".into(), "a b")
            .push("page".into(), 2u64)
            .push_opt("exact".into(), Some(false))
            .push_opt("skipped".into(), None::<bool>);
        params
    }

    fn body(&self) -> serde_json::Map<String, Value> {
        let mut body = serde_json::Map::new();
        body.insert("apikey".into(), Value::from("not mine"));
        body.insert("depth".into(), Value::from(3));
        body
    }
}

#[test]
fn parameters_reach_the_client() {
    let endpoint = ExpectedUrl::new("search")
        .query("term", "a b")
        .query("page", "2")
        .query("exact", "false")
        .content_type("application/json")
        .body_json(&{
            let mut body = serde_json::Map::new();
            body.insert("apikey".into(), Value::from("not mine"));
            body.insert("depth".into(), Value::from(3));
            Value::Object(body)
        });
    let client = SingleTestClient::new_raw(endpoint, "17");

    let found: u8 = api::query(&Search, &client, "u8", serde_json::from_value::<u8>).unwrap();
    assert_eq!(found, 17);
}

#[derive(Debug, PartialEq)]
struct Unplugged;

/// A client with credentials that records what it is asked to send.
struct Recorder {
    auth: Auth,
    answer: Option<(u16, &'static str)>,
    resolves: bool,
    seen: RefCell<Vec<(Method, String, Option<String>, Vec<u8>)>>,
}

impl Recorder {
    fn new(answer: Option<(u16, &'static str)>) -> Self {
        Recorder {
            auth: Auth::new("pk1_key".into(), "sk1_secret".into()),
            answer,
            resolves: true,
            seen: RefCell::new(Vec::new()),
        }
    }
}

impl Client for Recorder {
    type Error = Unplugged;

    fn rest_endpoint(&self, endpoint: &str) -> Result<Url, ApiError<Self::Error>> {
        if !self.resolves {
            return Err(ApiError::UrlParse {
                source: url::ParseError::EmptyHost,
            });
        }
        let base = Url::parse("https://porkbun.invalid/api/json/v3/").unwrap();
        api::query::resolve(&base, endpoint)
    }

    fn rest(&self, request: Request, body: Vec<u8>) -> Result<Response, ApiError<Self::Error>> {
        self.seen.borrow_mut().push((
            request.method,
            request.url.to_string(),
            request.content_type,
            body,
        ));
        match self.answer {
            Some((status, body)) => Ok(Response {
                status,
                body: body.into(),
            }),
            None => Err(ApiError::client(Unplugged)),
        }
    }

    fn auth(&self) -> serde_json::Map<String, Value> {
        self.auth.fields()
    }
}

#[test]
fn request_carries_parameters_in_order_and_credentials() {
    let client = Recorder::new(Some((200, "0")));
    let found: u8 = api::query(&Search, &client, "u8", serde_json::from_value::<u8>).unwrap();
    assert_eq!(found, 0);

    let seen = client.seen.borrow();
    assert_eq!(seen.len(), 1);
    let (method, url, content_type, body) = &seen[0];
    assert_eq!(*method, Method::Get);
    assert_eq!(
        url,
        "https://porkbun.invalid/api/json/v3/search?term=a+b&page=2&exact=false"
    );
    assert_eq!(content_type.as_deref(), Some("application/json"));
    assert_eq!(
        String::from_utf8(body.clone()).unwrap(),
        r#"{"apikey":"pk1_key","depth":3,"secretapikey":"sk1_secret"}"#,
    );
}

#[test]
fn ping_with_credentials_has_a_body() {
    let client = Recorder::new(Some((200, "not read")));
    let endpoint = Ping::builder().build().unwrap();
    api::ignore(endpoint).query(&client).unwrap();

    let seen = client.seen.borrow();
    assert_eq!(seen.len(), 1);
    let (method, url, content_type, body) = &seen[0];
    assert_eq!(*method, Method::Post);
    assert_eq!(url, "https://porkbun.invalid/api/json/v3/ping");
    assert_eq!(content_type.as_deref(), Some("application/json"));
    assert_eq!(
        String::from_utf8(body.clone()).unwrap(),
        r#"{"apikey":"pk1_key","secretapikey":"sk1_secret"}"#,
    );
}

#[test]
fn client_error_ends_the_query() {
    let client = Recorder::new(None);
    let outcome: Result<u8, _> = api::query(&Dummy, &client, "u8", serde_json::from_value::<u8>);
    assert!(matches!(outcome, Err(ApiError::Client { source: Unplugged })));
    assert_eq!(client.seen.borrow().len(), 1);

    let outcome = api::ignore(Dummy).query(&client);
    assert!(matches!(outcome, Err(ApiError::Client { source: Unplugged })));
    assert_eq!(client.seen.borrow().len(), 2);
}

#[test]
fn unresolved_path_ends_the_query_before_the_exchange() {
    let mut client = Recorder::new(Some((200, "0")));
    client.resolves = false;
    let outcome: Result<u8, _> = api::query(&Dummy, &client, "u8", serde_json::from_value::<u8>);
    assert!(matches!(
        outcome,
        Err(ApiError::UrlParse {
            source: url::ParseError::EmptyHost
        })
    ));
    let outcome = api::ignore(Dummy).query(&client);
    assert!(matches!(outcome, Err(ApiError::UrlParse { .. })));
    assert!(client.seen.borrow().is_empty());
}

#[test]
fn ignored_data_is_whatever_the_shape_but_decoded_data_is_not() {
    let client = Recorder::new(Some((200, r#"{"not_value":0}"#)));
    api::ignore(Dummy).query(&client).unwrap();
    let outcome: Result<u8, _> = api::query(&Dummy, &client, "u8", serde_json::from_value::<u8>);
    assert!(matches!(
        outcome,
        Err(ApiError::DataType { typename: "u8", .. })
    ));
}
