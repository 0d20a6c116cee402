// Requests as a handler sees them: a request is built, its content type and
// length header are read, and its payload goes through the body.

use actix_bincode::{
    Bincode, BincodeBody, BincodeConfig, BincodePayloadError, FailureKind, Phase, Rejection,
    Reply,
};
use actix_web::http::header::{self, ContentType, HeaderValue, CONTENT_LENGTH};
use actix_web::test::TestRequest;
use actix_web::{web, HttpMessage, HttpRequest};
use serde::de::{Deserialize, Deserializer, Error as DeError, SeqAccess, Visitor};
use serde::ser::{Serialize, SerializeStruct, Serializer};
use std::fmt;

type Predicate = Box<dyn Fn(&str) -> bool + Send + Sync>;
type Handler = Box<dyn Fn(BincodePayloadError, &HttpRequest) -> actix_web::Error + Send + Sync>;
type Config = BincodeConfig<Predicate, Handler>;

#[derive(PartialEq, Debug, Clone)]
struct MyObject {
    name: String,
    number: i32,
}

impl Default for MyObject {
    fn default() -> Self {
        Self {
            name: "test".to_owned(),
            number: 7,
        }
    }
}

impl Serialize for MyObject {
    fn serialize<S: Serializer>(&self, serializer: S) -> Result<S::Ok, S::Error> {
        let mut state = serializer.serialize_struct("MyObject", 2)?;
        state.serialize_field("name", &self.name)?;
        state.serialize_field("number", &self.number)?;
        state.end()
    }
}

struct MyObjectVisitor;

impl<'de> Visitor<'de> for MyObjectVisitor {
    type Value = MyObject;

    fn expecting(&self, f: &mut fmt::Formatter) -> fmt::Result {
        f.write_str("struct MyObject")
    }

    fn visit_seq<A: SeqAccess<'de>>(self, mut seq: A) -> Result<MyObject, A::Error> {
        let name = seq
            .next_element()?
            .ok_or_else(|| DeError::invalid_length(0, &self))?;
        let number = seq
            .next_element()?
            .ok_or_else(|| DeError::invalid_length(1, &self))?;
        Ok(MyObject { name, number })
    }
}

impl<'de> Deserialize<'de> for MyObject {
    fn deserialize<D: Deserializer<'de>>(deserializer: D) -> Result<Self, D::Error> {
        deserializer.deserialize_struct("MyObject", &["name", "number"], MyObjectVisitor)
    }
}

fn get_test_bytes() -> Vec<u8> {
    bincode::serialize(&MyObject::default()).unwrap()
}

fn bincode_eq(err: BincodePayloadError, other: BincodePayloadError) -> bool {
    match err {
        BincodePayloadError::Overflow => matches!(other, BincodePayloadError::Overflow),
        BincodePayloadError::ContentType => {
            matches!(other, BincodePayloadError::ContentType)
        }
        _ => false,
    }
}

fn length_header(req: &HttpRequest) -> Option<&str> {
    req.headers()
        .get(&CONTENT_LENGTH)
        .and_then(|l| l.to_str().ok())
}

// The configuration of a request, looked up as the application does.
fn config_of<'a>(req: &'a HttpRequest, fallback: &'a Config) -> &'a Config {
    Config::from_req(
        req.app_data::<Config>(),
        req.app_data::<web::Data<Config>>().map(|d| d.as_ref()),
        fallback,
    )
}

// What the future of a body resolves to, on a payload that comes as one chunk.
fn resolve(body: BincodeBody<MyObject>, payload: Vec<u8>) -> Result<MyObject, BincodePayloadError> {
    let chunks = if payload.is_empty() {
        vec![]
    } else {
        vec![payload]
    };
    let (body, _) = body.drain(&chunks);
    body.decode(|bytes: &[u8]| bincode::deserialize(bytes))
        .unwrap()
}

// What the extractor resolves to for a request and its payload.
fn from_request(req: &HttpRequest, payload: Vec<u8>) -> Result<Bincode<MyObject>, actix_web::Error> {
    let fallback = Config::default();
    let config = config_of(req, &fallback);
    let body = Bincode::<MyObject>::from_request(config, req.content_type(), length_header(req));
    let outcome = resolve(body, payload);
    match Bincode::from_outcome(outcome, config.err_handler.as_ref(), req) {
        Ok(data) => Ok(data),
        Err(Rejection::Handled(error)) => Err(error),
        Err(Rejection::Unhandled(failure)) => {
            let text = failure.to_string();
            Err(match failure.status_code() {
                413 => actix_web::error::ErrorPayloadTooLarge(text),
                _ => actix_web::error::ErrorBadRequest(text),
            })
        }
    }
}

#[test]
fn test_responder() {
    let obj = MyObject::default();

    let encoded = get_test_bytes();

    let j = Bincode(obj.clone());
    let (resp, cause) = Reply::answer(bincode::serialize(&j.0));
    assert!(cause.is_none());
    assert_eq!(resp.status, Some(200));
    assert_eq!(
        HeaderValue::from_static(resp.content_type.unwrap()),
        header::HeaderValue::from_static("application/bincode")
    );

    let b = resp.body;
    assert_eq!(&encoded, &b);

    let decoded: MyObject = bincode::deserialize(&b).unwrap();
    assert_eq!(obj, decoded);
}

#[test]
fn test_extract() {
    let req = TestRequest::default()
        .insert_header(ContentType("application/bincode".parse().unwrap()))
        .to_http_request();

    let s = from_request(&req, get_test_bytes()).unwrap();
    assert_eq!(s.name, "test");
    assert_eq!(s.into_inner(), MyObject::default());

    let req = TestRequest::default()
        .insert_header(ContentType("application/bincode".parse().unwrap()))
        .app_data(Config::default().limit(10))
        .to_http_request();

    let s = from_request(&req, get_test_bytes());
    assert!(format!("{}", s.err().unwrap()).contains("Bincode payload size is bigger than allowed"));

    let handler: Handler = Box::new(|_, _| {
        actix_web::error::ErrorBadRequest(BincodePayloadError::ContentType.to_string())
    });
    let req = TestRequest::default()
        .insert_header(ContentType("application/bincode".parse().unwrap()))
        .app_data(Config::default().limit(10).error_handler(handler))
        .to_http_request();
    let s = from_request(&req, get_test_bytes());
    assert!(format!("{}", s.err().unwrap()).contains("Content type error"));
}

#[test]
fn test_bincode_body() {
    let req = TestRequest::default().to_http_request();
    let bc = resolve(
        BincodeBody::<MyObject>::new(req.content_type(), length_header(&req), None::<&Predicate>),
        vec![],
    );

    assert!(bincode_eq(
        bc.err().unwrap(),
        BincodePayloadError::ContentType
    ));

    let req = TestRequest::default()
        .insert_header(ContentType(("application/test").parse().unwrap()))
        .to_http_request();

    let bc = resolve(
        BincodeBody::<MyObject>::new(req.content_type(), length_header(&req), None::<&Predicate>),
        vec![],
    );

    assert!(bincode_eq(
        bc.err().unwrap(),
        BincodePayloadError::ContentType
    ));

    let req = TestRequest::default()
        .insert_header(ContentType("application/bincode".parse().unwrap()))
        .insert_header((CONTENT_LENGTH, HeaderValue::from_static("10000")))
        .to_http_request();

    let bc = resolve(
        BincodeBody::<MyObject>::new(req.content_type(), length_header(&req), None::<&Predicate>)
            .limit(100),
        vec![],
    );

    assert!(bincode_eq(bc.err().unwrap(), BincodePayloadError::Overflow));

    let req = TestRequest::default()
        .insert_header(ContentType("application/bincode".parse().unwrap()))
        .to_http_request();

    let bc = resolve(
        BincodeBody::<MyObject>::new(req.content_type(), length_header(&req), None::<&Predicate>),
        get_test_bytes(),
    );
    assert_eq!(bc.ok().unwrap(), MyObject::default());
}

#[test]
fn test_with_bincode_and_bad_content_type() {
    let req = TestRequest::default()
        .insert_header(ContentType(actix_web::mime::TEXT_PLAIN))
        .app_data(Config::default().limit(4096))
        .to_http_request();

    let s = from_request(&req, get_test_bytes());
    assert!(s.is_err())
}

#[test]
fn test_with_bincode_and_good_custom_content_type() {
    let predicate: Predicate = Box::new(|mime: &str| mime == "text/plain");
    let req = TestRequest::default()
        .insert_header(ContentType(actix_web::mime::TEXT_PLAIN))
        .app_data(Config::default().content_type_raw(predicate))
        .to_http_request();

    let s = from_request(&req, get_test_bytes());
    assert!(s.is_ok())
}

#[test]
fn test_with_bincode_and_bad_custom_content_type() {
    let predicate: Predicate = Box::new(|mime: &str| mime == "text/plain");
    let req = TestRequest::default()
        .insert_header(ContentType(actix_web::mime::TEXT_HTML))
        .app_data(Config::default().content_type_raw(predicate))
        .to_http_request();

    let s = from_request(&req, get_test_bytes());
    assert!(s.is_err())
}

#[test]
fn test_with_config_in_data_wrapper() {
    let req = TestRequest::default()
        .insert_header(ContentType("application/bincode".parse().unwrap()))
        .app_data(web::Data::new(Config::default().limit(10)))
        .to_http_request();

    let s = from_request(&req, get_test_bytes());
    assert!(s.is_err());

    let err_str = s.err().unwrap().to_string();
    assert!(err_str.contains("Bincode payload size is bigger than allowed"));
}

#[test]
fn the_wrapper_gives_way_to_its_value() {
    let mut data = Bincode(MyObject::default());
    assert_eq!(data.name, "test");
    assert_eq!(data.number, 7);
    data.number = 8;
    data.name.push('s');
    assert_eq!(
        data.into_inner(),
        MyObject {
            name: "tests".to_owned(),
            number: 8
        }
    );
}

#[test]
fn default_configuration_accepts_the_test_object() {
    // 16 bytes: under the 32 KiB of a configuration, under the 256 KiB of a body.
    let bytes = get_test_bytes();
    assert_eq!(bytes.len(), 16);
    let with_config = Bincode::<MyObject>::from_request(
        &Config::default(),
        "application/bincode",
        Some("16"),
    );
    assert_eq!(resolve(with_config, bytes.clone()).unwrap(), MyObject::default());
    let without = BincodeBody::<MyObject>::new("application/bincode", None, None::<&Predicate>);
    assert_eq!(resolve(without, bytes).unwrap(), MyObject::default());
}

#[test]
fn the_two_default_limits_differ() {
    // 40,000 bytes of payload: past the 32 KiB that a configuration sets,
    // within the 256 KiB that a body has on its own.
    let payload = vec![0u8; 40_000];
    let with_config = Bincode::<Vec<u8>>::from_request(
        &Config::default(),
        "application/bincode",
        None,
    );
    let (body, read) = with_config.drain(&[payload.clone()]);
    assert_eq!(read, 1);
    assert_eq!(body.phase(), Phase::Failed);
    let outcome = body.decode(|bytes: &[u8]| bincode::deserialize(bytes));
    assert_eq!(outcome.unwrap().err().unwrap().kind(), FailureKind::Overflow);

    let without = BincodeBody::<Vec<u8>>::new("application/bincode", None, None::<&Predicate>);
    let (body, read) = without.drain(&[payload]);
    assert_eq!(read, 1);
    assert_eq!(body.phase(), Phase::Complete);
    assert_eq!(body.bytes().len(), 40_000);
}

#[test]
fn handler_answers_for_every_failure() {
    let fixed = "the application's own answer";
    let handler: Handler = Box::new(move |_, _| actix_web::error::ErrorImATeapot(fixed));
    let req = TestRequest::default().to_http_request();
    let failures = vec![
        BincodePayloadError::Overflow,
        BincodePayloadError::ContentType,
        BincodePayloadError::Deserialize(bincode::deserialize::<u8>(&[]).err().unwrap()),
        BincodePayloadError::Payload(actix_web::error::PayloadError::EncodingCorrupted),
    ];
    for failure in failures {
        let got = Bincode::<MyObject>::from_outcome(Err(failure), Some(&handler), &req);
        match got {
            Err(Rejection::Handled(error)) => {
                assert_eq!(error.to_string(), fixed);
                assert_eq!(error.as_response_error().status_code().as_u16(), 418);
            }
            _ => panic!("the handler was passed over"),
        }
    }
}

#[test]
fn without_a_handler_the_failure_comes_back() {
    let req = TestRequest::default().to_http_request();
    let got = Bincode::<MyObject>::from_outcome(
        Err(BincodePayloadError::Overflow),
        None::<&Handler>,
        &req,
    );
    match got {
        Err(Rejection::Unhandled(failure)) => {
            assert_eq!(failure.kind(), FailureKind::Overflow);
            assert_eq!(failure.status_code(), 413);
        }
        _ => panic!("expected the failure itself"),
    }
    let got = Bincode::from_outcome(Ok(MyObject::default()), None::<&Handler>, &req);
    assert_eq!(got.ok().unwrap().into_inner(), MyObject::default());
}

#[test]
fn direct_configuration_goes_before_shared_and_fallback() {
    let direct = Config::default().limit(1);
    let shared = Config::default().limit(2);
    let fallback = Config::default().limit(3);
    assert_eq!(Config::from_req(Some(&direct), Some(&shared), &fallback).limit, 1);
    assert_eq!(Config::from_req(Some(&direct), None, &fallback).limit, 1);
    assert_eq!(Config::from_req(None, Some(&shared), &fallback).limit, 2);
    assert_eq!(Config::from_req(None, None, &fallback).limit, 3);

    let req = TestRequest::default()
        .app_data(Config::default().limit(1))
        .app_data(web::Data::new(Config::default().limit(2)))
        .to_http_request();
    assert_eq!(config_of(&req, &fallback).limit, 1);
    let req = TestRequest::default()
        .app_data(web::Data::new(Config::default().limit(2)))
        .to_http_request();
    assert_eq!(config_of(&req, &fallback).limit, 2);
    let req = TestRequest::default().to_http_request();
    assert_eq!(config_of(&req, &Config::default()).limit, 32_768);
}
