use actix_bincode::{BincodeError, BincodePayloadError, FailureKind};
use actix_web::error::PayloadError;

fn codec_error() -> bincode::Error {
    bincode::deserialize::<bool>(&[7]).err().unwrap()
}

#[test]
fn overflow_says_that_the_payload_is_too_big() {
    assert_eq!(
        BincodePayloadError::Overflow.to_string(),
        "Bincode payload size is bigger than allowed\n"
    );
}

#[test]
fn content_type_failure_says_so() {
    assert_eq!(
        BincodePayloadError::ContentType.to_string(),
        "Content type error\n"
    );
}

#[test]
fn deserialize_failure_holds_the_codec_message() {
    let cause = codec_error();
    let expected = format!("Bincode deserialize error: {}\n", cause);
    assert_eq!(
        expected,
        "Bincode deserialize error: invalid u8 while decoding bool, expected 0 or 1, found 7\n"
    );
    assert_eq!(BincodePayloadError::Deserialize(cause).to_string(), expected);
}

#[test]
fn payload_failure_holds_the_transport_cause() {
    let expected = format!(
        "Error that occur during reading payload: {:?}\n",
        PayloadError::Overflow
    );
    assert_eq!(expected, "Error that occur during reading payload: Overflow\n");
    assert_eq!(
        BincodePayloadError::Payload(PayloadError::Overflow).to_string(),
        expected
    );
    assert_eq!(
        BincodePayloadError::Payload(PayloadError::Incomplete(None)).to_string(),
        "Error that occur during reading payload: Incomplete(None)\n"
    );
}

#[test]
fn messages_are_built_from_kind_and_cause() {
    assert_eq!(
        FailureKind::Overflow.render("ignored"),
        "Bincode payload size is bigger than allowed\n"
    );
    assert_eq!(FailureKind::ContentType.render("ignored"), "Content type error\n");
    assert_eq!(
        FailureKind::Deserialize.render("bad tag"),
        "Bincode deserialize error: bad tag\n"
    );
    assert_eq!(
        FailureKind::Payload.render("Overflow"),
        "Error that occur during reading payload: Overflow\n"
    );
    assert_eq!(FailureKind::Deserialize.render(""), "Bincode deserialize error: \n");
}

#[test]
fn only_overflow_is_too_large() {
    assert_eq!(BincodePayloadError::Overflow.status_code(), 413);
    assert_eq!(BincodePayloadError::ContentType.status_code(), 400);
    assert_eq!(BincodePayloadError::Deserialize(codec_error()).status_code(), 400);
    assert_eq!(
        BincodePayloadError::Payload(PayloadError::UnknownLength).status_code(),
        400
    );
    assert_eq!(FailureKind::Overflow.status_code(), 413);
    assert_eq!(FailureKind::ContentType.status_code(), 400);
    assert_eq!(FailureKind::Deserialize.status_code(), 400);
    assert_eq!(FailureKind::Payload.status_code(), 400);
}

#[test]
fn each_failure_has_its_kind() {
    assert_eq!(BincodePayloadError::Overflow.kind(), FailureKind::Overflow);
    assert_eq!(BincodePayloadError::ContentType.kind(), FailureKind::ContentType);
    assert_eq!(
        BincodePayloadError::Deserialize(codec_error()).kind(),
        FailureKind::Deserialize
    );
    assert_eq!(
        BincodePayloadError::Payload(PayloadError::Overflow).kind(),
        FailureKind::Payload
    );
}

#[test]
fn outside_errors_convert() {
    let failure: BincodePayloadError = codec_error().into();
    assert_eq!(failure.kind(), FailureKind::Deserialize);
    let failure: BincodePayloadError = PayloadError::EncodingCorrupted.into();
    match failure {
        BincodePayloadError::Payload(PayloadError::EncodingCorrupted) => {}
        _ => panic!("expected the payload error"),
    }
}

#[test]
fn an_encoding_error_is_an_internal_error() {
    let cause = codec_error();
    let text = cause.to_string();
    let error = BincodeError::from(cause);
    assert_eq!(error.status_code(), 500);
    assert_eq!(error.0.to_string(), text);
}
