//! The failures a bincode body can end in, what each one says and which
//! status it maps to.

use vstd::prelude::*;
use vstd::string::*;

verus! {

/// `bincode::ErrorKind`, what a `bincode::Error` boxes: held and handed on,
/// never looked into.
#[verifier::external_type_specification]
#[verifier::external_body]
pub struct ExCodecErrorKind(bincode::ErrorKind);

/// `actix_web::error::PayloadError`: held and handed on, never looked into.
#[verifier::external_type_specification]
#[verifier::external_body]
pub struct ExTransportError(actix_web::error::PayloadError);

/// Status sent when the payload is larger than the limit.
pub const PAYLOAD_TOO_LARGE: u16 = 413;

/// Status sent for every other failure of a request body.
pub const BAD_REQUEST: u16 = 400;

/// Status sent when a value cannot be encoded.
pub const INTERNAL_SERVER_ERROR: u16 = 500;

/// The categories of failure, without what caused them.
#[derive(Clone, Copy, PartialEq, Eq, Structural, Debug)]
pub enum FailureKind {
    /// The declared or accumulated size exceeds the limit.
    Overflow,
    /// The content type was not accepted.
    ContentType,
    /// The codec rejected the bytes.
    Deserialize,
    /// The stream reported a read failure.
    Payload,
}

impl FailureKind {
    /// The status of the response that a failure of this kind produces when
    /// no error handler is installed.
    pub open spec fn default_status(self) -> u16 {
        match self {
            FailureKind::Overflow => PAYLOAD_TOO_LARGE,
            _ => BAD_REQUEST,
        }
    }

    /// The text that comes before the cause in a failure's message.
    pub open spec fn headline(self) -> Seq<char> {
        match self {
            FailureKind::Overflow => "Bincode payload size is bigger than allowed"@,
            FailureKind::ContentType => "Content type error"@,
            FailureKind::Deserialize => "Bincode deserialize error: "@,
            FailureKind::Payload => "Error that occur during reading payload: "@,
        }
    }

    /// Whether failures of this kind carry a cause that is part of the message.
    pub open spec fn has_cause(self) -> bool {
        self == FailureKind::Deserialize || self == FailureKind::Payload
    }

    /// The message of a failure of this kind whose cause renders as `cause`:
    /// the headline, the cause where the kind has one, and a line break.
    pub open spec fn message(self, cause: Seq<char>) -> Seq<char> {
        if self.has_cause() {
            self.headline() + cause + "\n"@
        } else {
            self.headline() + "\n"@
        }
    }

    /// Builds the message of a failure of this kind from the rendered cause.
    pub fn render(self, cause: &str) -> (text: String)
        ensures
            text@ == self.message(cause@),
    {
        match self {
            FailureKind::Overflow => "Bincode payload size is bigger than allowed".to_owned().concat(
                "\n",
            ),
            FailureKind::ContentType => "Content type error".to_owned().concat("\n"),
            FailureKind::Deserialize => "Bincode deserialize error: ".to_owned().concat(
                cause,
            ).concat("\n"),
            FailureKind::Payload => "Error that occur during reading payload: ".to_owned().concat(
                cause,
            ).concat("\n"),
        }
    }

    /// The status of the response for a failure of this kind.
    pub fn status_code(self) -> (status: u16)
        ensures
            status == self.default_status(),
    {
        match self {
            FailureKind::Overflow => PAYLOAD_TOO_LARGE,
            _ => BAD_REQUEST,
        }
    }
}

/// Why a request body did not become a value.
#[derive(Debug)]
pub enum BincodePayloadError {
    /// Payload size is bigger than allowed.
    Overflow,
    /// Content type error.
    ContentType,
    /// The codec could not decode the bytes.
    Deserialize(bincode::Error),
    /// The stream failed while the body was read.
    Payload(actix_web::error::PayloadError),
}

/// `Display::fmt` of `bincode::ErrorKind`, through `format!`: the codec's own
/// wording of its error. Nothing is claimed about the text.
#[verifier::external_body]
fn codec_error_text(e: &bincode::Error) -> (text: String) {
    format!("{}", e)
}

/// `Debug::fmt` of `actix_web::error::PayloadError`, through `format!`: the
/// variant's name and what it holds. Nothing is claimed about the text.
#[verifier::external_body]
fn transport_error_text(e: &actix_web::error::PayloadError) -> (text: String) {
    format!("{:?}", e)
}

impl BincodePayloadError {
    /// The category of this failure.
    pub open spec fn failure_kind(self) -> FailureKind {
        match self {
            BincodePayloadError::Overflow => FailureKind::Overflow,
            BincodePayloadError::ContentType => FailureKind::ContentType,
            BincodePayloadError::Deserialize(_) => FailureKind::Deserialize,
            BincodePayloadError::Payload(_) => FailureKind::Payload,
        }
    }

    /// The category of this failure.
    pub fn kind(&self) -> (kind: FailureKind)
        ensures
            kind == self.failure_kind(),
    {
        match self {
            BincodePayloadError::Overflow => FailureKind::Overflow,
            BincodePayloadError::ContentType => FailureKind::ContentType,
            BincodePayloadError::Deserialize(_) => FailureKind::Deserialize,
            BincodePayloadError::Payload(_) => FailureKind::Payload,
        }
    }

    /// The status of the response that this failure produces by default:
    /// payload too large for an overflow, bad request for everything else.
    pub fn status_code(&self) -> (status: u16)
        ensures
            status == self.failure_kind().default_status(),
    {
        self.kind().status_code()
    }

    /// The message of this failure. For the two kinds without a cause the
    /// text is fixed; for the other two it is the headline, then the cause as
    /// the codec or the transport renders it, then a line break.
    pub fn to_string(&self) -> (text: String)
        ensures
            exists|cause: Seq<char>| text@ == self.failure_kind().message(cause),
            !self.failure_kind().has_cause() ==> text@ == self.failure_kind().headline() + "\n"@,
    {
        match self {
            BincodePayloadError::Overflow => FailureKind::Overflow.render(""),
            BincodePayloadError::ContentType => FailureKind::ContentType.render(""),
            BincodePayloadError::Deserialize(inner) => {
                let cause = codec_error_text(inner);
                FailureKind::Deserialize.render(cause.as_str())
            },
            BincodePayloadError::Payload(inner) => {
                let cause = transport_error_text(inner);
                FailureKind::Payload.render(cause.as_str())
            },
        }
    }
}

impl From<bincode::Error> for BincodePayloadError {
    fn from(e: bincode::Error) -> (failure: Self) {
        BincodePayloadError::Deserialize(e)
    }
}

impl vstd::std_specs::convert::FromSpecImpl<bincode::Error> for BincodePayloadError {
    open spec fn obeys_from_spec() -> bool {
        true
    }

    open spec fn from_spec(e: bincode::Error) -> Self {
        BincodePayloadError::Deserialize(e)
    }
}

impl From<actix_web::error::PayloadError> for BincodePayloadError {
    fn from(e: actix_web::error::PayloadError) -> (failure: Self) {
        BincodePayloadError::Payload(e)
    }
}

impl vstd::std_specs::convert::FromSpecImpl<actix_web::error::PayloadError> for BincodePayloadError {
    open spec fn obeys_from_spec() -> bool {
        true
    }

    open spec fn from_spec(e: actix_web::error::PayloadError) -> Self {
        BincodePayloadError::Payload(e)
    }
}

/// The codec's error where a value could not be encoded.
#[derive(Debug)]
pub struct BincodeError(pub bincode::Error);

impl BincodeError {
    /// The status of the response that this error produces: internal server
    /// error.
    pub fn status_code(&self) -> (status: u16)
        ensures
            status == INTERNAL_SERVER_ERROR,
    {
        INTERNAL_SERVER_ERROR
    }
}

impl From<bincode::Error> for BincodeError {
    fn from(e: bincode::Error) -> (error: Self) {
        BincodeError(e)
    }
}

impl vstd::std_specs::convert::FromSpecImpl<bincode::Error> for BincodeError {
    open spec fn obeys_from_spec() -> bool {
        true
    }

    open spec fn from_spec(e: bincode::Error) -> Self {
        BincodeError(e)
    }
}

} // verus!
