//! The way out: what answers a request once a value has gone through the
//! codec.

use vstd::prelude::*;
use vstd::string::*;
use crate::accept::MEDIA_TYPE;
use crate::error::INTERNAL_SERVER_ERROR;

verus! {

/// Status of an answer that carries an encoded value.
pub const OK: u16 = 200;

/// Body of the answer to a request whose value could not be encoded.
pub const FAILURE_BODY: &'static str = "Internal Server Error";

/// Reason phrase of a built response whose value could not be encoded.
pub const FAILURE_REASON: &'static str = "unable to serialize bincode.";

/// An answer in plain values, for the transport to send.
pub struct Reply {
    /// The status code; `None` leaves the status of the response that is
    /// being built as it is.
    pub status: Option<u16>,
    /// The content type, where the answer declares one.
    pub content_type: Option<&'static str>,
    /// The reason phrase, where it is not the status's own.
    pub reason: Option<&'static str>,
    /// The body.
    pub body: Vec<u8>,
}

impl Reply {
    /// Whether this is the answer that carries `body` as a bincode payload
    /// under `status`.
    pub open spec fn carries(self, status: Option<u16>, body: Seq<u8>) -> bool {
        &&& self.status == status
        &&& self.content_type matches Some(declared) && declared@ == "application/bincode"@
        &&& self.reason is None
        &&& self.body@ == body
    }

    /// Whether this is an internal server error with reason phrase `reason`
    /// and body `body`, and no content type.
    pub open spec fn fails(self, reason: Option<Seq<char>>, body: Seq<u8>) -> bool {
        &&& self.status == Some(INTERNAL_SERVER_ERROR)
        &&& self.content_type is None
        &&& match (self.reason, reason) {
            (Some(given), Some(expected)) => given@ == expected,
            (None, None) => true,
            _ => false,
        }
        &&& self.body@ == body
    }

    /// The answer of a handler whose value went through the codec: the
    /// encoded value under status 200 and the bincode media type, or an
    /// internal server error with a fixed text. The codec's error is handed
    /// back beside the answer, for the caller to report.
    pub fn answer(encoded: Result<Vec<u8>, bincode::Error>) -> (sent: (Reply, Option<bincode::Error>))
        ensures
            match encoded {
                Ok(body) => sent.0.carries(Some(OK), body@) && sent.1 is None,
                Err(cause) => sent.0.fails(None, "Internal Server Error".spec_bytes()) && sent.1
                    == Some(cause),
            },
    {
        match encoded {
            Ok(body) => (
                Reply { status: Some(OK), content_type: Some(MEDIA_TYPE), reason: None, body },
                None,
            ),
            Err(cause) => (
                Reply {
                    status: Some(INTERNAL_SERVER_ERROR),
                    content_type: None,
                    reason: None,
                    body: FAILURE_BODY.as_bytes_vec(),
                },
                Some(cause),
            ),
        }
    }

    /// The answer of a response that is being built, whose value went
    /// through the codec: the encoded value under the bincode media type,
    /// with the status left as it is, or an internal server error with its
    /// own reason phrase and no body. The codec's error is handed back
    /// beside the answer, for the caller to report.
    pub fn built(encoded: Result<Vec<u8>, bincode::Error>) -> (sent: (Reply, Option<bincode::Error>))
        ensures
            match encoded {
                Ok(body) => sent.0.carries(None, body@) && sent.1 is None,
                Err(cause) => sent.0.fails(
                    Some("unable to serialize bincode."@),
                    Seq::<u8>::empty(),
                ) && sent.1 == Some(cause),
            },
    {
        match encoded {
            Ok(body) => (
                Reply { status: None, content_type: Some(MEDIA_TYPE), reason: None, body },
                None,
            ),
            Err(cause) => (
                Reply {
                    status: Some(INTERNAL_SERVER_ERROR),
                    content_type: None,
                    reason: Some(FAILURE_REASON),
                    body: Vec::new(),
                },
                Some(cause),
            ),
        }
    }
}

} // verus!
