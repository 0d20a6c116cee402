//! Bincode request bodies: a bounded decoder for a chunked byte stream, its
//! configuration and its failures.
//!
//! A request goes through these steps, in this order:
//!
//! 1. `BincodeConfig::from_req` picks the configuration.
//! 2. `Bincode::from_request` checks the declared content type and reads the
//!    length hint; what comes out is a `BincodeBody`, gated or failed.
//! 3. `BincodeBody::start` holds the length hint against the limit.
//! 4. `BincodeBody::feed` takes the stream item by item, for as long as the
//!    body drains; `BincodeBody::drain` does the same for chunks that are
//!    already in memory.
//! 5. `BincodeBody::decode` hands the bytes of a complete body to the codec.
//! 6. `Bincode::from_outcome` wraps the value, or lets the installed handler
//!    answer for the failure.
//!
//! Nothing of this reads from a socket or waits: the caller polls its stream
//! and hands over what came.

use vstd::prelude::*;

pub mod accept;
pub mod body;
pub mod buffer;
pub mod codec;
pub mod config;
pub mod error;
pub mod hint;
pub mod response;

pub use body::{BincodeBody, Phase};
pub use config::BincodeConfig;
pub use error::{BincodeError, BincodePayloadError, FailureKind};
pub use response::Reply;

use accept::decided;
use actix_web::HttpRequest;
use body::initial_body;
use hint::length_hint;

verus! {

/// A value that travels as a bincode payload.
pub struct Bincode<T>(pub T);

impl<T> std::ops::Deref for Bincode<T> {
    type Target = T;

    fn deref(&self) -> (inner: &T)
        ensures
            *inner == self.0,
    {
        &self.0
    }
}

impl<T> std::ops::DerefMut for Bincode<T> {
    fn deref_mut(&mut self) -> (inner: &mut T)
        ensures
            *inner == old(self).0,
            final(self).0 == *final(inner),
    {
        &mut self.0
    }
}

/// What a request is refused with.
pub enum Rejection {
    /// The error that the installed handler made of the failure.
    Handled(actix_web::Error),
    /// The failure itself, where no handler is installed.
    Unhandled(BincodePayloadError),
}

impl<T> Bincode<T> {
    /// Unwraps the carried value.
    pub fn into_inner(self) -> (inner: T)
        ensures
            inner == self.0,
    {
        self.0
    }

    /// Begins the body of a request under `config`: the content type is
    /// checked with the configuration's predicate, and the body gets the
    /// configuration's limit in place of its own default.
    pub fn from_request<P: Fn(&str) -> bool, H>(
        config: &BincodeConfig<P, H>,
        content_type: &str,
        content_length: Option<&str>,
    ) -> (body: BincodeBody<T>)
        requires
            config.content_type matches Some(p) ==> call_requires(p, (content_type,)),
        ensures
            body@.wf(),
            decided(
                content_type,
                match config.content_type {
                    Some(p) => Some(&p),
                    None => None,
                },
                body@.phase == Phase::Gated,
            ),
            body@ == initial_body(
                body@.phase == Phase::Gated,
                length_hint(content_length),
            ).with_limit(config.limit),
    {
        BincodeBody::new(content_type, content_length, config.content_type.as_ref()).limit(
            config.limit,
        )
    }

    /// Turns what a body resolved to into what the request handler gets. A
    /// value is wrapped and handed on. A failure goes to the installed
    /// handler, whose error is handed on as it is; without a handler the
    /// failure itself is handed on.
    pub fn from_outcome<H: Fn(BincodePayloadError, &HttpRequest) -> actix_web::Error>(
        outcome: Result<T, BincodePayloadError>,
        err_handler: Option<&H>,
        req: &HttpRequest,
    ) -> (extracted: Result<Self, Rejection>)
        requires
            outcome matches Err(failure) ==> (err_handler matches Some(handler) ==> call_requires(
                *handler,
                (failure, req),
            )),
        ensures
            outcome matches Ok(value) ==> extracted matches Ok(data) && data.0 == value,
            outcome matches Err(failure) ==> match err_handler {
                Some(handler) => extracted matches Err(Rejection::Handled(error)) && call_ensures(
                    *handler,
                    (failure, req),
                    error,
                ),
                None => extracted matches Err(Rejection::Unhandled(same)) && same == failure,
            },
    {
        match outcome {
            Ok(value) => Ok(Bincode(value)),
            Err(failure) => match err_handler {
                Some(handler) => Err(Rejection::Handled(handler(failure, req))),
                None => Err(Rejection::Unhandled(failure)),
            },
        }
    }
}

} // verus!
