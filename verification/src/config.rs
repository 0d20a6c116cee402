//! What an application can set for its bincode bodies.

use vstd::prelude::*;
use actix_web::HttpRequest;
use crate::error::BincodePayloadError;

verus! {

/// `actix_web::HttpRequest`: handed to the error handler, never looked into.
#[verifier::external_type_specification]
#[verifier::external_body]
pub struct ExHttpRequest(HttpRequest);

/// `actix_web::Error`: what the error handler returns, handed on as it is.
#[verifier::external_type_specification]
#[verifier::external_body]
pub struct ExTransportFailure(actix_web::Error);

/// The limit of a configuration in which none was set: 32 KiB.
pub const DEFAULT_CONFIG_LIMIT: usize = 32_768;

/// The settings for bincode bodies: the most bytes a body may hold, a
/// handler that turns a failure into the application's own error, and a
/// predicate that accepts further content types.
pub struct BincodeConfig<P, H> {
    /// The most bytes that a body may hold.
    pub limit: usize,
    /// Turns a failure into the error that the application answers with.
    pub err_handler: Option<H>,
    /// Accepts content types beyond the two fixed ones.
    pub content_type: Option<P>,
}

impl<P, H> Default for BincodeConfig<P, H> {
    /// The configuration in which nothing was set: a limit of 32 KiB, no
    /// error handler and no predicate.
    fn default() -> (config: Self)
        ensures
            config.limit == DEFAULT_CONFIG_LIMIT,
            config.err_handler is None,
            config.content_type is None,
    {
        BincodeConfig { limit: DEFAULT_CONFIG_LIMIT, err_handler: None, content_type: None }
    }
}

impl<P, H> BincodeConfig<P, H> {
    /// Sets the most bytes that a body may hold. The default is 32 KiB.
    pub fn limit(self, limit: usize) -> (config: Self)
        ensures
            config.limit == limit,
            config.err_handler == self.err_handler,
            config.content_type == self.content_type,
    {
        BincodeConfig { limit, err_handler: self.err_handler, content_type: self.content_type }
    }

    /// Installs the handler that turns a failure into the application's own
    /// error. It takes the place of one that was installed before.
    pub fn error_handler<F>(self, f: F) -> (config: BincodeConfig<P, F>) where
        F: Fn(BincodePayloadError, &HttpRequest) -> actix_web::Error + Send + Sync + 'static,

        ensures
            config.limit == self.limit,
            config.err_handler == Some(f),
            config.content_type == self.content_type,
    {
        BincodeConfig { limit: self.limit, err_handler: Some(f), content_type: self.content_type }
    }

    /// Installs the predicate that accepts content types beyond the two
    /// fixed ones. It takes the place of one that was installed before.
    pub fn content_type_raw<F>(self, predicate: F) -> (config: BincodeConfig<F, H>) where
        F: Fn(&str) -> bool + Send + Sync + 'static,

        ensures
            config.limit == self.limit,
            config.err_handler == self.err_handler,
            config.content_type == Some(predicate),
    {
        BincodeConfig {
            limit: self.limit,
            err_handler: self.err_handler,
            content_type: Some(predicate),
        }
    }

    /// Picks the configuration of a request: the one attached to it
    /// directly, else the one attached to it behind a shared handle, else
    /// the fallback. Exactly one of them is used; nothing is merged.
    pub fn from_req<'a>(
        direct: Option<&'a Self>,
        shared: Option<&'a Self>,
        fallback: &'a Self,
    ) -> (config: &'a Self)
        ensures
            config == match (direct, shared) {
                (Some(attached), _) => attached,
                (None, Some(attached)) => attached,
                (None, None) => fallback,
            },
    {
        match direct {
            Some(attached) => attached,
            None => match shared {
                Some(attached) => attached,
                None => fallback,
            },
        }
    }
}

} // verus!
