//! The one thing asked of the backend's client library without any I/O:
//! turning a connection URI into a client handle.

use vstd::prelude::*;

use crate::failure::{Failure, FailureView};

verus! {

/// `redis::Client`, a parsed connection target from which connections are
/// later opened. Opaque here: the library only hands it on to the driver.
#[verifier::external_type_specification]
#[verifier::external_body]
pub struct ExClient(redis::Client);

/// What `redis::Client::open` makes of `uri`: the client for it, or the
/// text of the error with which it refuses it. The client library decides
/// this from the text of the URI alone: it parses it and opens no
/// connection, and it builds each of its errors from fixed words and parts
/// of the URI. (What it accepts also depends on how it was built, with or
/// without TLS and Unix sockets, which one build of this crate fixes.)
pub uninterp spec fn client_opened(uri: Seq<char>) -> Result<redis::Client, Seq<char>>;

/// Calls `redis::Client::open` on `uri` and renders an error through its
/// `Display` form. Trusted: that the outcome is the one that
/// [`client_opened`] names, which says no more than that the client and the
/// error's text depend on the URI alone.
#[verifier::external_body]
fn open_client(uri: &str) -> (opened: Result<redis::Client, String>)
    ensures
        match opened {
            Ok(client) => client_opened(uri@) == Ok::<redis::Client, Seq<char>>(client),
            Err(text) => client_opened(uri@) == Err::<redis::Client, Seq<char>>(text@),
        },
{
    match redis::Client::open(uri) {
        Ok(client) => Ok(client),
        Err(error) => Err(error.to_string()),
    }
}

/// The failure that stands for an error of the backend: a
/// [`Failure::Backend`] that carries the error's own text, unchanged.
pub fn backend_failure(text: String) -> (failure: Failure)
    ensures
        failure@ == FailureView::Backend(text@),
{
    Failure::Backend(text)
}

/// Replaces the error text in the outcome of opening a client by the
/// [`Failure`] that stands for it; a client passes through untouched.
pub fn settle(opened: Result<redis::Client, String>) -> (settled: Result<redis::Client, Failure>)
    ensures
        match opened {
            Ok(client) => settled == Ok::<redis::Client, Failure>(client),
            Err(text) => settled matches Err(failure) && failure@ == FailureView::Backend(text@),
        },
{
    match opened {
        Ok(client) => Ok(client),
        Err(text) => Err(backend_failure(text)),
    }
}

/// Parses `uri` into a client handle without opening a connection.
///
/// Succeeds with the client library's client exactly on the URIs that it
/// accepts; on every other the failure is a [`Failure::Backend`] with the
/// text of the client library's error.
pub fn open_backend(uri: &str) -> (opened: Result<redis::Client, Failure>)
    ensures
        match client_opened(uri@) {
            Ok(client) => opened == Ok::<redis::Client, Failure>(client),
            Err(text) => opened matches Err(failure) && failure@ == FailureView::Backend(text),
        },
{
    settle(open_client(uri))
}

} // verus!
