use vstd::prelude::*;

verus! {

/// The failure kinds of a catalog fetch.  Every failure is fatal to the
/// current fetch: there is no partial-success mode, and none of these is
/// retried by this crate.
#[derive(Clone, Copy, Debug, PartialEq, Eq, Structural)]
pub enum Error {
    /// The API credential is absent; raised before any network activity.
    Configuration,
    /// A network or connection failure while issuing a request.
    Transport,
    /// A non-success HTTP status from the API; carries the status code.
    Protocol(u16),
    /// The response body does not match the expected schema, including an
    /// unrecognized game-variant-type id met by the flavor classifier.
    Decode,
}

} // verus!
