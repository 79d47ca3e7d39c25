use vstd::prelude::*;

verus! {

/// The ways processing of an activity can fail.
#[derive(Debug, Clone, Copy, PartialEq, Eq, Structural)]
pub enum FederationError {
    MalformedPayload,
    SignatureInvalid,
    LocalOriginRejected,
    ActorUnresolvable,
    FetchLimitExceeded,
    DomainMismatch,
    NotAuthorized,
    NotFound,
    AlreadyProcessed,
    Internal,
}

/// The HTTP status each error kind is answered with.
pub open spec fn status_of(e: FederationError) -> u16 {
    match e {
        FederationError::MalformedPayload => 400,
        FederationError::SignatureInvalid => 401,
        FederationError::LocalOriginRejected => 403,
        FederationError::ActorUnresolvable => 404,
        FederationError::FetchLimitExceeded => 500,
        FederationError::DomainMismatch => 403,
        FederationError::NotAuthorized => 403,
        FederationError::NotFound => 404,
        FederationError::AlreadyProcessed => 200,
        FederationError::Internal => 500,
    }
}

impl FederationError {
    /// HTTP status code for this error at the inbox endpoint.
    pub fn status_code(&self) -> (r: u16)
        ensures
            r == status_of(*self),
    {
        match self {
            FederationError::MalformedPayload => 400,
            FederationError::SignatureInvalid => 401,
            FederationError::LocalOriginRejected => 403,
            FederationError::ActorUnresolvable => 404,
            FederationError::FetchLimitExceeded => 500,
            FederationError::DomainMismatch => 403,
            FederationError::NotAuthorized => 403,
            FederationError::NotFound => 404,
            FederationError::AlreadyProcessed => 200,
            FederationError::Internal => 500,
        }
    }
}

} // verus!
