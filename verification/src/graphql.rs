//! The values that the operations of the API hand out, and the parts of the
//! operations that are plain decisions.

use crate::auth::AuthUser;
use crate::codec::string_member;
use crate::json::{as_str, member};
use vstd::prelude::*;
use vstd::string::StringExecFns;

verus! {

/// A request for a ride.
#[derive(Clone, Debug, PartialEq, Eq)]
pub struct RideRequest {
    pub pickup_location: String,
    pub dropoff_location: String,
}

/// A token with the time at which it expires.
#[derive(Clone, Debug, PartialEq, Eq)]
pub struct TokenResponse {
    pub token: String,
    pub expires_at: usize,
}

/// Why a mutation failed.
#[derive(Clone, Debug, PartialEq, Eq)]
pub enum MutationError {
    AuthError(String),
    InternalError(String),
    InvalidRequest(String),
}

/// The root of the queries.
#[derive(Clone, Copy, Debug, Default)]
pub struct Query;

/// The root of the mutations.
#[derive(Clone, Copy, Debug, Default)]
pub struct Mutation;

/// A [`RideRequest`] with its strings as character sequences.
pub struct RideRequestView {
    pub pickup_location: Seq<char>,
    pub dropoff_location: Seq<char>,
}

impl View for RideRequest {
    type V = RideRequestView;

    open spec fn view(&self) -> RideRequestView {
        RideRequestView {
            pickup_location: self.pickup_location@,
            dropoff_location: self.dropoff_location@,
        }
    }
}

/// The ride request that a JSON value describes: it needs the two locations
/// as strings.
pub open spec fn ride_request_of(v: serde_json::Value) -> Option<RideRequestView> {
    match string_member(v, "pickup_location"@) {
        None => None,
        Some(pickup_location) => match string_member(v, "dropoff_location"@) {
            None => None,
            Some(dropoff_location) => Some(RideRequestView { pickup_location, dropoff_location }),
        },
    }
}

/// The ride request that stands for one that is not stored anywhere.
pub open spec fn placeholder_ride() -> RideRequestView {
    RideRequestView { pickup_location: "0"@, dropoff_location: "0"@ }
}

impl MutationError {
    /// The text that the error is reported with.
    pub open spec fn message_spec(self) -> Seq<char> {
        match self {
            MutationError::AuthError(m) => "Authentication failed: "@ + m@,
            MutationError::InternalError(m) => "Internal server error: "@ + m@,
            MutationError::InvalidRequest(m) => "Invalid request: "@ + m@,
        }
    }

    /// The text that the error is reported with.
    pub fn message(&self) -> (r: String)
        ensures
            r@ == self.message_spec(),
    {
        match self {
            MutationError::AuthError(m) => "Authentication failed: ".to_owned().concat(m.as_str()),
            MutationError::InternalError(m) => "Internal server error: ".to_owned().concat(
                m.as_str(),
            ),
            MutationError::InvalidRequest(m) => "Invalid request: ".to_owned().concat(m.as_str()),
        }
    }
}

impl RideRequest {
    /// Reads a ride request out of the result of a call.
    pub fn from_value(v: &serde_json::Value) -> (r: Option<RideRequest>)
        ensures
            match r {
                Some(ride) => ride_request_of(*v) == Some(ride@),
                None => ride_request_of(*v) is None,
            },
    {
        let pickup_location = match member(v, "pickup_location") {
            Some(x) => match as_str(&x) {
                Some(s) => s.to_owned(),
                None => {
                    return None;
                },
            },
            None => {
                return None;
            },
        };
        let dropoff_location = match member(v, "dropoff_location") {
            Some(x) => match as_str(&x) {
                Some(s) => s.to_owned(),
                None => {
                    return None;
                },
            },
            None => {
                return None;
            },
        };
        Some(RideRequest { pickup_location, dropoff_location })
    }
}

impl Query {
    /// The ride requests of the authenticated user.
    pub fn user_ride_requests(&self, auth_user: Option<&AuthUser>) -> (r: Option<RideRequest>)
        requires
            auth_user is Some,
        ensures
            r matches Some(ride) && ride@ == placeholder_ride(),
    {
        Some(RideRequest { pickup_location: "0".to_owned(), dropoff_location: "0".to_owned() })
    }

    /// A ride request, for anyone who asks.
    pub fn ride_request(&self) -> (r: Option<RideRequest>)
        ensures
            r matches Some(ride) && ride@ == placeholder_ride(),
    {
        Some(RideRequest { pickup_location: "0".to_owned(), dropoff_location: "0".to_owned() })
    }
}

impl Mutation {
    /// The ride request between two locations.
    pub fn create_ride_request(&self, pickup_location: String, dropoff_location: String) -> (r:
        RideRequest)
        ensures
            r.pickup_location == pickup_location,
            r.dropoff_location == dropoff_location,
    {
        RideRequest { pickup_location, dropoff_location }
    }

    /// The answer to a request for a token.
    pub fn generate_token(&self, token: String, expires_at: usize) -> (r: TokenResponse)
        ensures
            r.token == token,
            r.expires_at == expires_at,
    {
        TokenResponse { token, expires_at }
    }
}

} // verus!
