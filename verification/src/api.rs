//! Types and decisions shared by the Octopus Energy API clients.
//!
//! The HTTP layer fetches bytes; everything the client decides — which URL
//! to request, what a status code means, what an authentication response
//! yields — is here, stated over plain values.

use vstd::prelude::*;

verus! {

/// A JWT token used for authenticated API requests.
#[derive(Clone, Debug, PartialEq, Eq)]
pub struct AuthToken(pub String);

/// An error communicating with the Octopus API.
#[derive(Clone, Debug, PartialEq)]
pub enum ApiError {
    /// There was an error making the HTTP request.
    HttpError(String),
    /// A GraphQL query returned an error.
    GraphQlErrors(Option<Vec<String>>),
    /// A REST API method returned an error status.
    RestError { status: u16, body: String },
    /// There was an error parsing a URL from a string.
    UrlParseError(String),
}

/// The type of meter, either electricity or gas.
#[derive(Clone, Copy, Debug, PartialEq, Eq, Structural)]
pub enum MeterType {
    Electricity,
    Gas,
}

/// The meter-point path segment of consumption URLs for a meter type.
pub open spec fn meter_type_path(meter_type: MeterType) -> Seq<char> {
    match meter_type {
        MeterType::Electricity => "electricity-meter-points"@,
        MeterType::Gas => "gas-meter-points"@,
    }
}

/// The tariffs path segment of unit-rate URLs for a meter type.
pub open spec fn meter_type_tariffs_path(meter_type: MeterType) -> Seq<char> {
    match meter_type {
        MeterType::Electricity => "electricity-tariffs"@,
        MeterType::Gas => "gas-tariffs"@,
    }
}

/// The plain name of a meter type, as written into point tags.
pub open spec fn meter_type_label(meter_type: MeterType) -> Seq<char> {
    match meter_type {
        MeterType::Electricity => "electricity"@,
        MeterType::Gas => "gas"@,
    }
}

impl MeterType {
    /// The meter-point path segment for this meter type.
    pub fn path_component(self) -> (r: &'static str)
        ensures
            r@ == meter_type_path(self),
    {
        match self {
            MeterType::Electricity => "electricity-meter-points",
            MeterType::Gas => "gas-meter-points",
        }
    }

    /// The tariffs path segment for this meter type.
    pub fn tariffs_path(self) -> (r: &'static str)
        ensures
            r@ == meter_type_tariffs_path(self),
    {
        match self {
            MeterType::Electricity => "electricity-tariffs",
            MeterType::Gas => "gas-tariffs",
        }
    }

    /// The plain name of this meter type.
    pub fn as_str(self) -> (r: &'static str)
        ensures
            r@ == meter_type_label(self),
    {
        match self {
            MeterType::Electricity => "electricity",
            MeterType::Gas => "gas",
        }
    }
}

/// The level of aggregation with which to group electricity or gas
/// consumption records.
#[derive(Clone, Copy, Debug, PartialEq, Eq, Structural)]
pub enum Grouping {
    Hour,
    Day,
    Week,
    Month,
    Quarter,
}

/// The query value naming a grouping.
pub open spec fn grouping_label(grouping: Grouping) -> Seq<char> {
    match grouping {
        Grouping::Hour => "hour"@,
        Grouping::Day => "day"@,
        Grouping::Week => "week"@,
        Grouping::Month => "month"@,
        Grouping::Quarter => "quarter"@,
    }
}

impl Grouping {
    /// The query value naming this grouping.
    pub fn as_str(self) -> (r: &'static str)
        ensures
            r@ == grouping_label(self),
    {
        match self {
            Grouping::Hour => "hour",
            Grouping::Day => "day",
            Grouping::Week => "week",
            Grouping::Month => "month",
            Grouping::Quarter => "quarter",
        }
    }
}

/// Decides the outcome of an authentication response: the token when the
/// query returned one, otherwise the query's errors.
pub fn auth_decision(token: Option<String>, errors: Option<Vec<String>>) -> (r: Result<
    AuthToken,
    ApiError,
>)
    ensures
        token matches Some(t) ==> r matches Ok(a) && a.0 == t,
        token is None ==> r == Err::<AuthToken, ApiError>(ApiError::GraphQlErrors(errors)),
{
    match token {
        Some(t) => Ok(AuthToken(t)),
        None => Err(ApiError::GraphQlErrors(errors)),
    }
}

/// Classifies a REST response: a success status hands the body on for
/// decoding, any other status becomes the REST error carrying it.
pub fn rest_response(status: u16, body: String) -> (r: Result<String, ApiError>)
    ensures
        200 <= status < 300 ==> r == Ok::<String, ApiError>(body),
        !(200 <= status < 300) ==> r == Err::<String, ApiError>(
            ApiError::RestError { status, body },
        ),
{
    if 200 <= status && status < 300 {
        Ok(body)
    } else {
        Err(ApiError::RestError { status, body })
    }
}

} // verus!
