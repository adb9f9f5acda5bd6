//! Configuration values the poll-loop programs are started with.
//!
//! Reading the configuration file is the HTTP layer's job; the values that
//! reach the library's logic are modeled here.

use vstd::prelude::*;

verus! {

/// Credentials for the Octopus API.
#[derive(Clone, Debug, PartialEq)]
pub struct OctopusConfig {
    pub email_address: String,
    pub password: String,
    pub account_id: String,
}

/// Where the solar gateway lives and how to authenticate to it.
#[derive(Clone, Debug, PartialEq)]
pub struct EnphaseConfig {
    /// The gateway's base URL, in its printed form.
    pub base_url: String,
    pub token: String,
}

/// Where the time-series sink lives and how to authenticate to it.
#[derive(Clone, Debug, PartialEq)]
pub struct InfluxDbConfig {
    /// The sink's URL, in its printed form.
    pub url: String,
    pub username: Option<String>,
    pub password: Option<String>,
    pub database: String,
    pub measurement: String,
}

impl Default for InfluxDbConfig {
    /// A local sink with no credentials, writing to the default database
    /// and measurement.
    fn default() -> (c: InfluxDbConfig)
        ensures
            c.url@ == "http://localhost:8086"@,
            c.username is None,
            c.password is None,
            c.database@ == "octopower"@,
            c.measurement@ == "octopower"@,
    {
        InfluxDbConfig {
            url: "http://localhost:8086".to_owned(),
            username: None,
            password: None,
            database: "octopower".to_owned(),
            measurement: "octopower".to_owned(),
        }
    }
}

/// How many consumption readings one import fetches when the
/// configuration does not say.
pub fn default_num_readings() -> (n: usize)
    ensures
        n == 1000,
{
    1000
}

} // verus!
