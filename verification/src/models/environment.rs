//! Environments and their variables.

use vstd::prelude::*;

verus! {

/// Response of `GET /environments`.
#[derive(Debug, PartialEq)]
pub struct ListEnvironmentsResponse {
    pub environments: Vec<EnvironmentSummary>,
}

/// One environment of a listing.
#[derive(Debug, PartialEq)]
pub struct EnvironmentSummary {
    pub id: String,
    pub uid: String,
    pub name: String,
    pub owner: String,
    pub created_at: String,
    pub updated_at: String,
    pub is_public: bool,
}

/// Response of `GET /environments/{id}`.
#[derive(Debug, PartialEq)]
pub struct GetEnvironmentResponse {
    pub environment: EnvironmentDetail,
}

/// An environment with all its variables.
#[derive(Debug, PartialEq)]
pub struct EnvironmentDetail {
    pub id: String,
    pub name: String,
    pub values: Vec<EnvironmentValue>,
}

/// A variable of an environment.
#[derive(Debug, PartialEq)]
pub struct EnvironmentValue {
    pub key: String,
    pub value: String,
    pub enabled: bool,
    /// `"default"` or `"secret"`.
    pub value_type: Option<String>,
}

} // verus!
