//! Records as the service returns them.

use vstd::prelude::*;

verus! {

/// A published version of a project, identified by `name` within it.
#[derive(Debug, Clone, PartialEq, Eq)]
pub struct Version {
    pub name: String,
    pub url: String,
}

/// A project. `code` is assigned by the service when the project is created
/// and identifies it from then on.
#[derive(Debug, Clone, PartialEq, Eq)]
pub struct Project {
    pub title: String,
    pub code: String,
    pub description: String,
    pub logo: Option<String>,
    pub versions: Vec<Version>,
}

/// A key issued by the service to a user.
#[derive(Debug, Clone, PartialEq, Eq)]
pub struct ApiKey {
    pub created_at: String,
    pub is_valid: bool,
    pub key: String,
}

/// The grant of `role_name` on the project `project_code`.
#[derive(Debug, Clone, PartialEq, Eq)]
pub struct Role {
    pub role_name: String,
    pub project_code: String,
}

/// A user, identified by `name`.
#[derive(Debug, Clone, PartialEq, Eq)]
pub struct User {
    pub name: String,
    pub is_admin: bool,
    pub created_at: String,
    pub api_keys: Vec<ApiKey>,
    pub roles: Vec<Role>,
}

} // verus!
