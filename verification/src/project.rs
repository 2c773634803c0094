//! Projects: the tenants that events and credentials belong to.

use crate::time::Timestamp;
use vstd::prelude::*;
use vstd::string::*;

verus! {

/// A stored project. A project is never removed: deleting it clears `active`.
#[derive(Debug, Clone)]
pub struct Project {
    pub id: u128,
    pub name: String,
    pub active: bool,
    pub created_at: Timestamp,
    pub updated_at: Timestamp,
}

/// What is stored when a project is created.
#[derive(Debug, Clone)]
pub struct NewProject {
    pub name: String,
}

/// The changes to apply to a stored project; what is `None` stays as it is.
#[derive(Debug, Clone)]
pub struct UpdateProject {
    pub name: Option<String>,
    pub active: Option<bool>,
}

} // verus!
