//! Users and their application tiles, on the organization-based surface.

use vstd::prelude::*;

verus! {

/// An application tile of a user.
#[derive(Debug, Clone, PartialEq)]
pub struct AppLink {
    pub id: String,
    pub label: String,
    pub link_url: String,
    pub app_name: String,
}

/// The user a response describes.
#[derive(Debug, Clone, PartialEq)]
pub struct User {
    pub id: String,
    pub profile: UserProfile,
}

/// Descriptive profile data of a user.
#[derive(Debug, Clone, PartialEq)]
pub struct UserProfile {
    pub login: String,
    pub first_name: String,
    pub last_name: String,
    pub locale: String,
    pub time_zone: String,
}

} // verus!
