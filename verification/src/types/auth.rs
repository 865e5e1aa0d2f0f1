//! Types for authentication: login, token refresh, and tenant settings.

use vstd::prelude::*;
use std::collections::HashMap;

verus! {

#[derive(Clone, Copy, Debug, PartialEq, Eq, Structural)]
pub enum UserRole {
    Admin,
    Manager,
    Agent,
    Viewer,
}

#[derive(Clone, Copy, Debug, PartialEq, Eq, Structural)]
pub enum UserStatus {
    Active,
    Inactive,
    Pending,
    Suspended,
}

#[derive(Clone, Debug)]
pub struct TenantSettings {
    pub timezone: Option<String>,
    pub language: Option<String>,
    pub date_format: Option<String>,
    pub business_hours: Option<BusinessHours>,
    pub notifications: Option<NotificationSettings>,
}

#[derive(Clone, Debug)]
pub struct BusinessHours {
    pub enabled: bool,
    pub timezone: Option<String>,
    pub schedule: Option<HashMap<String, DaySchedule>>,
}

#[derive(Clone, Debug)]
pub struct DaySchedule {
    pub enabled: bool,
    pub start: Option<String>,
    pub end: Option<String>,
}

#[derive(Clone, Debug)]
pub struct NotificationSettings {
    pub email: bool,
    pub push: bool,
    pub sound: bool,
}

#[derive(Clone, Debug)]
pub struct LoginInput {
    pub email: String,
    pub password: String,
}

impl LoginInput {
    pub fn new(email: &str, password: &str) -> (l: Self)
        ensures
            l.email@ == email@,
            l.password@ == password@,
    {
        LoginInput { email: email.to_owned(), password: password.to_owned() }
    }
}

#[derive(Clone, Debug)]
pub struct RefreshTokenInput {
    pub refresh_token: String,
}

#[derive(Clone, Debug)]
pub struct RefreshTokenResponse {
    pub access_token: String,
    pub refresh_token: String,
    pub expires_in: i64,
}

} // verus!
