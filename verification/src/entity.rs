//! Database records.

use vstd::prelude::*;

verus! {

/// A shop user. `created_time` is milliseconds since the Unix epoch.
pub struct User {
    pub id: i64,
    pub username: Option<String>,
    pub password: Option<String>,
    pub phone_number: Option<String>,
    pub is_phone_number_verified: Option<u8>,
    pub wx_open_id: Option<String>,
    pub enable: u8,
    pub created_time: i64,
}

/// An issued token pair. `issue_time` is milliseconds since the Unix epoch.
pub struct UserJwt {
    pub id: i64,
    pub user_id: i64,
    pub token_id: String,
    pub access_token: String,
    pub refresh_token: String,
    pub issue_time: i64,
}

pub struct AdminPermission {
    pub id: i64,
    pub admin_permission_group_id: i64,
    pub title: String,
    pub code: String,
    pub url: String,
}

pub struct AdminPermissionGroup {
    pub id: i64,
    pub name: String,
    pub parent_id: Option<i64>,
}

pub struct AdminRole {
    pub id: i64,
    pub name: String,
    pub code: String,
    pub description: Option<String>,
}

pub struct AdminRolePermission {
    pub admin_role_id: i64,
    pub admin_permission_id: i64,
}

/// An administrator. `created_time` is milliseconds since the Unix epoch.
pub struct AdminUser {
    pub id: i64,
    pub username: String,
    pub password: String,
    pub created_time: i64,
}

pub struct AdminUserRole {
    pub admin_user_id: i64,
    pub admin_role_id: i64,
}

} // verus!
