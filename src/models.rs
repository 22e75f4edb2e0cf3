//! The snapshot of the network that the daemon's resource listing describes.
use vstd::prelude::*;

verus! {

/// A snapshot of the network: the user, the security settings and the
/// resources the user can reach. Replaced wholesale on each fetch.
#[derive(Debug, Clone)]
pub struct Network {
    pub admin_url: String,
    pub full_tunnel_time_limit: u64,
    pub internet_security: InternetSecurity,
    pub resources: Vec<Resource>,
    pub user: User,
}

#[derive(Debug, Clone)]
pub struct InternetSecurity {
    pub mode: i32,
    pub status: i32,
}

/// A resource of the network. `auth_expires_at` is in milliseconds; 0 means
/// that the resource was never authenticated.
#[derive(Debug, Clone)]
pub struct Resource {
    pub address: String,
    pub admin_url: String,
    pub alias: Option<String>,
    pub aliases: Vec<Alias>,
    pub auth_expires_at: i64,
    pub auth_flow_id: String,
    pub auth_state: String,
    pub can_open_in_browser: bool,
    pub client_visibility: i32,
    pub id: String,
    pub name: String,
    pub open_url: String,
    pub resource_type: String,
}

#[derive(Debug, Clone)]
pub struct Alias {
    pub address: String,
    pub open_url: String,
}

#[derive(Debug, Clone)]
pub struct User {
    pub avatar_url: String,
    pub email: String,
    pub first_name: String,
    pub id: String,
    pub is_admin: bool,
    pub last_name: String,
}

} // verus!
