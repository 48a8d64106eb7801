//! The records that describe connections and tunnels.

use vstd::prelude::*;

verus! {

/// How a user proves who they are to a host.
#[derive(Debug, Clone)]
pub enum AuthMethod {
    Password { password: String },
    PrivateKey { key_path: String, passphrase: Option<String> },
}

/// One host to reach, with the host to go through first, if any.
#[derive(Debug)]
pub struct ConnectionConfig {
    pub id: String,
    pub name: String,
    pub host: String,
    pub port: u16,
    pub username: String,
    pub auth_method: AuthMethod,
    pub jump_host: Option<Box<ConnectionConfig>>,
}

/// What the user interface is told after an attempt to connect.
#[derive(Debug)]
pub struct ConnectionResponse {
    pub success: bool,
    pub message: String,
    pub term_id: Option<String>,
    pub detected_os: Option<String>,
}

/// A connection as it is kept between runs.
#[derive(Debug, Clone)]
pub struct SavedConnection {
    pub id: String,
    pub name: String,
    pub host: String,
    pub port: u16,
    pub username: String,
    pub password: Option<String>,
    pub private_key_path: Option<String>,
    pub jump_server_id: Option<String>,
    pub last_connected: Option<u64>,
    pub icon: Option<String>,
    pub folder: Option<String>,
    pub theme: Option<String>,
    pub tags: Option<Vec<String>>,
    pub created_at: Option<u64>,
    pub is_favorite: Option<bool>,
    pub pinned_features: Option<Vec<String>>,
}

/// A named group of saved connections.
#[derive(Debug, Clone)]
pub struct Folder {
    pub name: String,
    pub tags: Option<Vec<String>>,
}

/// Everything that is kept about connections.
#[derive(Debug)]
pub struct SavedData {
    pub connections: Vec<SavedConnection>,
    pub folders: Vec<Folder>,
}

/// A tunnel as it is kept between runs. `tunnel_type` is `"local"` or
/// `"remote"`; `original_port` is the port that was asked for when another one
/// had to be taken.
#[derive(Debug, Clone)]
pub struct SavedTunnel {
    pub id: String,
    pub connection_id: String,
    pub name: String,
    pub tunnel_type: String,
    pub local_port: u16,
    pub remote_host: String,
    pub remote_port: u16,
    pub bind_address: Option<String>,
    pub bind_to_any: Option<bool>,
    pub auto_start: Option<bool>,
    pub status: Option<String>,
    pub original_port: Option<u16>,
    pub group: Option<String>,
}

/// Everything that is kept about tunnels.
#[derive(Debug)]
pub struct SavedTunnelsData {
    pub tunnels: Vec<SavedTunnel>,
}

} // verus!
