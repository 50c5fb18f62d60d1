//! Plain data carried between the session layer and the interface: SSH
//! connection parameters, session state, and the summaries shown in lists.

use vstd::prelude::*;

verus! {

/// Parameters of one SSH connection.
#[derive(Debug, Clone)]
pub struct SshConfig {
    pub host: String,
    pub port: u16,
    pub username: String,
    pub password: Option<String>,
    pub private_key_path: Option<String>,
    pub timeout: Option<u64>,
}

impl Default for SshConfig {
    fn default() -> (r: SshConfig)
        ensures
            r.host@ == "localhost"@,
            r.port == 22,
            r.username@ == "user"@,
            r.password is None,
            r.private_key_path is None,
            r.timeout == Some(30u64),
    {
        SshConfig {
            host: "localhost".to_owned(),
            port: 22,
            username: "user".to_owned(),
            password: None,
            private_key_path: None,
            timeout: Some(30),
        }
    }
}

/// Lifecycle of one session.
#[derive(Debug, Clone, PartialEq)]
pub enum SessionState {
    Disconnected,
    Connecting,
    Connected,
    Error(String),
}

/// A session summary for display.
#[derive(Debug, Clone)]
pub struct SessionInfo {
    pub name: String,
    pub host: String,
    pub port: u16,
    pub state: SessionState,
}

/// The outcome of probing a connection.
#[derive(Debug)]
pub struct ConnectionTestResult {
    pub success: bool,
    pub message: String,
    pub latency: Option<u64>,
}

/// One remote directory entry.
#[derive(Debug, Clone)]
pub struct FileInfo {
    pub name: String,
    pub size: u64,
    pub is_directory: bool,
    pub permissions: String,
    pub modified: String,
}

} // verus!
