//! Remote-session configuration and connection state. The transport
//! itself lives in the host; this module keeps the data and the state
//! transitions it can rely on.

use vstd::prelude::*;

verus! {

/// How to authenticate against a remote host.
#[derive(Clone, Debug)]
pub enum SshAuthMethod {
    /// A password.
    Password(String),
    /// A private key file, with an optional passphrase.
    PrivateKey { key_path: String, passphrase: Option<String> },
    /// An authentication agent.
    Agent,
}

/// Everything needed to open a remote terminal.
#[derive(Clone, Debug)]
pub struct SshConfig {
    pub host: String,
    pub port: u16,
    pub username: String,
    pub auth_method: SshAuthMethod,
    pub working_dir: String,
}

/// Where a remote session stands.
#[derive(Clone, Debug, PartialEq)]
pub enum ConnectionState {
    Disconnected,
    Connecting,
    Connected,
    /// The connection failed; the message describes why.
    Error(String),
}

/// A remote terminal pane: its configuration and connection state.
#[derive(Clone, Debug)]
pub struct RemoteTerminalView {
    pub config: SshConfig,
    pub connection_state: ConnectionState,
}

impl RemoteTerminalView {
    /// A pane for `config`, not yet connected.
    pub fn new(config: SshConfig) -> (r: Self)
        ensures
            r.config == config,
            r.connection_state is Disconnected,
    {
        RemoteTerminalView { config, connection_state: ConnectionState::Disconnected }
    }

    /// Begin connecting; the host's transport reports the outcome.
    pub fn connect(&mut self)
        ensures
            final(self).config == old(self).config,
            final(self).connection_state is Connecting,
    {
        self.connection_state = ConnectionState::Connecting;
    }

    /// Drop the connection.
    pub fn disconnect(&mut self)
        ensures
            final(self).config == old(self).config,
            final(self).connection_state is Disconnected,
    {
        self.connection_state = ConnectionState::Disconnected;
    }
}

} // verus!
