//! The domain records: tunnels, ports, users, clusters, access entries and
//! the typed requests of each operation.

use vstd::prelude::*;

verus! {

/// How a forwarded port speaks.
#[derive(Debug, Clone, Copy, PartialEq, Eq, Structural)]
pub enum Protocol {
    Http,
    Https,
    Auto,
}

/// The state of a tunnel.
#[derive(Debug, Clone, Copy, PartialEq, Eq, Structural)]
pub enum TunnelStatus {
    Active,
    Stopped,
    Expired,
    Error,
}

/// Who vouches for the user.
#[derive(Debug, Clone, Copy, PartialEq, Eq, Structural)]
pub enum AuthProvider {
    Microsoft,
    GitHub,
}

/// A port forwarded by a tunnel.
#[derive(Debug, Clone, PartialEq, Eq)]
pub struct Port {
    pub port_number: u16,
    pub protocol: Protocol,
    pub description: Option<String>,
    pub port_forwarding_uris: Option<Vec<String>>,
    pub inspect_uri: Option<String>,
}

/// A port, as contracts speak of it.
pub ghost struct PortView {
    pub port_number: u16,
    pub protocol: Protocol,
    pub description: Option<Seq<char>>,
    pub port_forwarding_uris: Option<Seq<Seq<char>>>,
    pub inspect_uri: Option<Seq<char>>,
}

impl DeepView for Port {
    type V = PortView;

    open spec fn deep_view(&self) -> PortView {
        PortView {
            port_number: self.port_number,
            protocol: self.protocol,
            description: self.description.deep_view(),
            port_forwarding_uris: self.port_forwarding_uris.deep_view(),
            inspect_uri: self.inspect_uri.deep_view(),
        }
    }
}

/// What a reachability probe of a port URL found. A failed probe is a
/// result like any other.
#[derive(Debug, Clone, PartialEq, Eq)]
pub struct PingResult {
    pub success: bool,
    pub status_code: Option<u16>,
    pub response_time_ms: u64,
    pub error: Option<String>,
}

/// A probe result, as contracts speak of it.
pub ghost struct PingResultView {
    pub success: bool,
    pub status_code: Option<u16>,
    pub response_time_ms: u64,
    pub error: Option<Seq<char>>,
}

impl DeepView for PingResult {
    type V = PingResultView;

    open spec fn deep_view(&self) -> PingResultView {
        PingResultView {
            success: self.success,
            status_code: self.status_code,
            response_time_ms: self.response_time_ms,
            error: self.error.deep_view(),
        }
    }
}

/// A tunnel with its full detail.
#[derive(Debug, Clone, PartialEq, Eq)]
pub struct Tunnel {
    pub tunnel_id: String,
    pub cluster_id: Option<String>,
    pub domain: Option<String>,
    pub description: Option<String>,
    pub tags: Option<Vec<String>>,
    pub ports: Vec<Port>,
    pub status: TunnelStatus,
    pub created_at: Option<String>,
    pub expires_at: Option<String>,
    pub allow_anonymous: Option<bool>,
}

/// A tunnel as the listing shows it. `ports` stays empty until the
/// per-tunnel detail has been merged in.
#[derive(Debug, Clone, PartialEq, Eq)]
pub struct TunnelListItem {
    pub tunnel_id: String,
    pub description: Option<String>,
    pub tags: Option<Vec<String>>,
    pub ports: Vec<u16>,
    pub status: TunnelStatus,
    pub expires_at: Option<String>,
}

/// A listed tunnel, as contracts speak of it.
pub ghost struct TunnelListItemView {
    pub tunnel_id: Seq<char>,
    pub description: Option<Seq<char>>,
    pub tags: Option<Seq<Seq<char>>>,
    pub ports: Seq<u16>,
    pub status: TunnelStatus,
    pub expires_at: Option<Seq<char>>,
}

impl DeepView for TunnelListItem {
    type V = TunnelListItemView;

    open spec fn deep_view(&self) -> TunnelListItemView {
        TunnelListItemView {
            tunnel_id: self.tunnel_id@,
            description: self.description.deep_view(),
            tags: self.tags.deep_view(),
            ports: self.ports@,
            status: self.status,
            expires_at: self.expires_at.deep_view(),
        }
    }
}

/// What to create a tunnel with. Everything is optional; a tunnel
/// without an identifier is given one by the tool.
#[derive(Debug, Clone, PartialEq, Eq)]
pub struct CreateTunnelRequest {
    pub tunnel_id: Option<String>,
    pub description: Option<String>,
    pub tags: Option<Vec<String>>,
    pub allow_anonymous: Option<bool>,
    pub expiration: Option<String>,
}

/// Which tunnel to host, and how. The ports and the protocol are not
/// passed on: they belong to the ports of the tunnel, which exist before
/// it is hosted.
#[derive(Debug, Clone, PartialEq, Eq)]
pub struct HostTunnelRequest {
    pub tunnel_id: Option<String>,
    pub ports: Vec<u16>,
    pub protocol: Option<Protocol>,
    pub allow_anonymous: Option<bool>,
    pub expiration: Option<String>,
}

/// Which port to add to which tunnel.
#[derive(Debug, Clone, PartialEq, Eq)]
pub struct CreatePortRequest {
    pub tunnel_id: String,
    pub port_number: u16,
    pub protocol: Option<Protocol>,
    pub description: Option<String>,
}

/// What to change about a port: its description, its protocol, or both.
#[derive(Debug, Clone, PartialEq, Eq)]
pub struct UpdatePortRequest {
    pub tunnel_id: String,
    pub port_number: u16,
    pub description: Option<String>,
    pub protocol: Option<Protocol>,
}

/// Who is logged in. Read off one line of text; where the line is missing
/// nobody is logged in.
#[derive(Debug, Clone, PartialEq, Eq)]
pub struct UserInfo {
    pub user_id: String,
    pub user_name: Option<String>,
    pub email: Option<String>,
    pub provider: AuthProvider,
    pub is_authenticated: bool,
}

/// A user, as contracts speak of it.
pub ghost struct UserInfoView {
    pub user_id: Seq<char>,
    pub user_name: Option<Seq<char>>,
    pub email: Option<Seq<char>>,
    pub provider: AuthProvider,
    pub is_authenticated: bool,
}

impl DeepView for UserInfo {
    type V = UserInfoView;

    open spec fn deep_view(&self) -> UserInfoView {
        UserInfoView {
            user_id: self.user_id@,
            user_name: self.user_name.deep_view(),
            email: self.email.deep_view(),
            provider: self.provider,
            is_authenticated: self.is_authenticated,
        }
    }
}

/// A cluster of the service. The latency is known only where a ping was
/// asked for.
#[derive(Debug, Clone, PartialEq, Eq)]
pub struct Cluster {
    pub cluster_id: String,
    pub uri: String,
    pub region: Option<String>,
    pub latency: Option<u64>,
}

/// The uniform outcome envelope: either the data of a success or the
/// message of a failure, never both.
#[derive(Debug, Clone, PartialEq, Eq)]
pub struct CommandResponse<T> {
    pub success: bool,
    pub data: Option<T>,
    pub error: Option<String>,
}

impl<T> CommandResponse<T> {
    /// An envelope is well formed when it carries data exactly if it
    /// reports success, and an error exactly if it does not.
    pub open spec fn wf(self) -> bool {
        &&& self.success <==> self.data is Some
        &&& self.success <==> self.error is None
    }

    /// The envelope of a success.
    pub fn success(data: T) -> (r: Self)
        ensures
            r.success,
            r.data == Some(data),
            r.error is None,
            r.wf(),
    {
        Self { success: true, data: Some(data), error: None }
    }

    /// The envelope of a failure.
    pub fn error(message: String) -> (r: Self)
        ensures
            !r.success,
            r.data is None,
            r.error == Some(message),
            r.wf(),
    {
        Self { success: false, data: None, error: Some(message) }
    }
}

/// Which tunnels to list: those with any of the tags, or with all of
/// them.
#[derive(Debug, Clone, PartialEq, Eq)]
pub struct ListTunnelsRequest {
    pub tags: Option<Vec<String>>,
    pub all_tags: Option<bool>,
}

/// What to change about a tunnel.
#[derive(Debug, Clone, PartialEq, Eq)]
pub struct UpdateTunnelRequest {
    pub tunnel_id: String,
    pub description: Option<String>,
    pub tags: Option<Vec<String>>,
    pub remove_tags: Option<bool>,
    pub expiration: Option<String>,
}

/// A rule that grants a principal access to a tunnel or to some of its
/// ports.
#[derive(Debug, Clone, PartialEq, Eq)]
pub struct AccessControlEntry {
    pub entry_type: String,
    pub scopes: Option<Vec<String>>,
    pub expiration: Option<String>,
    pub ports: Option<Vec<u16>>,
    pub organization_id: Option<String>,
}

/// Which access to grant on which tunnel.
#[derive(Debug, Clone, PartialEq, Eq)]
pub struct CreateAccessRequest {
    pub tunnel_id: String,
    pub entry: AccessControlEntry,
}

/// One line of the log.
#[derive(Debug, Clone, PartialEq, Eq)]
pub struct LogEntry {
    pub timestamp: String,
    pub level: String,
    pub message: String,
    pub source: Option<String>,
}

/// Whether the external tool is installed, and where.
#[derive(Debug, Clone, PartialEq, Eq)]
pub struct DevTunnelInfo {
    pub installed: bool,
    pub path: Option<String>,
    pub version: Option<String>,
}

} // verus!
