//! Syphon input (macOS): server descriptions, received frames and server
//! discovery through the low-level Syphon entry points.
use vstd::prelude::*;
use vstd::string::StringExecFns;
use crate::ipc::syphon_sys::{
    directory_get_servers, get_server_directory, release_directory, ServerInfo,
};

verus! {

/// Information about a discovered Syphon server.
#[derive(Debug, Clone)]
pub struct SyphonServerInfo {
    pub name: String,
    pub app_name: String,
    pub dimensions: Option<(u32, u32)>,
    pub uuid: String,
}

impl From<ServerInfo> for SyphonServerInfo {
    fn from(info: ServerInfo) -> (r: Self) {
        SyphonServerInfo {
            name: info.name,
            app_name: info.app_name,
            dimensions: Some((info.width, info.height)),
            uuid: info.uuid,
        }
    }
}

impl vstd::std_specs::convert::FromSpecImpl<ServerInfo> for SyphonServerInfo {
    open spec fn obeys_from_spec() -> bool {
        true
    }

    open spec fn from_spec(info: ServerInfo) -> SyphonServerInfo {
        SyphonServerInfo {
            name: info.name,
            app_name: info.app_name,
            dimensions: Some((info.width, info.height)),
            uuid: info.uuid,
        }
    }
}

/// A received Syphon frame.
pub struct SyphonFrame {
    pub width: u32,
    pub height: u32,
    /// RGBA pixel data
    pub data: Vec<u8>,
    pub timestamp: std::time::Instant,
}

/// Syphon server discovery.
pub struct SyphonDiscovery;

/// Whether some server in `servers` is named `name`.
pub open spec fn has_server_named(servers: Seq<SyphonServerInfo>, name: Seq<char>) -> bool {
    exists|i: int| 0 <= i < servers.len() && #[trigger] servers[i].name@ == name
}

/// The description of a directory entry: its name, application and
/// identifier, and its size.
pub open spec fn server_info_of(info: ServerInfo) -> SyphonServerInfo {
    SyphonServerInfo {
        name: info.name,
        app_name: info.app_name,
        dimensions: Some((info.width, info.height)),
        uuid: info.uuid,
    }
}

/// Convert a directory's server list, keeping its order.
pub fn servers_from_directory(servers: Vec<ServerInfo>) -> (r: Vec<SyphonServerInfo>)
    ensures
        r@.len() == servers@.len(),
        forall|i: int| 0 <= i < servers@.len() ==> #[trigger] r@[i] == server_info_of(servers@[i]),
{
    let ghost orig = servers@;
    let mut rest = servers;
    let mut out: Vec<SyphonServerInfo> = Vec::new();
    while rest.len() > 0
        invariant
            out@.len() + rest@.len() == orig.len(),
            rest@ == orig.subrange(out@.len() as int, orig.len() as int),
            forall|j: int| 0 <= j < out@.len() ==> #[trigger] out@[j] == server_info_of(orig[j]),
        decreases rest@.len(),
    {
        let info = rest.remove(0);
        out.push(SyphonServerInfo::from(info));
        proof {
            assert(rest@ =~= orig.subrange(out@.len() as int, orig.len() as int));
        }
    }
    out
}

/// Whether `servers` lists a server named `name`.
pub fn server_listed(servers: &Vec<SyphonServerInfo>, name: &str) -> (r: bool)
    ensures
        r == has_server_named(servers@, name@),
{
    let wanted = String::from_str(name);
    let mut i: usize = 0;
    while i < servers.len()
        invariant
            i <= servers@.len(),
            wanted@ == name@,
            forall|j: int| 0 <= j < i ==> #[trigger] servers@[j].name@ != name@,
        decreases servers@.len() - i,
    {
        if servers[i].name == wanted {
            return true;
        }
        i += 1;
    }
    false
}

impl SyphonDiscovery {
    /// Create new discovery.
    pub fn new() -> (r: Self) {
        SyphonDiscovery
    }

    /// Discover the Syphon servers: the servers the server directory lists,
    /// in its order. There is no directory in this build, so none are found.
    pub fn discover_servers(&self) -> (r: Vec<SyphonServerInfo>)
        ensures
            r@.len() == 0,
    {
        match get_server_directory() {
            Some(directory) => {
                let servers = directory_get_servers(&directory);
                release_directory(directory);
                servers_from_directory(servers)
            },
            None => Vec::new(),
        }
    }

    /// Whether a server named `name` is currently listed; with no servers
    /// found in this build, never.
    pub fn is_server_available(&self, name: &str) -> (r: bool)
        ensures
            !r,
    {
        let servers = self.discover_servers();
        server_listed(&servers, name)
    }
}

impl Default for SyphonDiscovery {
    fn default() -> (r: Self) {
        Self::new()
    }
}

/// Whether the server list is due for a refresh: never refreshed, or last
/// refreshed more than five whole seconds ago.
pub fn discovery_due(secs_since_last: Option<u64>) -> (r: bool)
    ensures
        r == match secs_since_last {
            None => true,
            Some(s) => s > 5,
        },
{
    match secs_since_last {
        None => true,
        Some(s) => s > 5,
    }
}

} // verus!
