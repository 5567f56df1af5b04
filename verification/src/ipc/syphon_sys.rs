//! Low-level Syphon entry points for builds without the Syphon framework:
//! the framework is reported unavailable and every call does nothing.
use vstd::prelude::*;

verus! {

/// Whether the Syphon framework can be used: never, in this build.
pub fn is_syphon_available() -> (r: bool)
    ensures
        !r,
{
    false
}

/// Opaque handle to a Syphon server.
pub struct SyphonServerHandle {
    pub(crate) _dummy: (),
}

/// Opaque handle to a Syphon client.
pub struct SyphonClientHandle {
    pub(crate) _dummy: (),
}

/// Opaque handle to the Syphon server directory.
pub struct SyphonDirectoryHandle {
    pub(crate) _dummy: (),
}

/// Server information from a Syphon server directory.
#[derive(Debug, Clone)]
pub struct ServerInfo {
    pub name: String,
    pub app_name: String,
    pub uuid: String,
    pub width: u32,
    pub height: u32,
}

/// Create a Syphon server: none can be created in this build.
pub fn create_server(name: &str) -> (r: Option<SyphonServerHandle>)
    ensures
        r is None,
{
    None
}

/// Destroy a Syphon server.
pub fn destroy_server(server: SyphonServerHandle) {
}

/// Publish a frame from an RGBA buffer; reports that nothing was published.
pub fn publish_frame_buffer(server: &SyphonServerHandle, data: &[u8], width: u32, height: u32) -> (r:
    bool)
    ensures
        !r,
{
    false
}

/// Create a Syphon client for a server: none can be created in this build.
pub fn create_client(server_name: &str) -> (r: Option<SyphonClientHandle>)
    ensures
        r is None,
{
    None
}

/// Destroy a Syphon client.
pub fn destroy_client(client: SyphonClientHandle) {
}

/// Whether a client has a new frame: never, in this build.
pub fn client_has_new_frame(client: &SyphonClientHandle) -> (r: bool)
    ensures
        !r,
{
    false
}

/// Copy the latest frame of a client (width, height, RGBA bytes): there is
/// none in this build.
pub fn client_copy_frame(client: &SyphonClientHandle) -> (r: Option<(u32, u32, Vec<u8>)>)
    ensures
        r is None,
{
    None
}

/// Get the shared server directory: not available in this build.
pub fn get_server_directory() -> (r: Option<SyphonDirectoryHandle>)
    ensures
        r is None,
{
    None
}

/// List the servers of a directory: none in this build.
pub fn directory_get_servers(directory: &SyphonDirectoryHandle) -> (r: Vec<ServerInfo>)
    ensures
        r@.len() == 0,
{
    Vec::new()
}

/// Release the server directory.
pub fn release_directory(directory: SyphonDirectoryHandle) {
}

} // verus!
