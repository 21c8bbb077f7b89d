use vstd::prelude::*;

verus! {

/// A failed call as the surface layers report it.
#[derive(Debug)]
pub struct ApiError {
    pub success: bool,
    pub error: String,
}

impl ApiError {
    /// An error report carrying this message.
    pub fn new(message: String) -> (r: ApiError)
        ensures
            !r.success,
            r.error@ == message@,
    {
        ApiError { success: false, error: message }
    }
}

/// A successful call's payload as the surface layers report it.
#[derive(Debug)]
pub struct ApiSuccess<T> {
    pub success: bool,
    pub data: T,
}

impl<T> ApiSuccess<T> {
    /// A success report around this payload.
    pub fn new(data: T) -> (r: ApiSuccess<T>)
        ensures
            r.success,
            r.data == data,
    {
        ApiSuccess { success: true, data }
    }
}

/// A success report with nothing to say.
#[derive(Debug)]
pub struct EmptyData {}

/// Whether the server asks callers for a token.
#[derive(Debug, Clone, Copy, PartialEq, Eq, Structural)]
pub struct AuthStatusResponse {
    pub auth_enabled: bool,
}

/// The id a freshly created instance got.
#[derive(Debug)]
pub struct CreateInstanceResponse {
    pub id: String,
}

/// Whether a delete may remove a watch-folder instance too.
#[derive(Debug, Clone, Copy, PartialEq, Eq, Structural)]
pub struct DeleteInstanceQuery {
    pub force: bool,
}

/// The public address and whether it goes through a tunnel.
#[derive(Debug)]
pub struct NetworkStatus {
    pub ip: String,
    pub country: Option<String>,
    pub organization: Option<String>,
    pub is_vpn: bool,
}

/// A parsed torrent handed back to the caller.
#[derive(Debug)]
pub struct LoadTorrentResponse {
    pub torrent: crate::torrent::TorrentInfo,
}

/// How many watched files a reload pass took in again.
#[derive(Debug, Clone, Copy, PartialEq, Eq, Structural)]
pub struct ReloadAllResponse {
    pub reloaded: u32,
}

/// Which directory a browse call should list.
#[derive(Debug)]
pub struct BrowseQuery {
    pub path: String,
}

/// One entry of a listed directory.
#[derive(Debug)]
pub struct BrowseEntry {
    pub name: String,
    pub path: String,
    pub is_dir: bool,
    pub size: Option<u64>,
}

/// A listed directory: where it is, where up leads, and what is in it.
#[derive(Debug)]
pub struct BrowseResponse {
    pub path: String,
    pub parent: Option<String>,
    pub entries: Vec<BrowseEntry>,
}

/// The ids a batch operation should touch.
#[derive(Debug)]
pub struct GridIdsRequest {
    pub ids: Vec<String>,
}

/// A batch tag edit: which ids, what to add, what to take away.
#[derive(Debug)]
pub struct GridTagRequest {
    pub ids: Vec<String>,
    pub add_tags: Vec<String>,
    pub remove_tags: Vec<String>,
}

/// The tag list an instance should carry from now on.
#[derive(Debug)]
pub struct SetTagsRequest {
    pub tags: Vec<String>,
}

/// One id a batch operation failed on, with its account.
#[derive(Debug)]
pub struct GridActionError {
    pub id: String,
    pub error: String,
}

/// How a batch operation fared: which ids went through, which did not.
#[derive(Debug)]
pub struct GridActionResponse {
    pub succeeded: Vec<String>,
    pub failed: Vec<GridActionError>,
}

/// One torrent a batch import took in.
#[derive(Debug)]
pub struct GridImportedInstance {
    pub id: String,
    pub name: String,
    pub info_hash: String,
}

/// What a batch import produced: the instances taken in, and what went
/// wrong with the rest.
#[derive(Debug)]
pub struct GridImportResponse {
    pub imported: Vec<GridImportedInstance>,
    pub errors: Vec<String>,
}

} // verus!
