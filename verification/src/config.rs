//! Configuration values the transfer engine consumes: the five drive/auth
//! fields and the expanded list of source files. Loading the configuration
//! file and expanding directories happen outside the library; the engine
//! only reads these plain values.

use vstd::prelude::*;

verus! {

/// Client-credentials grant parameters and the drive destination.
#[derive(Debug)]
pub struct OnedriveConfig {
    pub appid: String,
    pub secret: String,
    pub token_endpoint: String,
    pub ms_graph_scope: String,
    pub drive: String,
    pub folder: String,
}

/// The whole configuration: drive/auth fields plus the configured source
/// paths and, once directories are expanded, the flat file list.
#[derive(Debug)]
pub struct Config {
    pub onedrive: OnedriveConfig,
    pub files: Vec<String>,
    pub parsed_files: Option<Vec<String>>,
}

} // verus!
