//! Verified core of the border-zone mod manager: how mods are named,
//! located, checked for updates, downloaded, queued and described.
//! File, network and UI work is performed by the caller around it.

pub mod download_queue;
pub mod extraction;
pub mod handlers;
pub mod hashing;
pub mod layout;
pub mod parser;
pub mod local_mods;
pub mod mod_download;
pub mod mod_listing;
pub mod mod_management;
pub mod paths;
pub mod settings;
pub mod state;
pub mod text;
pub mod types;
pub mod xml_cache;
