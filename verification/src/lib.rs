//! Download-manager engine: chunk planning, work stealing, scheduling,
//! name inference and request handling, each with a proved contract.
pub mod text;
pub mod catalog;
pub mod storage;
pub mod worker;
pub mod probe;
pub mod downloader;
pub mod server;
pub mod ytdl;
pub mod torrent;
pub mod browser;
pub mod startup;
pub mod ui;
pub mod session;
pub mod icon;
