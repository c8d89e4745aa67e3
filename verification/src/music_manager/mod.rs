//! Library to create a music player and/or a songs miner

/// Character level helpers: words, file names, the music file extension.
pub mod text;
/// The statements of the catalog, and what their rows tell.
pub mod catalog;
/// Listings of directories, and the work that a scan of one consists of.
pub mod directory;
/// File manager module
pub mod file_manager;
/// Miner module
pub mod miner;
/// Music file module.
pub mod music_file;
/// Database module
pub mod music_database;
/// Query manager module
pub mod query_manager;
/// The SQLite store behind the database.
pub mod store;
/// Search manager module
pub mod search_manager;
