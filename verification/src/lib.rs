//! A library to index a music collection: a miner that walks a directory tree
//! and reports its progress, a catalog of albums, performers and songs kept in
//! SQLite, and a small search language over that catalog.

pub mod music_manager;
