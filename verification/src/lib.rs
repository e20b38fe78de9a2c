//! Verified core of a small file uploader: reading the compression menu,
//! naming the files that are stored and compressed, gzip-compressing
//! contents with flate2, and deciding the steps of an upload and of the
//! bookkeeping in the process table.

pub mod text;
pub mod gzip;
pub mod menu;
pub mod paths;
pub mod database;
pub mod loadfile;
pub mod compress;
