//! Compressing one file's contents for storage: where the compressed copy
//! goes and what it holds. Reading the file and writing the copy happen
//! outside the library.

use crate::gzip::{gzip_compress, gzip_framed, gzip_member, CompressError};
use crate::menu::CompressionChoice;
use crate::paths::{compressed_output_path, file_name_of, gz_sibling_path, gz_suffix, join, storage_dir};
use vstd::prelude::*;

verus! {

/// A compressed copy ready to be written: where it goes and its bytes.
pub struct CompressedCopy {
    pub path: String,
    pub contents: Vec<u8>,
}

/// Why a file could not be compressed for storage.
pub enum StorageError {
    /// The input path has no final component to name the copy after.
    NoFileName,
    /// flate2 failed to compress the contents.
    Compress(CompressError),
}

/// Compresses the `contents` of the file at `input` with the menu entry
/// `choice`, for the copy that is stored in the storage directory under the
/// file's name with `.gz` appended.
pub fn compress_into_storage(input: &str, contents: &[u8], choice: CompressionChoice) -> (r: Result<
    CompressedCopy,
    StorageError,
>)
    ensures
        (r matches Err(StorageError::NoFileName)) <==> file_name_of(input@) is None,
        file_name_of(input@) is Some ==> r is Ok,
        r matches Ok(c) ==> {
            &&& file_name_of(input@) matches Some(n) && c.path@ == join(storage_dir(), n + gz_suffix())
            &&& c.contents@ == gzip_member(contents@, choice.level_of())
            &&& gzip_framed(c.contents@, contents@, choice.level_of())
        },
{
    let path = match compressed_output_path(input) {
        Some(p) => p,
        None => {
            return Err(StorageError::NoFileName);
        },
    };
    match gzip_compress(contents, choice.level()) {
        Ok(v) => Ok(CompressedCopy { path, contents: v }),
        Err(e) => Err(StorageError::Compress(e)),
    }
}

/// Compresses the `contents` of the file at `file` with the menu entry
/// `choice`, for the copy that is written beside the file, at `file.gz`.
pub fn compress_beside(file: &str, contents: &[u8], choice: CompressionChoice) -> (r: Result<
    CompressedCopy,
    CompressError,
>)
    ensures
        r is Ok,
        r matches Ok(c) ==> {
            &&& c.path@ == file@ + gz_suffix()
            &&& c.contents@ == gzip_member(contents@, choice.level_of())
            &&& gzip_framed(c.contents@, contents@, choice.level_of())
        },
{
    let path = gz_sibling_path(file);
    match gzip_compress(contents, choice.level()) {
        Ok(v) => Ok(CompressedCopy { path, contents: v }),
        Err(e) => Err(e),
    }
}

} // verus!
