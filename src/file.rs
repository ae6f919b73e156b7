use vstd::prelude::*;

verus! {

/// What a path names on disk.
#[derive(PartialEq, Eq, Structural, Debug, Clone, Copy)]
pub enum FsEntityStatus {
    IsFile,
    IsDir,
    NotFound,
}

/// Why reading a file failed.
#[derive(PartialEq, Eq, Structural, Debug, Clone, Copy)]
pub enum FileError {
    NotFound,
    PermissionDenied,
    Other,
}

/// The classification of a metadata lookup: `found` is false where the lookup
/// failed; anything neither a regular file nor a directory counts as absent.
pub open spec fn spec_status_of(found: bool, is_file: bool, is_dir: bool) -> FsEntityStatus {
    if !found {
        FsEntityStatus::NotFound
    } else if is_file {
        FsEntityStatus::IsFile
    } else if is_dir {
        FsEntityStatus::IsDir
    } else {
        FsEntityStatus::NotFound
    }
}

/// Classifies the outcome of a metadata lookup.
pub fn status_from_metadata(found: bool, is_file: bool, is_dir: bool) -> (r: FsEntityStatus)
    ensures
        r == spec_status_of(found, is_file, is_dir),
{
    if !found {
        FsEntityStatus::NotFound
    } else if is_file {
        FsEntityStatus::IsFile
    } else if is_dir {
        FsEntityStatus::IsDir
    } else {
        FsEntityStatus::NotFound
    }
}

/// The content type that mime_guess gives a path, by its extension.
pub uninterp spec fn mime_of(path: Seq<char>) -> Seq<char>;

/// Relies on `mime_guess::from_path` and `MimeGuess::first_or_octet_stream`:
/// the first known type for the path's extension, or
/// `application/octet-stream`; a function of the path alone.
#[verifier::external_body]
fn guess_mime(path: &str) -> (r: String)
    ensures
        r@ == mime_of(path@),
{
    mime_guess::from_path(path).first_or_octet_stream().to_string()
}

/// The content type served for a path.
pub fn get_mine_type(path: String) -> (r: String)
    ensures
        r@ == mime_of(path@),
{
    guess_mime(path.as_str())
}

/// The HTTP status that a failed file read maps to.
pub open spec fn spec_error_status(e: FileError) -> u16 {
    match e {
        FileError::NotFound => 404,
        FileError::PermissionDenied => 403,
        FileError::Other => 500,
    }
}

/// Maps a failed file read to its HTTP status.
pub fn error_status(e: FileError) -> (r: u16)
    ensures
        r == spec_error_status(e),
{
    match e {
        FileError::NotFound => 404,
        FileError::PermissionDenied => 403,
        FileError::Other => 500,
    }
}

/// What the filesystem reported for one request: the status of the request
/// path, the status of the resolved target, and the target's bytes or why
/// they could not be read.
pub struct Lookup {
    pub entity: FsEntityStatus,
    pub target_entity: FsEntityStatus,
    pub content: Result<Vec<u8>, FileError>,
}

} // verus!

