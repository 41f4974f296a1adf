//! Unpacking a downloaded asset.

use vstd::prelude::*;
use crate::trusted::{gunzip, gzip_decoded};

verus! {

/// Why an asset did not end up in the cache.
#[derive(Clone, Copy, Debug, PartialEq, Eq, Structural)]
pub enum InstallError {
    /// The downloaded file could not be read back.
    Unreadable,
    /// The download is not a complete gzip stream.
    Corrupt,
}

/// The view of bytes that may be missing.
pub open spec fn view_bytes(bytes: Option<Vec<u8>>) -> Option<Seq<u8>> {
    match bytes {
        Some(b) => Some(b@),
        None => None,
    }
}

/// The executable inside a download, or the reason there is none: the file
/// must have been read, and its bytes must decode.
pub open spec fn spec_unpack(compressed: Option<Seq<u8>>) -> Result<Seq<u8>, InstallError> {
    match compressed {
        None => Err(InstallError::Unreadable),
        Some(bytes) => match gzip_decoded(bytes) {
            Some(content) => Ok(content),
            None => Err(InstallError::Corrupt),
        },
    }
}

/// The verdict on what the decoder made of a download that was read.
pub fn unpacked(decoded: Option<Vec<u8>>) -> (r: Result<Vec<u8>, InstallError>)
    ensures
        match decoded {
            Some(content) => r == Ok::<Vec<u8>, InstallError>(content),
            None => r == Err::<Vec<u8>, InstallError>(InstallError::Corrupt),
        },
{
    match decoded {
        Some(content) => Ok(content),
        None => Err(InstallError::Corrupt),
    }
}

/// Decompresses what was read back from the download, given as `None` where
/// the file could not be read. The whole content is decoded in memory, so a
/// stream that fails part-way leaves nothing behind.
pub fn unpack(compressed: Option<Vec<u8>>) -> (r: Result<Vec<u8>, InstallError>)
    ensures
        r is Ok <==> spec_unpack(view_bytes(compressed)) is Ok,
        r matches Ok(content) ==> spec_unpack(view_bytes(compressed)) == Ok::<
            Seq<u8>,
            InstallError,
        >(content@),
        r matches Err(e) ==> spec_unpack(view_bytes(compressed)) == Err::<Seq<u8>, InstallError>(
            e,
        ),
{
    match compressed {
        None => Err(InstallError::Unreadable),
        Some(bytes) => {
            unpacked(gunzip(bytes.as_slice()))
        },
    }
}

} // verus!
