//! Why a file could not be renamed.

use vstd::prelude::*;

verus! {

/// A failure that concerns one file and leaves the others untouched.
///
/// The first and the last are met by the caller, who reads the metadata and
/// renames the file; the two between them are found here, in the tags.
#[derive(Clone, Copy, Debug, PartialEq, Eq, Structural)]
pub enum RenameError {
    /// The file holds no metadata container that could be read.
    MetadataUnreadable,
    /// The capture date-time or the sub-second tag is absent.
    MissingCaptureMetadata,
    /// The capture date-time is not a moment written as
    /// `YYYY:MM:DD HH:MM:SS`.
    MalformedDateTime,
    /// The file system refused the rename.
    RenameFailed,
}

impl RenameError {
    /// The text of the message for this error.
    pub open spec fn message_text(self) -> Seq<char> {
        match self {
            RenameError::MetadataUnreadable => "Metadata could not be read"@,
            RenameError::MissingCaptureMetadata => "Required EXIF data not found"@,
            RenameError::MalformedDateTime => "Failed to parse date"@,
            RenameError::RenameFailed => "Rename failed"@,
        }
    }

    /// A message for the user.
    pub fn message(&self) -> (text: String)
        ensures
            text@ == self.message_text(),
    {
        match self {
            RenameError::MetadataUnreadable => String::from_str("Metadata could not be read"),
            RenameError::MissingCaptureMetadata => String::from_str("Required EXIF data not found"),
            RenameError::MalformedDateTime => String::from_str("Failed to parse date"),
            RenameError::RenameFailed => String::from_str("Rename failed"),
        }
    }
}

} // verus!
