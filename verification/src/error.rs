//! Failure kinds of the bridge, and the single line of text each one becomes
//! where a command hands its failure to the user interface.

use vstd::prelude::*;
use vstd::string::*;

verus! {

/// Why the cross-thread query produced no display name.
#[derive(Clone, Copy, Debug, PartialEq, Eq, Structural)]
pub enum BridgeError {
    /// The resolver handed back no row cursor for the reference.
    NoCursor,
    /// The cursor was opened and holds no row.
    EmptyResult,
    /// The row has no display-name column, or the column holds no text.
    ColumnMissing,
    /// The delivery channel was closed before anything was sent.
    ChannelClosed,
}

/// Why metadata extraction failed.
#[derive(Clone, Copy, Debug, PartialEq, Eq, Structural)]
pub enum ExtractError {
    /// The reference does not name a document.
    NotFound,
    /// The document is there and its type or name cannot be read.
    Unreadable,
}

/// Why picking a file with its metadata failed.
#[derive(Clone, Copy, Debug, PartialEq, Eq, Structural)]
pub enum PickError {
    /// The user closed the chooser without choosing.
    NoSelection,
    /// The platform refused the durable grant.
    PermissionDenied,
    /// The chooser could not be reached.
    PlatformUnavailable,
    /// The reference was authorized and its metadata could not be had.
    Extraction(ExtractError),
}

/// Why the display-name command failed.
#[derive(Clone, Copy, Debug, PartialEq, Eq, Structural)]
pub enum DisplayNameError {
    /// The platform does not hand out documents as content references.
    UnsupportedPlatform,
    /// The query bridge failed.
    BridgeFailure(BridgeError),
}

/// What every bridge failure starts with once it is flattened to text.
pub open spec fn bridge_failure_prefix() -> Seq<char> {
    "Failed to receive result: "@
}

impl BridgeError {
    /// The text of this kind.
    pub open spec fn message_text(self) -> Seq<char> {
        match self {
            BridgeError::NoCursor => "Cursor is null"@,
            BridgeError::EmptyResult => "No data in cursor"@,
            BridgeError::ColumnMissing => "Column not found"@,
            BridgeError::ChannelClosed => "receiving on a closed channel"@,
        }
    }

    /// Describes this kind in words.
    pub fn message(&self) -> (text: String)
        ensures
            text@ == self.message_text(),
    {
        match self {
            BridgeError::NoCursor => String::from_str("Cursor is null"),
            BridgeError::EmptyResult => String::from_str("No data in cursor"),
            BridgeError::ColumnMissing => String::from_str("Column not found"),
            BridgeError::ChannelClosed => String::from_str("receiving on a closed channel"),
        }
    }
}

impl ExtractError {
    /// The text of this kind.
    pub open spec fn message_text(self) -> Seq<char> {
        match self {
            ExtractError::NotFound => "File not found"@,
            ExtractError::Unreadable => "Failed to read file metadata"@,
        }
    }

    /// Describes this kind in words.
    pub fn message(&self) -> (text: String)
        ensures
            text@ == self.message_text(),
    {
        match self {
            ExtractError::NotFound => String::from_str("File not found"),
            ExtractError::Unreadable => String::from_str("Failed to read file metadata"),
        }
    }
}

impl PickError {
    /// The text of this kind.
    pub open spec fn message_text(self) -> Seq<char> {
        match self {
            PickError::NoSelection => "No files selected"@,
            PickError::PermissionDenied => "Failed to take persistable permission"@,
            PickError::PlatformUnavailable => "Failed to pick file"@,
            PickError::Extraction(kind) => kind.message_text(),
        }
    }

    /// Flattens this failure to the one line the command boundary carries.
    pub fn message(&self) -> (text: String)
        ensures
            text@ == self.message_text(),
    {
        match self {
            PickError::NoSelection => String::from_str("No files selected"),
            PickError::PermissionDenied => String::from_str(
                "Failed to take persistable permission",
            ),
            PickError::PlatformUnavailable => String::from_str("Failed to pick file"),
            PickError::Extraction(kind) => kind.message(),
        }
    }
}

impl DisplayNameError {
    /// The text of this kind: every bridge failure keeps its own words behind
    /// a common prefix.
    pub open spec fn message_text(self) -> Seq<char> {
        match self {
            DisplayNameError::UnsupportedPlatform => "Only supported on Android"@,
            DisplayNameError::BridgeFailure(kind) => bridge_failure_prefix() + kind.message_text(),
        }
    }

    /// Flattens this failure to the one line the command boundary carries.
    pub fn message(&self) -> (text: String)
        ensures
            text@ == self.message_text(),
    {
        match self {
            DisplayNameError::UnsupportedPlatform => String::from_str("Only supported on Android"),
            DisplayNameError::BridgeFailure(kind) => {
                let detail = kind.message();
                String::from_str("Failed to receive result: ").concat(detail.as_str())
            },
        }
    }
}

} // verus!
