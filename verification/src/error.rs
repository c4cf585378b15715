//! The errors that the relay reports.
use vstd::prelude::*;

verus! {

/// Why an operation was refused.
#[derive(Clone, Copy, Debug, PartialEq, Eq, Structural)]
pub enum RelayError {
    ImageTooLarge,
    UnsupportedPayloadKind,
    CannotRemarkSelf,
    CannotPairSelf,
    UnknownDevice,
    DeviceOffline,
    NoRoutableAddress,
    FileRelayPaused,
    TransferNotAddressedHere,
    TransferFromUnpairedDevice,
    TransferNotFound,
    NotReadyToPlace,
    NotReadyToShare,
    NotReadyToExport,
    ReceivedFilesMissing,
    HistoryEntryNotFound,
    ClipboardPayloadMissing,
    ClipboardFileListMissing,
    NoFilesToRestore,
    PairingUpdateNotAddressedHere,
    NoTransferFiles,
    ShareSheetUnavailable,
    ShareOnlyOnMobile,
    FileExportUnavailable,
    FileExportOnlyOnMobile,
    EmptyClipboardFileList,
    NoFilesToTransfer,
    NoTransferableFiles,
    InsufficientDiskSpace,
    IncomingFrameTooLarge,
    OutgoingFrameTooLarge,
    InvalidIdentityMaterial,
    IdentityGenerationFailed,
    MobileClipboardUnavailable,
    MobileFileClipboardUnavailable,
    CacheDirectoryUnsupported,
    ImageLayoutInvalid,
    ImageEncodingFailed,
    ImageDecodingFailed,
    ClipboardTextNotUtf8,
}

impl RelayError {
    /// The message that the user interface shows for the error.
    pub open spec fn spec_message(self) -> Seq<char> {
        match self {
            RelayError::ImageTooLarge => "image payload exceeds the 10 MB limit"@,
            RelayError::UnsupportedPayloadKind => "unsupported payload kind"@,
            RelayError::CannotRemarkSelf => "cannot set a remark for this device"@,
            RelayError::CannotPairSelf => "cannot pair this device with itself"@,
            RelayError::UnknownDevice => "unknown device"@,
            RelayError::DeviceOffline => "device is offline"@,
            RelayError::NoRoutableAddress => "the paired device has no routable address"@,
            RelayError::FileRelayPaused => "file relay is paused"@,
            RelayError::TransferNotAddressedHere => "incoming transfer is not addressed to this device"@,
            RelayError::TransferFromUnpairedDevice => "incoming file relay is only accepted from paired devices"@,
            RelayError::TransferNotFound => "transfer job not found"@,
            RelayError::NotReadyToPlace => "transfer is not ready to place on the clipboard"@,
            RelayError::NotReadyToShare => "transfer is not ready to share"@,
            RelayError::NotReadyToExport => "transfer is not ready to export"@,
            RelayError::ReceivedFilesMissing => "the received files are no longer available"@,
            RelayError::HistoryEntryNotFound => "clipboard history entry not found"@,
            RelayError::ClipboardPayloadMissing => "clipboard payload is missing"@,
            RelayError::ClipboardFileListMissing => "clipboard file list is missing"@,
            RelayError::NoFilesToRestore => "no files are available to restore"@,
            RelayError::PairingUpdateNotAddressedHere => "device pairing update is not addressed to this device"@,
            RelayError::NoTransferFiles => "no transfer files are available"@,
            RelayError::ShareSheetUnavailable => "native share sheet integration is not available in this build"@,
            RelayError::ShareOnlyOnMobile => "system sharing is only available on mobile builds"@,
            RelayError::FileExportUnavailable => "native file export integration is not available in this build"@,
            RelayError::FileExportOnlyOnMobile => "file export is only available on mobile builds"@,
            RelayError::EmptyClipboardFileList => "clipboard file list is empty"@,
            RelayError::NoFilesToTransfer => "there are no files to transfer"@,
            RelayError::NoTransferableFiles => "no transferable files were found"@,
            RelayError::InsufficientDiskSpace => "insufficient disk space"@,
            RelayError::IncomingFrameTooLarge => "incoming frame exceeded the maximum allowed size"@,
            RelayError::OutgoingFrameTooLarge => "outgoing frame exceeded the maximum allowed size"@,
            RelayError::InvalidIdentityMaterial => "failed to decode persisted identity material"@,
            RelayError::IdentityGenerationFailed => "failed to generate the device identity"@,
            RelayError::MobileClipboardUnavailable => "system clipboard bridging is not available on mobile in this build"@,
            RelayError::MobileFileClipboardUnavailable => "file clipboard bridging is not available on mobile in this build"@,
            RelayError::CacheDirectoryUnsupported => "opening the cache directory is not supported on mobile builds"@,
            RelayError::ImageLayoutInvalid => "clipboard image buffer had an unexpected layout"@,
            RelayError::ImageEncodingFailed => "failed to encode clipboard image as png"@,
            RelayError::ImageDecodingFailed => "failed to decode remote png payload"@,
            RelayError::ClipboardTextNotUtf8 => "clipboard text was not utf-8"@,
        }
    }

    pub fn message(&self) -> (s: String)
        ensures
            s@ == self.spec_message(),
    {
        match self {
            RelayError::ImageTooLarge => String::from_str("image payload exceeds the 10 MB limit"),
            RelayError::UnsupportedPayloadKind => String::from_str("unsupported payload kind"),
            RelayError::CannotRemarkSelf => String::from_str("cannot set a remark for this device"),
            RelayError::CannotPairSelf => String::from_str("cannot pair this device with itself"),
            RelayError::UnknownDevice => String::from_str("unknown device"),
            RelayError::DeviceOffline => String::from_str("device is offline"),
            RelayError::NoRoutableAddress => String::from_str("the paired device has no routable address"),
            RelayError::FileRelayPaused => String::from_str("file relay is paused"),
            RelayError::TransferNotAddressedHere => String::from_str("incoming transfer is not addressed to this device"),
            RelayError::TransferFromUnpairedDevice => String::from_str("incoming file relay is only accepted from paired devices"),
            RelayError::TransferNotFound => String::from_str("transfer job not found"),
            RelayError::NotReadyToPlace => String::from_str("transfer is not ready to place on the clipboard"),
            RelayError::NotReadyToShare => String::from_str("transfer is not ready to share"),
            RelayError::NotReadyToExport => String::from_str("transfer is not ready to export"),
            RelayError::ReceivedFilesMissing => String::from_str("the received files are no longer available"),
            RelayError::HistoryEntryNotFound => String::from_str("clipboard history entry not found"),
            RelayError::ClipboardPayloadMissing => String::from_str("clipboard payload is missing"),
            RelayError::ClipboardFileListMissing => String::from_str("clipboard file list is missing"),
            RelayError::NoFilesToRestore => String::from_str("no files are available to restore"),
            RelayError::PairingUpdateNotAddressedHere => String::from_str("device pairing update is not addressed to this device"),
            RelayError::NoTransferFiles => String::from_str("no transfer files are available"),
            RelayError::ShareSheetUnavailable => String::from_str("native share sheet integration is not available in this build"),
            RelayError::ShareOnlyOnMobile => String::from_str("system sharing is only available on mobile builds"),
            RelayError::FileExportUnavailable => String::from_str("native file export integration is not available in this build"),
            RelayError::FileExportOnlyOnMobile => String::from_str("file export is only available on mobile builds"),
            RelayError::EmptyClipboardFileList => String::from_str("clipboard file list is empty"),
            RelayError::NoFilesToTransfer => String::from_str("there are no files to transfer"),
            RelayError::NoTransferableFiles => String::from_str("no transferable files were found"),
            RelayError::InsufficientDiskSpace => String::from_str("insufficient disk space"),
            RelayError::IncomingFrameTooLarge => String::from_str("incoming frame exceeded the maximum allowed size"),
            RelayError::OutgoingFrameTooLarge => String::from_str("outgoing frame exceeded the maximum allowed size"),
            RelayError::InvalidIdentityMaterial => String::from_str("failed to decode persisted identity material"),
            RelayError::IdentityGenerationFailed => String::from_str("failed to generate the device identity"),
            RelayError::MobileClipboardUnavailable => String::from_str("system clipboard bridging is not available on mobile in this build"),
            RelayError::MobileFileClipboardUnavailable => String::from_str("file clipboard bridging is not available on mobile in this build"),
            RelayError::CacheDirectoryUnsupported => String::from_str("opening the cache directory is not supported on mobile builds"),
            RelayError::ImageLayoutInvalid => String::from_str("clipboard image buffer had an unexpected layout"),
            RelayError::ImageEncodingFailed => String::from_str("failed to encode clipboard image as png"),
            RelayError::ImageDecodingFailed => String::from_str("failed to decode remote png payload"),
            RelayError::ClipboardTextNotUtf8 => String::from_str("clipboard text was not utf-8"),
        }
    }
}

/// The message shown to the user for an error.
pub fn to_error_string(error: &RelayError) -> (s: String)
    ensures
        s@ == error.spec_message(),
{
    error.message()
}

} // verus!
