//! Scan failures.
//!
//! Every failure is fatal: the first one encountered abandons the whole
//! build, and no partial tree is handed out.  Each variant carries the
//! path of the entry on which the scan failed, so the failure can be
//! reported with its cause before the process exits.

use vstd::prelude::*;
use vstd::string::StringExecFns;

verus! {

/// Why a scan was abandoned.
#[derive(Debug)]
pub enum ScanError {
    /// A directory's immediate entries could not be listed.
    ReadDirFailed(String),
    /// An entry's metadata could not be retrieved.
    MetadataFailed(String),
    /// An entry's name could not be decoded as text.
    NameDecodeFailed(String),
    /// An entry's modification time cannot be rendered with a four-digit
    /// year.
    TimestampOutOfRange(String),
    /// An entry's reported size cannot be represented in a node's size
    /// field.
    SizeNotRepresentable(String),
}

impl ScanError {
    /// The path of the entry on which the scan failed.
    pub fn path(&self) -> (r: &String)
        ensures
            (match self {
                ScanError::ReadDirFailed(p) => r@ == p@,
                ScanError::MetadataFailed(p) => r@ == p@,
                ScanError::NameDecodeFailed(p) => r@ == p@,
                ScanError::TimestampOutOfRange(p) => r@ == p@,
                ScanError::SizeNotRepresentable(p) => r@ == p@,
            }),
    {
        match self {
            ScanError::ReadDirFailed(p) => p,
            ScanError::MetadataFailed(p) => p,
            ScanError::NameDecodeFailed(p) => p,
            ScanError::TimestampOutOfRange(p) => p,
            ScanError::SizeNotRepresentable(p) => p,
        }
    }

    /// A one-line account of the failure: its cause, then the path.
    pub fn describe(&self) -> (r: String)
        ensures
            (match self {
                ScanError::ReadDirFailed(p) => r@ == "cannot list directory: "@ + p@,
                ScanError::MetadataFailed(p) => r@ == "cannot read metadata: "@ + p@,
                ScanError::NameDecodeFailed(p) => r@ == "cannot decode entry name: "@ + p@,
                ScanError::TimestampOutOfRange(p) => r@ == "modification time out of range: "@ + p@,
                ScanError::SizeNotRepresentable(p) => r@ == "size not representable: "@ + p@,
            }),
    {
        let mut s: String;
        match self {
            ScanError::ReadDirFailed(p) => {
                s = String::from_str("cannot list directory: ");
                s.append(p.as_str());
            },
            ScanError::MetadataFailed(p) => {
                s = String::from_str("cannot read metadata: ");
                s.append(p.as_str());
            },
            ScanError::NameDecodeFailed(p) => {
                s = String::from_str("cannot decode entry name: ");
                s.append(p.as_str());
            },
            ScanError::TimestampOutOfRange(p) => {
                s = String::from_str("modification time out of range: ");
                s.append(p.as_str());
            },
            ScanError::SizeNotRepresentable(p) => {
                s = String::from_str("size not representable: ");
                s.append(p.as_str());
            },
        }
        s
    }
}

} // verus!
