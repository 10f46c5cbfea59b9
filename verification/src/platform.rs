//! The operating systems the recorder tells apart.

use vstd::prelude::*;

verus! {

/// The operating system the recorder runs on.
#[derive(Debug, PartialEq, Eq, Clone, Copy)]
pub enum TargetOs {
    Windows,
    MacOs,
    Linux,
    Other,
}

/// The program that opens a directory in the system's file manager, where
/// the system has a known one.
pub open spec fn file_manager_of(os: TargetOs) -> Option<Seq<char>> {
    match os {
        TargetOs::Windows => Some("explorer"@),
        TargetOs::MacOs => Some("open"@),
        TargetOs::Linux => Some("xdg-open"@),
        TargetOs::Other => None,
    }
}

/// The program that opens the output directory: `explorer` on Windows,
/// `open` on macOS, `xdg-open` on Linux, none elsewhere.
pub fn file_manager_program(os: TargetOs) -> (r: Option<&'static str>)
    ensures
        match (r, file_manager_of(os)) {
            (Some(p), Some(q)) => p@ == q,
            (None, None) => true,
            _ => false,
        },
{
    match os {
        TargetOs::Windows => Some("explorer"),
        TargetOs::MacOs => Some("open"),
        TargetOs::Linux => Some("xdg-open"),
        TargetOs::Other => None,
    }
}

} // verus!
