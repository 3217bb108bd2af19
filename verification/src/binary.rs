//! The `yt-dlp` executable: what it is called on each system, where the
//! local copy is kept, and where a fresh one is fetched from.
use vstd::prelude::*;

verus! {

/// The name `yt-dlp` is started under when it is installed on the system.
pub const SYSTEM_BINARY: &'static str = "yt-dlp";

/// The directory the local copy of `yt-dlp` is kept in.
pub const BINARIES_DIR: &'static str = "./binaries";

/// The permission bits of the local copy where the system has such bits.
pub const EXECUTABLE_MODE: u32 = 0o755;

/// The kind of system the program runs on.
#[derive(Debug, Clone, Copy, PartialEq, Eq, Structural)]
pub enum HostOs {
    Windows,
    MacOs,
    /// A Unix other than macOS.
    Unix,
    /// Neither Windows nor a Unix.
    Other,
}

/// The file name of the local copy.
pub open spec fn binary_name_of(os: HostOs) -> Seq<char> {
    match os {
        HostOs::Windows => "yt-dlp.exe"@,
        _ => "yt-dlp"@,
    }
}

/// The address of the latest release for a system.
pub open spec fn release_url_of(os: HostOs) -> Seq<char> {
    match os {
        HostOs::Windows => "https://github.com/yt-dlp/yt-dlp/releases/latest/download/yt-dlp.exe"@,
        HostOs::MacOs => "https://github.com/yt-dlp/yt-dlp/releases/latest/download/yt-dlp_macos"@,
        _ => "https://github.com/yt-dlp/yt-dlp/releases/latest/download/yt-dlp"@,
    }
}

/// The permission bits a fetched copy is given: those of an executable on
/// macOS and the other Unix systems, none elsewhere.
pub open spec fn permission_mode_of(os: HostOs) -> Option<u32> {
    match os {
        HostOs::MacOs | HostOs::Unix => Some(EXECUTABLE_MODE),
        _ => None,
    }
}

/// The file name of the local copy on `os`.
pub fn binary_name(os: HostOs) -> (name: &'static str)
    ensures
        name@ == binary_name_of(os),
{
    match os {
        HostOs::Windows => "yt-dlp.exe",
        _ => "yt-dlp",
    }
}

/// The address the latest release for `os` is fetched from.
pub fn release_url(os: HostOs) -> (url: &'static str)
    ensures
        url@ == release_url_of(os),
{
    match os {
        HostOs::Windows => "https://github.com/yt-dlp/yt-dlp/releases/latest/download/yt-dlp.exe",
        HostOs::MacOs => "https://github.com/yt-dlp/yt-dlp/releases/latest/download/yt-dlp_macos",
        _ => "https://github.com/yt-dlp/yt-dlp/releases/latest/download/yt-dlp",
    }
}

/// The permission bits a fetched copy is given on `os`, if any.
pub fn permission_mode(os: HostOs) -> (mode: Option<u32>)
    ensures
        mode == permission_mode_of(os),
{
    match os {
        HostOs::MacOs | HostOs::Unix => Some(EXECUTABLE_MODE),
        _ => None,
    }
}

} // verus!
