//! What the library asks of the host: memory, operating system version,
//! clock, user directories and the file system.
//!
//! Nothing here is proved. Each item names the outside function it stands
//! for. What depends on the machine and the moment is promised nothing; the
//! joining of paths, which depends on its arguments alone, has its result
//! named and nothing more said of it.

use vstd::prelude::*;

verus! {

/// `sysinfo::System`, the handle through which host resources are read.
#[verifier::external_type_specification]
#[verifier::external_body]
pub struct ExSystem(sysinfo::System);

/// `System::new_all` creates a handle with everything loaded. Nothing is
/// claimed about what it holds.
pub assume_specification[ sysinfo::System::new_all ]() -> sysinfo::System;

/// `System::refresh_all` reloads system and process information. Nothing is
/// claimed about the handle afterwards.
pub assume_specification[ sysinfo::System::refresh_all ](sys: &mut sysinfo::System);

/// `System::total_memory` gives the RAM size in bytes. Any `u64` may come back.
pub assume_specification[ sysinfo::System::total_memory ](sys: &sysinfo::System) -> u64;

/// `System::available_memory` gives the RAM available for use, in bytes. Any
/// `u64` may come back; in particular it is not claimed to stay below the total.
pub assume_specification[ sysinfo::System::available_memory ](sys: &sysinfo::System) -> u64;

/// `System::long_os_version` gives the long form of the operating system
/// version, or `None` where the host does not tell.
pub assume_specification[ sysinfo::System::long_os_version ]() -> Option<String>;

/// `chrono::Utc::now` followed by `DateTime::to_rfc3339`: the present moment
/// in UTC as an RFC 3339 string. Nothing is claimed about the text. chrono
/// takes the system clock to stand at or after the Unix epoch.
#[verifier::external_body]
pub(crate) fn utc_timestamp() -> String {
    chrono::Utc::now().to_rfc3339()
}

/// `dirs::data_dir`: the user's data directory, or `None` where the host
/// names none. The path is handed out as text, lossily where it is not
/// Unicode.
#[verifier::external_body]
pub(crate) fn user_data_dir() -> Option<String> {
    dirs::data_dir().map(|dir| dir.to_string_lossy().into_owned())
}

/// The text of the path that `std::path::Path::join` makes of `base` and
/// `part`. Adjoining is lexical: it reads neither the disk nor the
/// environment, so the text is decided by the two arguments, under the path
/// rules of the platform that the library is built for. What the text is, is
/// left to std.
pub uninterp spec fn joined_path(base: Seq<char>, part: Seq<char>) -> Seq<char>;

/// `std::path::Path::join`: `base` with `part` adjoined. The contract claims
/// only that the text handed back is the one std makes of these two
/// arguments; it says nothing of separators or of how an absolute `part` is
/// treated.
#[verifier::external_body]
pub(crate) fn join_path(base: &str, part: &str) -> (path: String)
    ensures
        path@ == joined_path(base@, part@),
{
    std::path::Path::new(base).join(part).to_string_lossy().into_owned()
}

/// `std::path::Path::exists`: whether `path` names something on disk right
/// now. Either answer may come back.
#[verifier::external_body]
pub(crate) fn path_exists(path: &str) -> bool {
    std::path::Path::new(path).exists()
}

} // verus!
