//! Descriptive information about this crate.

use vstd::prelude::*;
use vstd::string::StringExecFns;

verus! {

pub const NAME: &'static str = "squalo";

pub const DESCRIPTION: &'static str =
    "🦈 Minimal, elegant, fast, async Kraken exchange WebSocket API client | Written in Rust";

pub const VERSION: &'static str = "0.1.5";

pub const AUTHOR: &'static str = "Matteo Pisani <matteo.pisani.91@gmail.com>";

pub const REPOSITORY: &'static str = "https://github.com/xonoxitron/squalo";

/// The text of the crate information: one labelled line per field,
/// separated by carriage return and line feed, with no trailing separator.
pub open spec fn crate_info_text() -> Seq<char> {
    "Name: "@ + NAME@ + "\r\nDescription: "@ + DESCRIPTION@ + "\r\nVersion: "@ + VERSION@
        + "\r\nAuthor: "@ + AUTHOR@ + "\r\nRepository: "@ + REPOSITORY@
}

/// Returns the crate information as one string.
pub fn get_crate_info() -> (info: String)
    ensures
        info@ == crate_info_text(),
{
    let mut info = String::from_str("Name: ");
    info.append(NAME);
    info.append("\r\nDescription: ");
    info.append(DESCRIPTION);
    info.append("\r\nVersion: ");
    info.append(VERSION);
    info.append("\r\nAuthor: ");
    info.append(AUTHOR);
    info.append("\r\nRepository: ");
    info.append(REPOSITORY);
    info
}

/// The heading under which the crate information is shown.
pub const BANNER: &'static str = "-- CRATE INFO --";

/// The text that presents the crate information: the heading, a line break,
/// and the information.
pub open spec fn crate_info_banner_text() -> Seq<char> {
    BANNER@ + "\r\n"@ + crate_info_text()
}

/// Returns the crate information under its heading, as it is shown to a
/// reader.
pub fn get_crate_info_banner() -> (banner: String)
    ensures
        banner@ == crate_info_banner_text(),
{
    let mut banner = String::from_str(BANNER);
    banner.append("\r\n");
    banner.append(get_crate_info().as_str());
    banner
}

} // verus!
