//! Paths under the user's home directory, and the application identity.

use vstd::prelude::*;
use crate::conf::ChatConfJson;

verus! {

/// The data directory's name under the home directory.
pub open spec fn chat_root_suffix() -> Seq<char> {
    "/.chatgpt"@
}

/// The configuration file's name under the data directory.
pub open spec fn conf_file_suffix() -> Seq<char> {
    "/chat.conf.json"@
}

/// The application's data directory under the given home directory.
pub fn chat_root(home: &str) -> (r: String)
    ensures
        r@ == home@ + chat_root_suffix(),
{
    <String as vstd::string::StringExecFns>::from_str(home).concat("/.chatgpt")
}

impl ChatConfJson {
    /// Where the configuration document lives under the given home
    /// directory.
    pub fn conf_path(home: &str) -> (r: String)
        ensures
            r@ == home@ + chat_root_suffix() + conf_file_suffix(),
    {
        chat_root(home).concat("/chat.conf.json")
    }
}

/// The application identity handed to the hosted content.
#[derive(Debug, PartialEq, Eq)]
pub struct AppInfo {
    pub name: String,
    pub version: String,
}

} // verus!
