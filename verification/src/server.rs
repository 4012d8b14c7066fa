//! Settings of the server that hands out the static files, and the page it
//! answers with when there is nothing to hand out.

use vstd::prelude::*;

verus! {

/// The port to listen on unless another is asked for.
pub const DEFAULT_PORT: u64 = 80;

/// The address to listen on unless another is asked for.
pub const DEFAULT_ADDRESS: &'static str = "127.0.0.1";

/// Where the server listens and what it serves.
#[derive(Debug, PartialEq, Eq)]
pub struct ServerSettings {
    pub port: u64,
    pub address: String,
    pub folder: String,
}

impl ServerSettings {
    /// The settings for what the environment asks for: each of port,
    /// address and folder as given, and the default where none is given.
    pub fn resolve(
        port: Option<u64>,
        address: Option<String>,
        folder: Option<String>,
        default_folder: &str,
    ) -> (settings: Self)
        ensures
            settings.port == (match port {
                Some(p) => p,
                None => DEFAULT_PORT,
            }),
            settings.address@ == (match address {
                Some(a) => a@,
                None => DEFAULT_ADDRESS@,
            }),
            settings.folder@ == (match folder {
                Some(f) => f@,
                None => default_folder@,
            }),
    {
        ServerSettings {
            port: match port {
                Some(p) => p,
                None => DEFAULT_PORT,
            },
            address: match address {
                Some(a) => a,
                None => DEFAULT_ADDRESS.to_owned(),
            },
            folder: match folder {
                Some(f) => f,
                None => default_folder.to_owned(),
            },
        }
    }
}

/// Markup of the fallback page, as a sequence of characters.
pub open spec fn not_found_page() -> Seq<char> {
    "\n         <p>Hmm... What are you looking for?</p>\n    "@
}

/// Body sent back when a requested path matches nothing.
pub fn not_found() -> (page: &'static str)
    ensures
        page@ == not_found_page(),
{
    "\n         <p>Hmm... What are you looking for?</p>\n    "
}

} // verus!
