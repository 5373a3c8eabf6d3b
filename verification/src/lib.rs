pub mod controller;
pub mod errors;
pub mod fingerprint;
pub mod manager;
pub mod manifest;
pub mod service;
pub mod system;
pub mod textutil;
pub mod webserver;

use vstd::prelude::*;

verus! {

/// Directory under which execution markers are written.
pub const SYSTEM_DIRECTIVE_PATH: &'static str = "/tmp";

} // verus!
