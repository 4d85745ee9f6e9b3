//! Minimum-version gate for the plugin API: compare the version triple the
//! host offers against the required minimum, lexicographically, and answer
//! with a result code.

use vstd::prelude::*;

verus! {

/// A plugin API version triple.
#[derive(Clone, Copy, Debug, PartialEq, Eq, Structural)]
pub struct WslVersion {
    pub major: u32,
    pub minor: u32,
    pub revision: u32,
}

/// The success result code.
pub const S_OK: i32 = 0;

/// The result code telling the host that the plugin needs a newer API
/// (the error value 0x8004032A).
pub const WSL_E_PLUGIN_REQUIRES_UPDATE: i32 = -2147220694;

/// True when the triple (major, minor, revision) is lexicographically below
/// the required triple.
pub open spec fn version_below(
    v: WslVersion,
    required_major: u32,
    required_minor: u32,
    required_revision: u32,
) -> bool {
    ||| v.major < required_major
    ||| (v.major == required_major && v.minor < required_minor)
    ||| (v.major == required_major && v.minor == required_minor && v.revision < required_revision)
}

/// Compare the API version against the required minimum: `S_OK` when the API
/// version meets or exceeds it, `WSL_E_PLUGIN_REQUIRES_UPDATE` otherwise.
pub fn require_version(
    required_major: u32,
    required_minor: u32,
    required_revision: u32,
    api: &WslVersion,
) -> (r: i32)
    ensures
        r == if version_below(*api, required_major, required_minor, required_revision) {
            WSL_E_PLUGIN_REQUIRES_UPDATE
        } else {
            S_OK
        },
{
    if api.major < required_major || (api.major == required_major && api.minor < required_minor)
        || (api.major == required_major && api.minor == required_minor && api.revision
        < required_revision) {
        WSL_E_PLUGIN_REQUIRES_UPDATE
    } else {
        S_OK
    }
}

} // verus!
