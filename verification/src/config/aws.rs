//! The entries the broker writes into the cloud CLI's own config file.
//!
//! The file itself is INI-shaped and read and written by the caller; what
//! belongs into it — the section name and the credential-process line of a
//! profile — is built here.

use vstd::prelude::*;
use vstd::string::StringExecFns;

verus! {

/// The key under which the broker registers itself in a profile section.
pub const PROFILE_KEY: &'static str = "credential_process";

/// The section a profile of this name lives under.
pub fn profile_section_name(name: &str) -> (r: String)
    ensures
        r@ == "profile "@ + name@,
{
    "profile ".to_owned().concat(name)
}

/// The command line the cloud CLI runs to obtain credentials for a profile.
pub fn credential_process_value(name: &str) -> (r: String)
    ensures
        r@ == "sh -c 'crowbar creds "@ + name@ + " -p 2> /dev/tty'"@,
{
    "sh -c 'crowbar creds ".to_owned().concat(name).concat(" -p 2> /dev/tty'")
}

} // verus!
