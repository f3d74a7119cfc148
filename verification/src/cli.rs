//! The data the command line hands the broker: which action to run, for
//! which profile, and how loud. Reading the actual arguments is the caller's
//! business; the shapes and the log-level rule live here.

use crate::config::app::AppProfile;
use crate::text::str_eq;
use crate::utils::LevelFilter;
use vstd::prelude::*;

verus! {

/// Everything one invocation needs to know.
#[derive(Debug)]
pub struct CliConfig {
    pub force: bool,
    pub location: Option<String>,
    pub log_level: LevelFilter,
    pub action: CliAction,
}

/// The action of one invocation.
#[derive(Debug)]
pub enum CliAction {
    Profiles { action: CliSubAction },
    Exec { command: Vec<String>, profile: String },
    Creds { profile: String, print: bool },
}

/// What to do with the profile list.
#[derive(Debug)]
pub enum CliSubAction {
    Add { profile: AppProfile },
    Delete { profile_name: String },
    List,
}

/// The log level a name selects; an unknown name falls back to the default.
pub fn select_log_level(selected_level: &str) -> (r: LevelFilter)
    ensures
        selected_level@ == "trace"@ ==> r == LevelFilter::Trace,
        selected_level@ == "debug"@ ==> r == LevelFilter::Debug,
        selected_level@ != "trace"@ && selected_level@ != "debug"@ ==> r == LevelFilter::Info,
{
    proof {
        reveal_strlit("trace");
        reveal_strlit("debug");
        assert("trace"@[0] == 't' && "debug"@[0] == 'd');
        assert("trace"@ != "debug"@);
    }
    if str_eq(selected_level, "trace") {
        LevelFilter::Trace
    } else if str_eq(selected_level, "debug") {
        LevelFilter::Debug
    } else {
        LevelFilter::Info
    }
}

} // verus!
