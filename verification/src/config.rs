//! What the bot learns about itself at start-up, and the command-dispatch
//! configuration built from it.

use std::collections::HashSet;
use vstd::prelude::*;
use vstd::string::*;

verus! {

broadcast use vstd::std_specs::hash::group_hash_axioms;

/// The part of the application metadata that the bot keeps: its own identifier
/// and the identifier of the user who registered it.
#[derive(Clone, Copy, Debug, PartialEq, Eq, Structural)]
pub struct ApplicationInfo {
    pub id: u64,
    pub owner_id: u64,
}

/// The characters that introduce a command.
pub open spec fn prefix_chars() -> Seq<char> {
    "~"@
}

/// The command prefix, `"~"`.
pub fn command_prefix() -> (prefix: &'static str)
    ensures
        prefix@ == prefix_chars(),
{
    "~"
}

/// The users allowed to run owner-only commands: the registered owner of the
/// application and nobody else.
pub fn owner_set(info: &ApplicationInfo) -> (owners: HashSet<u64>)
    ensures
        owners@ == set![info.owner_id],
{
    let mut owners: HashSet<u64> = HashSet::new();
    owners.insert(info.owner_id);
    owners
}

/// How commands are dispatched: the prefix that introduces them and the users
/// with elevated rights.
pub struct DispatchConfig {
    pub prefix: String,
    pub owners: HashSet<u64>,
}

impl DispatchConfig {
    /// The configuration for the application described by `info`.
    pub fn for_application(info: &ApplicationInfo) -> (config: DispatchConfig)
        ensures
            config.prefix@ == prefix_chars(),
            config.owners@ == set![info.owner_id],
    {
        DispatchConfig { prefix: String::from_str(command_prefix()), owners: owner_set(info) }
    }
}

} // verus!
