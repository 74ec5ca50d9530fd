//! The decisions that the commands of the client make between their calls
//! to the file system and to the service.
use vstd::prelude::*;
use vstd::string::*;

use crate::chain::{Chain, chain_with_id};
use crate::types::GraphConfig;

verus! {

/// Fills in the chain of a configuration that has none from the chain id
/// the service reports, when that id is a supported chain. Returns whether
/// the configuration changed, and so should be written back.
pub fn adopt_reported_chain(config: &mut GraphConfig, reported: u64) -> (changed: bool)
    ensures
        changed <==> (old(config).chain is None && chain_with_id(reported) is Some),
        changed ==> final(config).chain == chain_with_id(reported),
        !changed ==> final(config).chain == old(config).chain,
        final(config).id == old(config).id,
        final(config).version_id == old(config).version_id,
{
    if config.chain.is_none() {
        match Chain::try_from(reported) {
            Ok(c) => {
                config.chain = Some(c);
                true
            },
            Err(_) => false,
        }
    } else {
        false
    }
}

/// The message when no graph to fork is named.
pub open spec fn missing_fork_id_message() -> Seq<char> {
    "must pass --id if not --replace"@
}

/// The graph to fork: the id given, else the id of the current graph when
/// it is being replaced (`current` is present only then), else an error.
pub fn fork_source_id(given: Option<String>, current: Option<String>) -> (r: Result<String, String>)
    ensures
        given is Some ==> r == Ok::<String, String>(given->0),
        given is None && current is Some ==> r == Ok::<String, String>(current->0),
        given is None && current is None ==> r is Err && r->Err_0@ == missing_fork_id_message(),
{
    match given {
        Some(id) => Ok(id),
        None => match current {
            Some(id) => Ok(id),
            None => Err(String::from_str("must pass --id if not --replace")),
        },
    }
}

/// The name of a new graph: the name given, else the name of its directory,
/// else `My Index`.
pub fn new_graph_name(given: Option<String>, dir_name: Option<String>) -> (r: String)
    ensures
        given is Some ==> r == given->0,
        given is None && dir_name is Some ==> r == dir_name->0,
        given is None && dir_name is None ==> r@ == "My Index"@,
{
    match given {
        Some(n) => n,
        None => match dir_name {
            Some(n) => n,
            None => String::from_str("My Index"),
        },
    }
}

} // verus!
