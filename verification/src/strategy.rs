//! How the relay process is spawned: the ordered launch strategies.
//!
//! A start request tries the strategies in a fixed priority order — a Docker
//! container first, then a relay binary found on a fixed list of filesystem
//! paths, then the bundled sidecar — and the first one whose spawn succeeds
//! wins. The spawning itself is outside work; the library fixes the order
//! and the search list.

use vstd::prelude::*;

verus! {

/// One way of spawning the relay process.
#[derive(Debug, Clone, Copy, PartialEq, Eq, Structural)]
pub enum LaunchStrategy {
    /// Run the relay's container image under Docker.
    Docker,
    /// Run a relay binary found on one of the fixed filesystem paths.
    LocalBinary,
    /// Run the sidecar executable bundled with the application.
    Sidecar,
}

/// The priority order of the launch strategies.
pub open spec fn strategy_order_spec() -> Seq<LaunchStrategy> {
    seq![LaunchStrategy::Docker, LaunchStrategy::LocalBinary, LaunchStrategy::Sidecar]
}

/// The strategy a start request tries first.
pub fn first_strategy() -> (s: LaunchStrategy)
    ensures
        s == strategy_order_spec()[0],
{
    LaunchStrategy::Docker
}

/// The strategy tried after `failed`, if any is left.
pub open spec fn next_strategy_spec(failed: LaunchStrategy) -> Option<LaunchStrategy> {
    match failed {
        LaunchStrategy::Docker => Some(LaunchStrategy::LocalBinary),
        LaunchStrategy::LocalBinary => Some(LaunchStrategy::Sidecar),
        LaunchStrategy::Sidecar => None,
    }
}

/// Decides which strategy to try after `failed` could not spawn the relay.
pub fn next_strategy(failed: LaunchStrategy) -> (n: Option<LaunchStrategy>)
    ensures
        n == next_strategy_spec(failed),
{
    match failed {
        LaunchStrategy::Docker => Some(LaunchStrategy::LocalBinary),
        LaunchStrategy::LocalBinary => Some(LaunchStrategy::Sidecar),
        LaunchStrategy::Sidecar => None,
    }
}

/// The fixed, ordered list of filesystem paths searched for a local relay
/// binary.
pub fn local_binary_paths() -> (paths: Vec<&'static str>)
    ensures
        paths@.len() == 4,
        paths@[0]@ == "/usr/local/bin/nostr-rs-relay"@,
        paths@[1]@ == "/usr/bin/nostr-rs-relay"@,
        paths@[2]@ == "/opt/homebrew/bin/nostr-rs-relay"@,
        paths@[3]@ == "./nostr-rs-relay"@,
{
    let mut paths: Vec<&'static str> = Vec::new();
    paths.push("/usr/local/bin/nostr-rs-relay");
    paths.push("/usr/bin/nostr-rs-relay");
    paths.push("/opt/homebrew/bin/nostr-rs-relay");
    paths.push("./nostr-rs-relay");
    paths
}

/// Walking the strategies from the first through `next_strategy` visits
/// exactly the priority order, each strategy once, and then stops.
pub proof fn lemma_strategies_walk_the_priority_order()
    ensures
        strategy_order_spec().len() == 3,
        next_strategy_spec(strategy_order_spec()[0]) == Some(strategy_order_spec()[1]),
        next_strategy_spec(strategy_order_spec()[1]) == Some(strategy_order_spec()[2]),
        next_strategy_spec(strategy_order_spec()[2]) is None,
{
}

} // verus!
