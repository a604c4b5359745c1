use relay_launcher::strategy::LaunchStrategy;
use relay_launcher::strategy::first_strategy;
use relay_launcher::strategy::local_binary_paths;
use relay_launcher::strategy::next_strategy;

#[test]
fn strategies_are_tried_in_priority_order() {
    let first = first_strategy();
    assert_eq!(first, LaunchStrategy::Docker);
    let second = next_strategy(first).expect("a second strategy follows Docker");
    assert_eq!(second, LaunchStrategy::LocalBinary);
    let third = next_strategy(second).expect("a third strategy follows the local binary");
    assert_eq!(third, LaunchStrategy::Sidecar);
    assert!(next_strategy(third).is_none());
}

#[test]
fn local_binary_search_list_is_fixed_and_ordered() {
    let paths = local_binary_paths();
    assert_eq!(
        paths,
        vec![
            "/usr/local/bin/nostr-rs-relay",
            "/usr/bin/nostr-rs-relay",
            "/opt/homebrew/bin/nostr-rs-relay",
            "./nostr-rs-relay",
        ]
    );
}
