use snet::medium::medium_targets;

// Broadcast exclusion: with peers a, b and c, a transmission from a
// reaches exactly b and c, never a itself.
#[test]
fn three_peers_exclude_sender() {
    let ports = vec![
        "upper_in_0".to_string(),
        "upper_in_1".to_string(),
        "upper_in_2".to_string(),
    ];

    let from_a = medium_targets(&ports, &"upper_in_0".to_string());
    assert_eq!(vec![1usize, 2], from_a);

    let from_b = medium_targets(&ports, &"upper_in_1".to_string());
    assert_eq!(vec![0usize, 2], from_b);

    let from_c = medium_targets(&ports, &"upper_in_2".to_string());
    assert_eq!(vec![0usize, 1], from_c);
}

#[test]
fn unknown_origin_reaches_everyone() {
    let ports = vec!["upper_in_0".to_string(), "upper_in_1".to_string()];
    let targets = medium_targets(&ports, &"somewhere_else".to_string());
    assert_eq!(vec![0usize, 1], targets);
}

#[test]
fn lone_peer_hears_nothing_of_itself() {
    let ports = vec!["upper_in_0".to_string()];
    let targets = medium_targets(&ports, &"upper_in_0".to_string());
    assert!(targets.is_empty());
}
