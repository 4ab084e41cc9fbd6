use mdbook_docker_run::walker::{collect_forest, map_forest, Node};

fn content(title: &str, body: &str, children: Vec<Node>) -> Node {
    Node::Content { title: title.to_string(), body: body.to_string(), children }
}

#[test]
fn collects_bodies_in_traversal_order() {
    let roots = vec![
        content(
            "intro",
            "intro-body",
            vec![content("nested", "nested-body", vec![]), Node::Leaf],
        ),
        Node::Leaf,
        Node::Titled { title: "part two".to_string() },
        content("outro", "outro-body", vec![]),
    ];
    let bodies = collect_forest(&roots);
    assert_eq!(bodies, vec!["intro-body", "nested-body", "outro-body"]);
}

#[test]
fn mapping_replaces_bodies_and_keeps_structure() {
    let roots = vec![
        content(
            "intro",
            "intro-body",
            vec![content("nested", "nested-body", vec![]), Node::Leaf],
        ),
        Node::Leaf,
        Node::Titled { title: "part two".to_string() },
        content("outro", "outro-body", vec![]),
    ];
    let new_bodies =
        vec!["INTRO".to_string(), "NESTED".to_string(), "OUTRO".to_string()];
    let mapped = map_forest(&roots, &new_bodies);
    let expected = vec![
        content("intro", "INTRO", vec![content("nested", "NESTED", vec![]), Node::Leaf]),
        Node::Leaf,
        Node::Titled { title: "part two".to_string() },
        content("outro", "OUTRO", vec![]),
    ];
    assert_eq!(mapped, expected);
}

#[test]
fn mapping_an_empty_forest_gives_an_empty_forest() {
    let roots: Vec<Node> = Vec::new();
    let bodies = collect_forest(&roots);
    assert!(bodies.is_empty());
    let mapped = map_forest(&roots, &bodies);
    assert!(mapped.is_empty());
}

#[test]
fn round_trip_with_collected_bodies_is_identity() {
    let roots = vec![content(
        "only",
        "the body",
        vec![content("child", "child body", vec![])],
    )];
    let bodies = collect_forest(&roots);
    let mapped = map_forest(&roots, &bodies);
    assert_eq!(mapped, roots);
}
