use mdbook_docker_run::descriptor::{parse_instance, DescriptorError};
use mdbook_docker_run::engine::{EngineAction, EngineEvent, Execution};
use mdbook_docker_run::extract::{ScanError, Segment, Token, TokenKind};
use mdbook_docker_run::markdown::{rebuild_body, scan_body};
use mdbook_docker_run::render::render_output;
use mdbook_docker_run::walker::{collect_forest, map_forest, Node};

#[test]
fn renders_plain_output_wrapped_as_markup() {
    let out = render_output(&b"hello\n".to_vec()).unwrap();
    assert_eq!(out, "<pre><code>hello\n</code></pre>");
}

#[test]
fn renders_empty_output_as_an_empty_wrapper() {
    let out = render_output(&Vec::new()).unwrap();
    assert_eq!(out, "<pre><code></code></pre>");
}

#[test]
fn rendering_rewrites_terminal_styling() {
    let out = render_output(&b"\x1b[31mred\x1b[0m".to_vec()).unwrap();
    assert!(out.contains("<span"));
    assert!(out.contains("red"));
    assert!(!out.contains('\x1b'));
}

#[test]
fn rendering_replaces_invalid_utf8() {
    let out = render_output(&vec![0xff, 0xfe, b'h', b'i']).unwrap();
    assert!(out.contains("hi"));
    assert!(out.starts_with("<pre><code>"));
}

#[test]
fn rendering_escapes_markup_characters() {
    let out = render_output(&b"<script>".to_vec()).unwrap();
    assert_eq!(out, "<pre><code>&lt;script&gt;</code></pre>");
}

#[test]
fn scans_a_body_into_classified_tokens_and_segments() {
    let body = "Some prose.\n\n```docker-run\nimage: alpine\nscript:\n  - echo hello\n```\n\nA tail.\n";
    let (events, tokens, segments) = scan_body(body, &"docker-run".to_string()).unwrap();
    assert_eq!(events.len(), tokens.len());
    let tasks: Vec<&Segment> =
        segments.iter().filter(|s| matches!(s, Segment::Task { .. })).collect();
    assert_eq!(tasks.len(), 1);
    match tasks[0] {
        Segment::Task { payload, lo, hi } => {
            assert_eq!(payload, "image: alpine\nscript:\n  - echo hello\n");
            assert_eq!(hi - lo, 3);
            assert!(matches!(tokens[*lo], Token::CodeStart { .. }));
        }
        _ => unreachable!(),
    }
}

#[test]
fn a_block_without_payload_fails_the_scan() {
    let body = "```docker-run\n```\n";
    let err = scan_body(body, &"docker-run".to_string()).unwrap_err();
    assert!(matches!(err, ScanError::MissingPayload { found: Some(TokenKind::End), .. }));
}

#[test]
fn other_fences_pass_through_the_scan() {
    let body = "```rust\nfn main() {}\n```\n";
    let (_, _, segments) = scan_body(body, &"docker-run".to_string()).unwrap();
    assert!(segments.iter().all(|s| matches!(s, Segment::Literal { .. })));
}

#[test]
fn rebuilding_splices_rendered_markup_in_place() {
    let body = "Before.\n\n```docker-run\nscript: []\n```\n\nAfter.\n";
    let (events, _, segments) = scan_body(body, &"docker-run".to_string()).unwrap();
    let outputs = vec!["<pre><code>hello\n</code></pre>".to_string()];
    let rebuilt = rebuild_body(&events, &segments, &outputs).unwrap();
    assert!(rebuilt.contains("<pre><code>hello\n</code></pre>"));
    assert!(rebuilt.contains("Before."));
    assert!(rebuilt.contains("After."));
    assert!(!rebuilt.contains("docker-run"));
}

#[test]
fn one_content_node_document_maps_end_to_end() {
    let body = "```docker-run\nimage: alpine\nscript:\n  - echo hello\n```";
    let roots = vec![Node::Content {
        title: "chapter".to_string(),
        body: body.to_string(),
        children: vec![],
    }];
    let parallel: usize = 4;

    let bodies = collect_forest(&roots);
    assert_eq!(bodies.len(), 1);

    let (events, _, segments) = scan_body(&bodies[0], &"docker-run".to_string()).unwrap();
    let mut outputs: Vec<String> = Vec::new();
    for seg in &segments {
        if let Segment::Task { payload, .. } = seg {
            let d = parse_instance(payload).unwrap();
            assert_eq!(d.image.as_deref(), Some("alpine"));
            assert_eq!(d.script, vec!["echo hello".to_string()]);

            let (ex, act) = Execution::begin(d, parallel);
            assert_eq!(act, EngineAction::Acquire { weight: 1 });
            let (ex, act) = ex.step(EngineEvent::Admitted);
            assert_eq!(act, EngineAction::Inspect { image: "alpine".to_string() });
            let (ex, act) = ex.step(EngineEvent::Inspected { found: true });
            assert_eq!(
                act,
                EngineAction::Create {
                    image: "alpine".to_string(),
                    command: "echo hello".to_string()
                }
            );
            let (ex, _) = ex.step(EngineEvent::Created { container: "c1".to_string() });
            let (ex, _) = ex.step(EngineEvent::Attached);
            let (ex, _) = ex.step(EngineEvent::Started);
            let (ex, _) = ex.step(EngineEvent::OutputChunk { bytes: b"hello\n".to_vec() });
            let (_, act) = ex.step(EngineEvent::OutputEnd);
            let bytes = match act {
                EngineAction::Render { bytes } => bytes,
                other => panic!("expected a render action, got {other:?}"),
            };
            outputs.push(render_output(&bytes).unwrap());
        }
    }
    assert_eq!(outputs.len(), 1);

    let new_body = rebuild_body(&events, &segments, &outputs).unwrap();
    let mapped = map_forest(&roots, &vec![new_body]);

    assert_eq!(mapped.len(), 1);
    match &mapped[0] {
        Node::Content { title, body, children } => {
            assert_eq!(title, "chapter");
            assert!(children.is_empty());
            assert!(body.contains("<pre><code>hello\n</code></pre>"));
        }
        other => panic!("expected a content node, got {other:?}"),
    }
}

#[test]
fn a_payload_without_script_fails_the_whole_mapping() {
    let body = "```docker-run\nimage: alpine\n```";
    let (_, _, segments) = scan_body(body, &"docker-run".to_string()).unwrap();
    let mut failure: Option<DescriptorError> = None;
    for seg in &segments {
        if let Segment::Task { payload, .. } = seg {
            if let Err(e) = parse_instance(payload) {
                failure = Some(e);
            }
        }
    }
    assert_eq!(failure, Some(DescriptorError::MissingScript));
}
