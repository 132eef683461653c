use dhall_mock::xml::{Node, XmlEvent};

fn node(name: &str, attributes: Vec<(&str, &str)>, sub: Vec<Node>, value: Option<&str>) -> Node {
    Node {
        name: name.as_bytes().to_vec(),
        attributes: attributes
            .into_iter()
            .map(|(k, v)| (k.as_bytes().to_vec(), v.as_bytes().to_vec()))
            .collect(),
        sub: sub.into_iter().map(Box::new).collect(),
        value: value.map(|v| v.as_bytes().to_vec()),
    }
}

#[test]
fn partial_match_accepts_subset() {
    let doc = node(
        "tag1",
        vec![("att1", "test"), ("att2", "other")],
        vec![node("tag2", vec![], vec![], Some("Test")), node("tag2", vec![], vec![], Some("Test 2"))],
        None,
    );
    let pattern = node("tag1", vec![("att1", "test")], vec![node("tag2", vec![], vec![], Some("Test 2"))], None);
    assert!(doc.partial_match(&pattern));
    let bare = node("tag1", vec![], vec![], None);
    assert!(doc.partial_match(&bare));
}

#[test]
fn partial_match_refuses_differences() {
    let doc = node("tag1", vec![("att1", "test")], vec![node("tag2", vec![], vec![], Some("Test"))], None);
    assert!(!doc.partial_match(&node("tag3", vec![], vec![], None)));
    assert!(!doc.partial_match(&node("tag1", vec![("att1", "other")], vec![], None)));
    assert!(!doc.partial_match(&node("tag1", vec![("missing", "x")], vec![], None)));
    assert!(doc.partial_match(&node("tag1", vec![], vec![], Some("text"))));
    assert!(!doc.partial_match(&node("tag1", vec![], vec![node("tag2", vec![], vec![], Some("Other"))], None)));
    let two = node(
        "tag1",
        vec![],
        vec![node("tag2", vec![], vec![], None), node("tag2", vec![], vec![], None)],
        None,
    );
    assert!(!doc.partial_match(&two));
}

#[test]
fn test_parsing_xml() {
    let xml = r#"<tag1 att1 = "test">
                        <tag2><!--Test comment-->Test</tag2>
                        <tag2>
                            Test 2
                        </tag2>
                    </tag1>"#;

    let tested = Node::parse(xml);

    let tag2_1 = Box::new(Node {
        name: b"tag2".to_vec(),
        attributes: vec![],
        sub: vec![],
        value: Some(b"Test".to_vec()),
    });

    let tag2_2 = Box::new(Node {
        name: b"tag2".to_vec(),
        attributes: vec![],
        sub: vec![],
        value: Some(b"Test 2".to_vec()),
    });

    let attrs_tag1 = vec![(b"att1".to_vec(), b"test".to_vec())];

    let tag1 = Box::new(Node {
        name: b"tag1".to_vec(),
        attributes: attrs_tag1,
        sub: vec![tag2_1, tag2_2],
        value: None,
    });

    assert_eq!(vec![tag1], tested);
}

#[test]
fn build_stops_at_unmatched_end() {
    let events = vec![
        XmlEvent::Start { name: b"a".to_vec(), attributes: vec![] },
        XmlEvent::Text(b"x".to_vec()),
        XmlEvent::Start { name: b"b".to_vec(), attributes: vec![(b"k".to_vec(), b"v".to_vec())] },
        XmlEvent::End,
        XmlEvent::End,
        XmlEvent::End,
        XmlEvent::Start { name: b"ignored".to_vec(), attributes: vec![] },
        XmlEvent::End,
    ];
    let built = Node::build(events);
    let expected = node("a", vec![], vec![node("b", vec![("k", "v")], vec![], None)], Some("x"));
    assert_eq!(built, vec![Box::new(expected)]);
    assert!(Node::parse("").is_empty());
    assert!(Node::parse("<a><b></a").len() <= 1);
}
