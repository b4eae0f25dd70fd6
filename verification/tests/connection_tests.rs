use relay_pagination::KeyedCursorProvider;
use relay_pagination::Location;
use relay_pagination::OffsetCursor;
use relay_pagination::OffsetCursorProvider;
use relay_pagination::PageInfo;
use relay_pagination::PageRequest;
use relay_pagination::RelayConnection;
use relay_pagination::RelayEdge;

#[derive(Debug, Clone, Eq, PartialEq)]
pub struct User {
    name: String,
}

#[test]
fn connection_types_are_generated() {
    let conn = RelayConnection::<User> {
        count: 12,
        edges: vec![],
        page_info: PageInfo {
            start_cursor: None,
            end_cursor: None,
            has_prev_page: false,
            has_next_page: false,
        },
    };

    assert_eq!(conn.count, 12);
    assert_eq!(conn.edges.len(), 0);
}

#[test]
fn edge_types_are_generated() {
    let edge = RelayEdge::<User> {
        node: User { name: "Lune".to_owned() },
        cursor: Some("some-string".to_owned()),
    };
    assert_eq!(edge.node.name, "Lune");
    assert_eq!(edge.cursor, Some("some-string".to_owned()));
}

#[test]
fn edge_implementation_new() {
    let edge = RelayEdge::new(
        User { name: "Lune".to_owned() },
        OffsetCursor { offset: 0, first: Some(10) },
    );
    assert_eq!(edge.node.name, "Lune");
    assert_eq!(edge.cursor, Some("b2Zmc2V0fHwwfHwxMA==".into()));

    let edge2 = RelayEdge::new_raw_cursor(
        User { name: "Sciel".to_owned() },
        Some("some-cursor".to_owned()),
    );
    assert_eq!(edge2.node.name, "Sciel");
    assert_eq!(edge2.cursor, Some("some-cursor".into()));
}

/// Edge order matches input node order exactly, and `count` is the supplied
/// total, not the number of edges.
#[test]
fn connection_assembly_offset_provider() {
    let nodes = vec![
        User { name: "Lune".to_owned() },
        User { name: "Sciel".to_owned() },
        User { name: "Verso".to_owned() },
    ];
    let conn = RelayConnection::new(
        nodes,
        10,
        &OffsetCursorProvider::new(),
        Some(PageRequest { first: Some(3), after: None }),
    );

    assert_eq!(conn.count, 10);
    assert_eq!(conn.edges.len(), 3);
    assert_eq!(conn.edges[0].node.name, "Lune");
    assert_eq!(conn.edges[1].node.name, "Sciel");
    assert_eq!(conn.edges[2].node.name, "Verso");
    // base64 of "offset||0", "offset||1", "offset||2".
    assert_eq!(conn.edges[0].cursor, Some("b2Zmc2V0fHww".to_owned()));
    assert_eq!(conn.edges[1].cursor, Some("b2Zmc2V0fHwx".to_owned()));
    assert_eq!(conn.edges[2].cursor, Some("b2Zmc2V0fHwy".to_owned()));
    assert!(!conn.page_info.has_prev_page);
    assert!(conn.page_info.has_next_page);
    assert_eq!(conn.page_info.start_cursor, Some("b2Zmc2V0fHww".to_owned()));
    assert_eq!(conn.page_info.end_cursor, Some("b2Zmc2V0fHwy".to_owned()));
}

#[test]
fn connection_assembly_keyed_provider() {
    let nodes = vec![
        Location { id: "id-1".to_owned(), name: "Lumiére".to_owned() },
        Location { id: "id-2".to_owned(), name: "Flying Waters".to_owned() },
    ];
    let conn = RelayConnection::new(
        nodes,
        30,
        &KeyedCursorProvider,
        Some(PageRequest { first: Some(2), after: Some("c3RyaW5nfHxpZC0w".to_owned()) }),
    );

    assert_eq!(conn.count, 30);
    assert_eq!(conn.edges.len(), 2);
    assert_eq!(conn.edges[0].cursor, Some("c3RyaW5nfHxpZC0x".to_owned()));
    assert_eq!(conn.edges[1].cursor, Some("c3RyaW5nfHxpZC0y".to_owned()));
    assert!(conn.page_info.has_prev_page);
    assert!(conn.page_info.has_next_page);
    assert_eq!(conn.page_info.start_cursor, Some("c3RyaW5nfHxpZC0x".to_owned()));
    assert_eq!(conn.page_info.end_cursor, Some("c3RyaW5nfHxpZC0y".to_owned()));
}

/// An empty page assembles into an empty connection that still reports the
/// supplied total.
#[test]
fn connection_assembly_empty_page() {
    let conn = RelayConnection::<User>::new(vec![], 7, &OffsetCursorProvider::new(), None);
    assert_eq!(conn.count, 7);
    assert_eq!(conn.edges.len(), 0);
    assert_eq!(conn.page_info.start_cursor, None);
    assert_eq!(conn.page_info.end_cursor, None);
    assert!(!conn.page_info.has_next_page);
    assert!(!conn.page_info.has_prev_page);
}
