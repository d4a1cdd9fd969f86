use mouse_share::config::{edge_from_lowercase, invalid_edge_message, parse_edge, Edge, ScreenConfig};
use mouse_share::protocol::ScreenInfo;

#[test]
fn parses_each_lowercase_edge() {
    assert_eq!(parse_edge("left"), Ok(Edge::Left));
    assert_eq!(parse_edge("right"), Ok(Edge::Right));
    assert_eq!(parse_edge("top"), Ok(Edge::Top));
    assert_eq!(parse_edge("bottom"), Ok(Edge::Bottom));
}

#[test]
fn parsing_ignores_case() {
    assert_eq!(parse_edge("RIGHT"), Ok(Edge::Right));
    assert_eq!(parse_edge("Left"), Ok(Edge::Left));
    assert_eq!(parse_edge("toP"), Ok(Edge::Top));
    assert_eq!(parse_edge("BoTtOm"), Ok(Edge::Bottom));
}

#[test]
fn unknown_edge_is_refused_with_the_input_quoted() {
    assert_eq!(
        parse_edge("Middle"),
        Err("invalid edge: Middle, expected left/right/top/bottom".to_string())
    );
    assert_eq!(
        parse_edge(""),
        Err("invalid edge: , expected left/right/top/bottom".to_string())
    );
    assert_eq!(
        parse_edge(" left"),
        Err("invalid edge:  left, expected left/right/top/bottom".to_string())
    );
}

#[test]
fn from_str_goes_through_the_parser() {
    let e: Edge = "top".parse().unwrap();
    assert_eq!(e, Edge::Top);
    let bad: Result<Edge, String> = "sideways".parse();
    assert_eq!(bad, Err("invalid edge: sideways, expected left/right/top/bottom".to_string()));
}

#[test]
fn lowercase_lookup_is_exact() {
    assert_eq!(edge_from_lowercase("left"), Some(Edge::Left));
    assert_eq!(edge_from_lowercase("LEFT"), None);
    assert_eq!(edge_from_lowercase("lef"), None);
    assert_eq!(edge_from_lowercase("lefts"), None);
}

#[test]
fn invalid_message_text() {
    assert_eq!(invalid_edge_message("x"), "invalid edge: x, expected left/right/top/bottom");
}

#[test]
fn new_config_has_no_client_screen() {
    let server = ScreenInfo { width: 1920, height: 1080 };
    let c = ScreenConfig::new(server, Edge::Left);
    assert_eq!(c.server_screen, server);
    assert_eq!(c.client_screen, None);
    assert_eq!(c.edge, Edge::Left);
    assert_eq!(c.target_screen(), server);
}

#[test]
fn target_screen_prefers_the_client() {
    let mut c = ScreenConfig::new(ScreenInfo { width: 1920, height: 1080 }, Edge::Right);
    c.client_screen = Some(ScreenInfo { width: 2560, height: 1440 });
    assert_eq!(c.target_screen(), ScreenInfo { width: 2560, height: 1440 });
}
