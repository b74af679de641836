use bioma::transport::{LineEvent, SocketEvent, StdioTransport, WebSocketTransport, LINE_END};

#[test]
fn an_outgoing_line_ends_with_a_line_end() {
    let t = StdioTransport::new();
    assert_eq!(t.outgoing("hi"), Some(vec![b'h', b'i', b'\n']));
    assert_eq!(t.outgoing("é"), Some(vec![0xC3, 0xA9, LINE_END]));
    assert_eq!(t.outgoing(""), None);
}

#[test]
fn the_line_reader_forwards_lines_until_the_input_ends() {
    let mut t = StdioTransport::new();
    assert_eq!(t.on_read(LineEvent::Line("a".to_string())), Some("a".to_string()));
    assert!(t.reading);
    t.on_forwarded(true);
    assert!(t.reading);
    assert_eq!(t.on_read(LineEvent::End), None);
    assert!(!t.reading);
    let mut t = StdioTransport::new();
    assert_eq!(t.on_read(LineEvent::Fault), None);
    assert!(!t.reading);
}

#[test]
fn the_line_reader_stops_when_nobody_listens() {
    let mut t = StdioTransport::new();
    t.on_forwarded(false);
    assert!(!t.reading);
}

#[test]
fn a_socket_without_peer_sends_nothing() {
    let t = WebSocketTransport::new("127.0.0.1:9000".to_string());
    assert_eq!(t.addr, "127.0.0.1:9000");
    assert!(!t.writer_open);
    assert_eq!(t.outgoing("hi".to_string()), None);
}

#[test]
fn a_socket_with_peer_sends_what_is_not_empty() {
    let mut t = WebSocketTransport::new("127.0.0.1:9000".to_string());
    t.on_accept();
    assert!(t.writer_open && t.reading);
    assert_eq!(t.outgoing("hi".to_string()), Some("hi".to_string()));
    assert_eq!(t.outgoing(String::new()), None);
}

#[test]
fn socket_events() {
    let mut t = WebSocketTransport::new("a".to_string());
    t.on_accept();
    assert_eq!(t.on_event(SocketEvent::Text("x".to_string())), Some("x".to_string()));
    assert!(t.writer_open && t.reading);
    assert_eq!(t.on_event(SocketEvent::Other), None);
    assert!(t.writer_open && t.reading);
    assert_eq!(t.on_event(SocketEvent::Close), None);
    assert!(!t.writer_open && !t.reading);
    t.on_accept();
    assert_eq!(t.on_event(SocketEvent::Fault), None);
    assert!(!t.writer_open && !t.reading);
}

#[test]
fn a_socket_keeps_its_writer_when_nobody_listens() {
    let mut t = WebSocketTransport::new("a".to_string());
    t.on_accept();
    t.on_forwarded(true);
    assert!(t.reading);
    t.on_forwarded(false);
    assert!(t.writer_open);
    assert!(!t.reading);
}
