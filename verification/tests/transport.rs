use signald_tui::bus::BusEntry;
use signald_tui::signald::signaldrequest::SignaldRequest;
use signald_tui::signald::signaldsocket::SignaldSocket;

fn line(text: &str) -> BusEntry {
    BusEntry::Line(text.as_bytes().to_vec())
}

fn socket() -> SignaldSocket {
    SignaldSocket::connect("/run/signald.sock".to_string(), 8)
}

#[test]
fn complete_lines_are_published() {
    let mut socket = socket();
    let mut rx = socket.get_rx();
    socket.receive(b"one\ntwo\n");
    assert_eq!(socket.bus().try_recv(&mut rx), Some(&line("one")));
    assert_eq!(socket.bus().try_recv(&mut rx), Some(&line("two")));
    assert_eq!(socket.bus().try_recv(&mut rx), None);
}

#[test]
fn partial_reads_are_buffered() {
    let mut socket = socket();
    let mut rx = socket.get_rx();
    socket.receive(b"{\"type\":");
    assert_eq!(socket.bus().try_recv(&mut rx), None);
    socket.receive(b"\"version\"");
    assert_eq!(socket.bus().try_recv(&mut rx), None);
    socket.receive(b"}\n{\"ty");
    assert_eq!(socket.bus().try_recv(&mut rx), Some(&line("{\"type\":\"version\"}")));
    assert_eq!(socket.bus().try_recv(&mut rx), None);
    socket.receive(b"pe\":\"x\"}\n");
    assert_eq!(socket.bus().try_recv(&mut rx), Some(&line("{\"type\":\"x\"}")));
    assert_eq!(socket.bus().try_recv(&mut rx), None);
}

#[test]
fn reading_byte_by_byte_gives_the_same_lines() {
    let stream = b"alpha\n\nbeta\ngam";
    let mut whole = socket();
    let mut rx_whole = whole.get_rx();
    whole.receive(stream);
    let mut bytewise = socket();
    let mut rx_bytewise = bytewise.get_rx();
    for byte in stream.iter() {
        bytewise.receive(&[*byte]);
    }
    for expected in ["alpha", "", "beta"] {
        assert_eq!(whole.bus().try_recv(&mut rx_whole), Some(&line(expected)));
        assert_eq!(bytewise.bus().try_recv(&mut rx_bytewise), Some(&line(expected)));
    }
    assert_eq!(whole.bus().try_recv(&mut rx_whole), None);
    assert_eq!(bytewise.bus().try_recv(&mut rx_bytewise), None);
}

#[test]
fn empty_read_changes_nothing() {
    let mut socket = socket();
    let mut rx = socket.get_rx();
    socket.receive(b"");
    assert_eq!(socket.bus().published(), 0);
    assert_eq!(socket.bus().try_recv(&mut rx), None);
}

#[test]
fn heartbeat_is_published_between_lines() {
    let mut socket = socket();
    let mut rx = socket.get_rx();
    socket.receive(b"a\nb");
    socket.heartbeat();
    socket.receive(b"c\n");
    assert_eq!(socket.bus().try_recv(&mut rx), Some(&line("a")));
    assert_eq!(socket.bus().try_recv(&mut rx), Some(&BusEntry::Heartbeat));
    assert_eq!(socket.bus().try_recv(&mut rx), Some(&line("bc")));
    assert_eq!(socket.bus().try_recv(&mut rx), None);
}

#[test]
fn request_is_framed_with_a_line_feed() {
    let socket = socket();
    let mut request = SignaldRequest::default();
    request.typ = "version".to_string();
    assert_eq!(socket.send_request(&request), "{\"type\":\"version\",\"username\":\"\"}\n");
    assert_eq!(socket.socket_path(), "/run/signald.sock");
}

#[test]
fn transport_starts_empty() {
    let socket = socket();
    assert_eq!(socket.bus().capacity(), 8);
    assert_eq!(socket.bus().published(), 0);
}
