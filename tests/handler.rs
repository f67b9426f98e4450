use hello_listen::connection::{Action, ConnectionHandler, Event, Failure, Stage};
use hello_listen::response::frame_response;
use hello_listen::route::{route_request, Route};

fn line(s: &str) -> Event {
    Event::Line(s.to_string())
}

#[test]
fn routes_index_line() {
    assert_eq!(route_request("GET / HTTP/1.1"), Route::Index);
}

#[test]
fn routes_sleep_line() {
    assert_eq!(route_request("GET /sleep HTTP/1.1"), Route::Sleep);
}

#[test]
fn routes_everything_else_to_not_found() {
    for l in [
        "",
        "GET / HTTP/1.1 ",
        " GET / HTTP/1.1",
        "get / HTTP/1.1",
        "GET / HTTP/1.0",
        "GET /index.html HTTP/1.1",
        "GET /sleep HTTP/1.1\r",
        "POST / HTTP/1.1",
    ] {
        assert_eq!(route_request(l), Route::NotFound, "line {:?}", l);
    }
}

#[test]
fn route_status_and_file() {
    assert_eq!(Route::Index.status_line(), "HTTP/1.1 200 OK");
    assert_eq!(Route::Sleep.status_line(), "HTTP/1.1 200 OK");
    assert_eq!(Route::NotFound.status_line(), "HTTP/1.1 404 NOT FOUND");
    assert_eq!(Route::Index.file_path(), "resources/web_root/hello.html");
    assert_eq!(Route::Sleep.file_path(), "resources/web_root/hello.html");
    assert_eq!(Route::NotFound.file_path(), "resources/web_root/404.html");
    assert!(Route::Sleep.delays());
    assert!(!Route::Index.delays());
    assert!(!Route::NotFound.delays());
}

#[test]
fn frames_status_blank_line_and_body() {
    assert_eq!(
        frame_response("HTTP/1.1 200 OK", "<h1>Hi</h1>"),
        b"HTTP/1.1 200 OK\r\n\r\n<h1>Hi</h1>".to_vec()
    );
}

#[test]
fn frames_empty_body() {
    assert_eq!(frame_response("HTTP/1.1 404 NOT FOUND", ""), b"HTTP/1.1 404 NOT FOUND\r\n\r\n".to_vec());
}

#[test]
fn frames_non_ascii_body_as_utf8() {
    assert_eq!(frame_response("S", "é"), vec![b'S', b'\r', b'\n', b'\r', b'\n', 0xc3, 0xa9]);
}

#[test]
fn index_request_gets_hello_page() {
    let (mut h, first) = ConnectionHandler::start();
    assert_eq!(first, Action::ReadLine);
    assert_eq!(h.step(line("GET / HTTP/1.1")), Action::ReadFile("resources/web_root/hello.html".to_string()));
    assert_eq!(
        h.step(Event::FileRead("<p>hello</p>".to_string())),
        Action::Write(b"HTTP/1.1 200 OK\r\n\r\n<p>hello</p>".to_vec())
    );
    assert!(!h.is_done());
    assert_eq!(h.step(Event::Written), Action::Close);
    assert_eq!(h.stage, Stage::Finished);
    assert!(h.is_done());
}

#[test]
fn sleep_request_waits_then_answers_like_index() {
    let (mut h, _) = ConnectionHandler::start();
    assert_eq!(h.step(line("GET /sleep HTTP/1.1")), Action::Sleep(5000));
    assert_eq!(h.stage, Stage::Sleeping);
    assert_eq!(h.step(Event::SleepElapsed), Action::ReadFile("resources/web_root/hello.html".to_string()));
    assert_eq!(
        h.step(Event::FileRead("<p>hello</p>".to_string())),
        Action::Write(b"HTTP/1.1 200 OK\r\n\r\n<p>hello</p>".to_vec())
    );
}

#[test]
fn unknown_request_gets_not_found_page() {
    for l in ["GET /missing HTTP/1.1", "", "hello"] {
        let (mut h, _) = ConnectionHandler::start();
        assert_eq!(h.step(line(l)), Action::ReadFile("resources/web_root/404.html".to_string()));
        assert_eq!(
            h.step(Event::FileRead("gone".to_string())),
            Action::Write(b"HTTP/1.1 404 NOT FOUND\r\n\r\ngone".to_vec())
        );
    }
}

#[test]
fn silent_peer_gets_no_response() {
    let (mut h, _) = ConnectionHandler::start();
    assert_eq!(h.step(Event::Disconnected), Action::Abort(Failure::PeerDisconnected));
    assert!(h.is_done());
    assert_eq!(h.step(Event::FileRead("x".to_string())), Action::Ignore);
    assert_eq!(h.step(Event::Written), Action::Ignore);
    assert_eq!(h.stage, Stage::Failed(Failure::PeerDisconnected));
}

#[test]
fn missing_file_gets_no_response() {
    let (mut h, _) = ConnectionHandler::start();
    assert_eq!(h.step(line("GET /nothing HTTP/1.1")), Action::ReadFile("resources/web_root/404.html".to_string()));
    assert_eq!(h.step(Event::FileFailed), Action::Abort(Failure::FileUnreadable));
    assert!(h.is_done());
    assert_eq!(h.step(Event::FileRead("late".to_string())), Action::Ignore);
}

#[test]
fn read_failure_aborts() {
    let (mut h, _) = ConnectionHandler::start();
    assert_eq!(h.step(Event::ReadFailed), Action::Abort(Failure::ReadFailed));
    assert_eq!(h.stage, Stage::Failed(Failure::ReadFailed));
}

#[test]
fn write_failure_aborts() {
    let (mut h, _) = ConnectionHandler::start();
    h.step(line("GET / HTTP/1.1"));
    h.step(Event::FileRead(String::new()));
    assert_eq!(h.step(Event::WriteFailed), Action::Abort(Failure::WriteFailed));
    assert!(h.is_done());
}

#[test]
fn unexpected_event_is_ignored() {
    let (mut h, _) = ConnectionHandler::start();
    assert_eq!(h.step(Event::SleepElapsed), Action::Ignore);
    assert_eq!(h.step(Event::Written), Action::Ignore);
    assert_eq!(h.stage, Stage::AwaitingLine);
    assert_eq!(h.step(line("GET / HTTP/1.1")), Action::ReadFile("resources/web_root/hello.html".to_string()));
    assert_eq!(h.step(line("GET / HTTP/1.1")), Action::Ignore);
}
