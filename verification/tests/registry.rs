use servobridge::{
    click, erase, go_back, go_forward, init, init_with, layout_of_size, load_url, perform_updates,
    reload, resize, resize_view, scroll, shutdown, BrowserId, Margins, Position, ScrollState, ServoGlue, ServoResult, Sessions, Size,
    TraversalDirection, ViewLayout, WindowEvent,
};

fn layout(width: u32, height: u32) -> ViewLayout {
    ViewLayout {
        view_size: Size { width, height },
        margins: Margins { top: 0, right: 0, bottom: 0, left: 0 },
        position: Position { x: 0, y: 0 },
        hidpi_factor: 0x3f80_0000,
    }
}

const HOST: u64 = 1;
const WORKER: u64 = 2;

#[test]
fn init_binds_a_session_to_the_calling_thread() {
    let mut sessions = Sessions::new();
    assert!(!sessions.is_bound(HOST));
    assert!(sessions.get(HOST).is_none());
    let res = init(&mut sessions, HOST, b"https://example.org", b"/res", layout(320, 240));
    assert_eq!(res, ServoResult::Success);
    assert!(sessions.is_bound(HOST));
    assert!(!sessions.is_bound(WORKER));
    let glue = sessions.get(HOST).unwrap();
    assert_eq!(
        glue.submitted(),
        &vec![
            WindowEvent::NewBrowser("https://example.org/".to_string(), BrowserId(0)),
            WindowEvent::SelectBrowser(BrowserId(0)),
        ]
    );
    assert_eq!(glue.current_url(), &Some("https://example.org/".to_string()));
    assert_eq!(glue.resources_path(), "/res");
    assert_eq!(glue.layout(), layout(320, 240));
}

#[test]
fn init_refuses_undecodable_text() {
    let mut sessions = Sessions::new();
    assert_eq!(
        init(&mut sessions, HOST, b"https://example.org", &[0xff, 0xfe], layout(1, 1)),
        ServoResult::CantReadStr
    );
    assert_eq!(
        init(&mut sessions, HOST, &[0x80], b"/res", layout(1, 1)),
        ServoResult::CantReadStr
    );
    assert_eq!(init(&mut sessions, HOST, &[0x80], &[0x80], layout(1, 1)), ServoResult::CantReadStr);
    assert_eq!(
        init(&mut sessions, HOST, b"not a url", &[0x80], layout(1, 1)),
        ServoResult::CantReadStr
    );
    assert!(!sessions.is_bound(HOST));
}

#[test]
fn init_refuses_malformed_urls() {
    let mut sessions = Sessions::new();
    for url in ["not a url", "", "/relative/path", "http://", "://missing.scheme"] {
        assert_eq!(
            init(&mut sessions, HOST, url.as_bytes(), b"/res", layout(1, 1)),
            ServoResult::CantParseUrl
        );
        assert!(!sessions.is_bound(HOST));
    }
}

#[test]
fn failed_init_keeps_the_session_that_was_there() {
    let mut sessions = Sessions::new();
    init(&mut sessions, HOST, b"https://example.org", b"/res", layout(1, 1));
    reload(&mut sessions, HOST);
    assert_eq!(
        init(&mut sessions, HOST, b"not a url", b"/res", layout(9, 9)),
        ServoResult::CantParseUrl
    );
    assert_eq!(init(&mut sessions, HOST, &[0xff], b"/res", layout(9, 9)), ServoResult::CantReadStr);
    let glue = sessions.get(HOST).unwrap();
    assert_eq!(glue.pending(), &vec![WindowEvent::Reload(BrowserId(0))]);
    assert_eq!(glue.layout(), layout(1, 1));
}

#[test]
fn init_with_takes_up_either_outcome() {
    let mut sessions = Sessions::new();
    assert_eq!(
        init_with(&mut sessions, HOST, None, "/res".to_string(), layout(1, 1)),
        ServoResult::CantParseUrl
    );
    assert!(!sessions.is_bound(HOST));
    assert_eq!(
        init_with(
            &mut sessions,
            HOST,
            Some("https://example.org/".to_string()),
            "/res".to_string(),
            layout(1, 1)
        ),
        ServoResult::Success
    );
    assert!(sessions.is_bound(HOST));
}

#[test]
fn second_init_replaces_the_session() {
    let mut sessions = Sessions::new();
    init(&mut sessions, HOST, b"https://first.example", b"/one", layout(1, 1));
    go_back(&mut sessions, HOST);
    erase(&mut sessions, HOST);
    perform_updates(&mut sessions, HOST);
    assert_eq!(sessions.get(HOST).unwrap().browser_id(), BrowserId(1));
    assert_eq!(sessions.get(HOST).unwrap().submitted().len(), 6);
    assert_eq!(
        init(&mut sessions, HOST, b"https://second.example", b"/two", layout(2, 2)),
        ServoResult::Success
    );
    let glue = sessions.get(HOST).unwrap();
    assert_eq!(glue.browser_id(), BrowserId(0));
    assert!(glue.pending().is_empty());
    assert_eq!(
        glue.submitted(),
        &vec![
            WindowEvent::NewBrowser("https://second.example/".to_string(), BrowserId(0)),
            WindowEvent::SelectBrowser(BrowserId(0)),
        ]
    );
    assert_eq!(glue.current_url(), &Some("https://second.example/".to_string()));
    assert_eq!(glue.resources_path(), "/two");
    assert_eq!(glue.layout(), layout(2, 2));
    for event in glue.submitted() {
        assert_ne!(event, &WindowEvent::NewBrowser("https://first.example/".to_string(), BrowserId(0)));
    }
}

#[test]
fn every_command_from_another_thread_is_refused() {
    let mut sessions = Sessions::new();
    init(&mut sessions, HOST, b"https://example.org", b"/res", layout(10, 10));
    scroll(&mut sessions, HOST, 1, 1, 1, 1, ScrollState::Start);
    let pending = sessions.get(HOST).unwrap().pending().clone();
    let submitted = sessions.get(HOST).unwrap().submitted().clone();

    assert_eq!(perform_updates(&mut sessions, WORKER), ServoResult::WrongThread);
    assert_eq!(load_url(&mut sessions, WORKER, b"https://example.org"), ServoResult::WrongThread);
    assert_eq!(load_url(&mut sessions, WORKER, b"not a url"), ServoResult::WrongThread);
    assert_eq!(load_url(&mut sessions, WORKER, &[0xff]), ServoResult::WrongThread);
    assert_eq!(reload(&mut sessions, WORKER), ServoResult::WrongThread);
    assert_eq!(go_back(&mut sessions, WORKER), ServoResult::WrongThread);
    assert_eq!(go_forward(&mut sessions, WORKER), ServoResult::WrongThread);
    assert_eq!(resize(&mut sessions, WORKER, layout(99, 99)), ServoResult::WrongThread);
    assert_eq!(
        scroll(&mut sessions, WORKER, 1, 2, 3, 4, ScrollState::Move),
        ServoResult::WrongThread
    );
    assert_eq!(click(&mut sessions, WORKER, 1, 2), ServoResult::WrongThread);
    assert_eq!(erase(&mut sessions, WORKER), ServoResult::WrongThread);
    assert_eq!(resize_view(&mut sessions, WORKER, 99, 99), ServoResult::WrongThread);

    assert!(!sessions.is_bound(WORKER));
    let glue = sessions.get(HOST).unwrap();
    assert_eq!(glue.pending(), &pending);
    assert_eq!(glue.submitted(), &submitted);
    assert_eq!(glue.layout(), layout(10, 10));
    assert_eq!(glue.browser_id(), BrowserId(0));
    assert!(glue.host_calls().is_empty());
}

#[test]
fn commands_before_any_init_are_refused() {
    let mut sessions = Sessions::new();
    assert_eq!(perform_updates(&mut sessions, HOST), ServoResult::WrongThread);
    assert_eq!(reload(&mut sessions, HOST), ServoResult::WrongThread);
    assert_eq!(erase(&mut sessions, HOST), ServoResult::WrongThread);
    assert!(!sessions.is_bound(HOST));
}

#[test]
fn end_to_end() {
    let mut sessions = Sessions::new();
    assert_eq!(
        init(&mut sessions, HOST, b"https://example.org", b"/res", layout(320, 240)),
        ServoResult::Success
    );
    assert_eq!(go_back(&mut sessions, HOST), ServoResult::Success);
    assert_eq!(load_url(&mut sessions, HOST, b"not a url"), ServoResult::CantParseUrl);
    assert_eq!(resize(&mut sessions, HOST, layout(800, 600)), ServoResult::Success);
    let glue = sessions.get(HOST).unwrap();
    assert_eq!(glue.layout().view_size, Size { width: 800, height: 600 });
    assert_eq!(glue.get_coordinates().framebuffer, Size { width: 800, height: 600 });
    assert_eq!(
        glue.pending(),
        &vec![
            WindowEvent::Navigation(BrowserId(0), TraversalDirection::Back(1)),
            WindowEvent::Resize,
        ]
    );
    assert_eq!(perform_updates(&mut sessions, HOST), ServoResult::Success);
    let glue = sessions.get(HOST).unwrap();
    assert!(glue.pending().is_empty());
    assert_eq!(glue.submitted().len(), 4);
}

#[test]
fn ordering_through_the_registry() {
    let mut sessions = Sessions::new();
    init(&mut sessions, HOST, b"https://example.org", b"/res", layout(1, 1));
    let mut glue = sessions.take(HOST).unwrap();
    glue.take_submitted();
    assert!(sessions.bind(HOST, glue).is_none());
    assert_eq!(resize(&mut sessions, HOST, layout(10, 20)), ServoResult::Success);
    assert_eq!(load_url(&mut sessions, HOST, b"https://servo.org/b"), ServoResult::Success);
    assert_eq!(resize(&mut sessions, HOST, layout(30, 40)), ServoResult::Success);
    assert!(sessions.get(HOST).unwrap().submitted().is_empty());
    assert_eq!(perform_updates(&mut sessions, HOST), ServoResult::Success);
    assert_eq!(
        sessions.get(HOST).unwrap().submitted(),
        &vec![
            WindowEvent::Resize,
            WindowEvent::LoadUrl(BrowserId(0), "https://servo.org/b".to_string()),
            WindowEvent::Resize,
        ]
    );
    assert_eq!(perform_updates(&mut sessions, HOST), ServoResult::Success);
    assert_eq!(sessions.get(HOST).unwrap().submitted().len(), 3);
}

#[test]
fn threads_have_sessions_of_their_own() {
    let mut sessions = Sessions::new();
    init(&mut sessions, HOST, b"https://one.example", b"/res", layout(1, 1));
    init(&mut sessions, WORKER, b"https://two.example", b"/res", layout(2, 2));
    assert_eq!(click(&mut sessions, WORKER, 5, 6), ServoResult::Success);
    assert_eq!(erase(&mut sessions, WORKER), ServoResult::Success);
    assert!(sessions.get(HOST).unwrap().pending().is_empty());
    assert_eq!(sessions.get(HOST).unwrap().browser_id(), BrowserId(0));
    assert_eq!(sessions.get(WORKER).unwrap().pending().len(), 4);
    assert_eq!(sessions.get(WORKER).unwrap().browser_id(), BrowserId(1));
}

#[test]
fn take_and_bind_move_a_session() {
    let mut sessions = Sessions::new();
    assert!(sessions.take(HOST).is_none());
    let replaced = sessions.bind(
        HOST,
        ServoGlue::new("https://example.org/".to_string(), "/res".to_string(), layout(1, 1)),
    );
    assert!(replaced.is_none());
    assert!(sessions.is_bound(HOST));
    let glue = sessions.take(HOST).unwrap();
    assert!(!sessions.is_bound(HOST));
    assert_eq!(reload(&mut sessions, HOST), ServoResult::WrongThread);
    assert!(sessions.bind(WORKER, glue).is_none());
    assert_eq!(reload(&mut sessions, WORKER), ServoResult::Success);
}

#[test]
fn bind_hands_back_the_session_it_replaces() {
    let mut sessions = Sessions::new();
    init(&mut sessions, HOST, b"https://first.example", b"/one", layout(1, 1));
    reload(&mut sessions, HOST);
    let replaced = sessions
        .bind(
            HOST,
            ServoGlue::new("https://second.example/".to_string(), "/two".to_string(), layout(2, 2)),
        )
        .unwrap();
    assert_eq!(replaced.current_url(), &Some("https://first.example/".to_string()));
    assert_eq!(replaced.pending(), &vec![WindowEvent::Reload(BrowserId(0))]);
    assert_eq!(
        sessions.get(HOST).unwrap().current_url(),
        &Some("https://second.example/".to_string())
    );
}

#[test]
fn shutdown_unbinds_the_calling_thread_only() {
    let mut sessions = Sessions::new();
    assert_eq!(shutdown(&mut sessions, HOST), ServoResult::WrongThread);
    init(&mut sessions, HOST, b"https://one.example", b"/res", layout(1, 1));
    init(&mut sessions, WORKER, b"https://two.example", b"/res", layout(2, 2));
    assert_eq!(shutdown(&mut sessions, HOST), ServoResult::Success);
    assert!(!sessions.is_bound(HOST));
    assert!(sessions.is_bound(WORKER));
    assert_eq!(reload(&mut sessions, HOST), ServoResult::WrongThread);
    assert_eq!(shutdown(&mut sessions, HOST), ServoResult::WrongThread);
    assert_eq!(reload(&mut sessions, WORKER), ServoResult::Success);
}

#[test]
fn registry_commands_reach_the_session() {
    let mut sessions = Sessions::new();
    init(&mut sessions, HOST, b"https://example.org", b"/res", layout(1, 1));
    assert_eq!(reload(&mut sessions, HOST), ServoResult::Success);
    assert_eq!(go_forward(&mut sessions, HOST), ServoResult::Success);
    assert_eq!(scroll(&mut sessions, HOST, 0, -8, 4, 4, ScrollState::End), ServoResult::Success);
    assert_eq!(click(&mut sessions, HOST, 4, 4), ServoResult::Success);
    assert_eq!(load_url(&mut sessions, HOST, &[0xff]), ServoResult::CantReadStr);
    assert_eq!(sessions.get(HOST).unwrap().pending().len(), 4);
    assert_eq!(sessions.get(HOST).unwrap().pending()[0], WindowEvent::Reload(BrowserId(0)));
}

#[test]
fn resize_view_changes_the_size_only() {
    let mut sessions = Sessions::new();
    assert_eq!(resize_view(&mut sessions, HOST, 800, 600), ServoResult::WrongThread);
    assert!(!sessions.is_bound(HOST));
    init(&mut sessions, HOST, b"https://example.org", b"/res", layout_of_size(320, 240));
    assert_eq!(sessions.get(HOST).unwrap().layout(), layout_of_size(320, 240));
    assert_eq!(resize_view(&mut sessions, HOST, 800, 600), ServoResult::Success);
    let glue = sessions.get(HOST).unwrap();
    assert_eq!(glue.layout(), layout_of_size(800, 600));
    assert_eq!(glue.layout().hidpi_factor, 0x4000_0000);
    assert_eq!(glue.pending(), &vec![WindowEvent::Resize]);
}
