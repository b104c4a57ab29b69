use servobridge::logs::{enabled, format_record, log_line, LogLevel};
use servobridge::text::{displayed_title, read_str};
use servobridge::{
    history_flags, layout_of_size, servo_version, stop, version_line, BrowserId, DeviceRect,
    HostCall, HostCallbacks, LoadData, Margins, Position, Servo, ServoCallbacks, ServoResult, Size,
    TouchState, ViewLayout, WindowEvent, DEFAULT_HIDPI_FACTOR,
};

#[test]
fn placeholder_title_when_nothing_is_known() {
    assert_eq!(displayed_title(&None, &None), "Untitled - Servo");
    assert_eq!(displayed_title(&Some(String::new()), &None), "Untitled - Servo");
}

#[test]
fn url_stands_in_for_a_missing_title() {
    let url = Some("https://example.org/".to_string());
    assert_eq!(displayed_title(&None, &url), "https://example.org/ - Servo");
    assert_eq!(displayed_title(&Some(String::new()), &url), "https://example.org/ - Servo");
}

#[test]
fn own_title_wins() {
    let url = Some("https://example.org/".to_string());
    assert_eq!(displayed_title(&Some("Home".to_string()), &url), "Home - Servo");
    assert_eq!(displayed_title(&Some("Home".to_string()), &None), "Home - Servo");
    assert_eq!(displayed_title(&Some(" ".to_string()), &None), "  - Servo");
    assert_eq!(displayed_title(&Some("\u{e9}t\u{e9}".to_string()), &None), "\u{e9}t\u{e9} - Servo");
}

#[test]
fn read_str_accepts_utf8_only() {
    assert_eq!(read_str(b""), Some(String::new()));
    assert_eq!(read_str(b"/sdcard/servo"), Some("/sdcard/servo".to_string()));
    assert_eq!(read_str(&[0xe2, 0x82, 0xac]), Some("\u{20ac}".to_string()));
    assert_eq!(read_str(&[0xe2, 0x82]), None);
    assert_eq!(read_str(&[0xff]), None);
    assert_eq!(read_str(&[0xc0, 0x80]), None);
    assert_eq!(read_str(&[0xed, 0xa0, 0x80]), None);
    assert_eq!(read_str(&[0x61, 0x80]), None);
}

#[test]
fn version_line_names_the_engine() {
    assert_eq!(version_line("Servo 0.0.1-abcdef"), "Servo Version: Servo 0.0.1-abcdef");
    assert_eq!(version_line(""), "Servo Version: ");
}

#[test]
fn servo_version_is_the_engine_text_unchanged() {
    for text in ["Servo 0.0.1-abcdef", "", " padded ", "Servo Version: x", "\u{e9}\u{20ac}\n"] {
        assert_eq!(servo_version(text), text);
        assert_eq!(servo_version(text), servo_version(text));
    }
}

#[test]
fn result_codes_count_from_zero() {
    assert_eq!(ServoResult::Success.code(), 0);
    assert_eq!(ServoResult::UnexpectedError.code(), 1);
    assert_eq!(ServoResult::WrongThread.code(), 2);
    assert_eq!(ServoResult::CantReadStr.code(), 3);
    assert_eq!(ServoResult::CantParseUrl.code(), 4);
    assert_eq!(ServoResult::NotImplemented.code(), 5);
}

#[test]
fn layout_of_a_size_alone() {
    assert_eq!(
        layout_of_size(1080, 1920),
        ViewLayout {
            view_size: Size { width: 1080, height: 1920 },
            margins: Margins { top: 0, right: 0, bottom: 0, left: 0 },
            position: Position { x: 0, y: 0 },
            hidpi_factor: 0x4000_0000,
        }
    );
    assert_eq!(layout_of_size(0, u32::MAX).view_size, Size { width: 0, height: u32::MAX });
    assert_eq!(DEFAULT_HIDPI_FACTOR, 2.0f32.to_bits());
    assert_eq!(f32::from_bits(layout_of_size(1, 1).hidpi_factor), 2.0);
}

#[test]
fn stop_is_not_implemented() {
    assert_eq!(stop(), ServoResult::NotImplemented);
}

#[test]
fn history_flags_for_every_index() {
    for entry_count in 1..6usize {
        for current in 0..entry_count {
            let (back, forward) = history_flags(entry_count, current);
            assert_eq!(back, current > 0);
            assert_eq!(forward, current < entry_count - 1);
        }
    }
    assert_eq!(history_flags(1, 0), (false, false));
    assert_eq!(history_flags(2, 0), (false, true));
    assert_eq!(history_flags(2, 1), (true, false));
    assert_eq!(history_flags(3, 1), (true, true));
    assert_eq!(history_flags(usize::MAX, usize::MAX - 1), (true, false));
}

#[test]
fn host_callbacks_record_in_call_order() {
    let mut host = HostCallbacks::new();
    assert!(host.calls().is_empty());
    host.on_load_started();
    host.on_title_changed("T - Servo".to_string());
    host.on_url_changed("https://example.org/".to_string());
    host.on_history_changed(true, false);
    host.on_load_ended();
    host.flush();
    let expected = vec![
        HostCall::LoadStarted,
        HostCall::TitleChanged("T - Servo".to_string()),
        HostCall::UrlChanged("https://example.org/".to_string()),
        HostCall::HistoryChanged(true, false),
        HostCall::LoadEnded,
        HostCall::Flush,
    ];
    assert_eq!(host.calls(), &expected);
    assert_eq!(host.take(), expected);
    assert!(host.calls().is_empty());
    assert!(host.take().is_empty());
}

#[test]
fn engine_inbox_keeps_batches_in_order() {
    let mut servo = Servo::new();
    servo.handle_events(vec![WindowEvent::Resize, WindowEvent::Reload(BrowserId(3))]);
    servo.handle_events(Vec::new());
    servo.handle_events(vec![WindowEvent::CloseBrowser(BrowserId(3))]);
    let expected = vec![
        WindowEvent::Resize,
        WindowEvent::Reload(BrowserId(3)),
        WindowEvent::CloseBrowser(BrowserId(3)),
    ];
    assert_eq!(servo.events(), &expected);
    assert_eq!(servo.take(), expected);
    assert!(servo.events().is_empty());
}

#[test]
fn callbacks_answer_the_engine() {
    let layout = ViewLayout {
        view_size: Size { width: 1080, height: 1920 },
        margins: Margins { top: 10, right: 0, bottom: 20, left: 0 },
        position: Position { x: 0, y: 0 },
        hidpi_factor: 0x4040_0000,
    };
    let mut callbacks = ServoCallbacks::new(HostCallbacks::new(), layout);
    assert!(callbacks.prepare_for_composite());
    assert!(!callbacks.supports_clipboard());
    assert!(callbacks.allow_navigation());
    assert_eq!(callbacks.layout(), layout);
    assert_eq!(callbacks.hidpi_factor(), 0x4040_0000);
    assert_eq!(callbacks.framebuffer_size(), Size { width: 1080, height: 1920 });
    assert_eq!(
        callbacks.window_rect(),
        DeviceRect { x: 0, y: 0, size: Size { width: 1080, height: 1920 } }
    );
    let coordinates = callbacks.get_coordinates();
    assert_eq!(coordinates.viewport, callbacks.window_rect());
    assert_eq!(coordinates.screen, Size { width: 1080, height: 1920 });
    assert_eq!(coordinates.hidpi_factor, 0x4040_0000);
    callbacks.present();
    callbacks.load_start();
    callbacks.history_changed(
        &vec![
            LoadData { url: "https://a.example/".to_string() },
            LoadData { url: "https://b.example/".to_string() },
        ],
        0,
    );
    callbacks.load_end();
    callbacks.title_changed("B - Servo".to_string());
    assert_eq!(
        callbacks.take_host_calls(),
        vec![
            HostCall::Flush,
            HostCall::LoadStarted,
            HostCall::HistoryChanged(false, true),
            HostCall::UrlChanged("https://a.example/".to_string()),
            HostCall::LoadEnded,
            HostCall::TitleChanged("B - Servo".to_string()),
        ]
    );
    assert!(callbacks.host_calls().is_empty());
}

#[test]
fn touch_states_differ() {
    assert_ne!(TouchState::Down, TouchState::Up);
}

#[test]
fn traces_are_not_logged() {
    assert!(enabled(LogLevel::Error));
    assert!(enabled(LogLevel::Warn));
    assert!(enabled(LogLevel::Info));
    assert!(enabled(LogLevel::Debug));
    assert!(!enabled(LogLevel::Trace));
}

#[test]
fn record_line_has_three_bracketed_parts() {
    assert_eq!(format_record("INFO", "Init", "servobridge::glue"), "[INFO] [Init] [servobridge::glue]");
    assert_eq!(format_record("", "", ""), "[] [] []");
    assert_eq!(
        log_line(LogLevel::Debug, "DEBUG", "perform_updates", "servobridge::api"),
        Some("[DEBUG] [perform_updates] [servobridge::api]".to_string())
    );
    assert_eq!(log_line(LogLevel::Trace, "TRACE", "x", "y"), None);
}
