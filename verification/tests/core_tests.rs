use webview_core::control::{ControlEvent, Geometry};
use webview_core::dispatch::{LoopSignal, Task};
use webview_core::encoding::is_valid_utf8_bytes;
use webview_core::url::has_inline_prefix;
use webview_core::webview::{EvalStatus, HostStartup, WebView};
use webview_core::wide::{nul_terminated_prefix, to_wstring};

fn startup_ok() -> HostStartup {
    HostStartup { env_adjusted: true, control_created: true }
}

fn geo() -> Geometry {
    Geometry { width: 640, height: 480, resizable: true, frameless: false }
}

fn make(url: &[u8]) -> WebView {
    WebView::create(
        b"title".to_vec(),
        url.to_vec(),
        geo(),
        false,
        0x1234,
        0x5678,
        startup_ok(),
    )
    .expect("creation should succeed")
}

#[test]
fn utf8_accepts_ascii() {
    assert!(is_valid_utf8_bytes(&b"hello, world".to_vec()));
    assert!(is_valid_utf8_bytes(&Vec::new()));
}

#[test]
fn utf8_accepts_multibyte() {
    let s = "h\u{e9}llo \u{4e16}\u{754c} \u{1f600}";
    assert!(is_valid_utf8_bytes(&s.as_bytes().to_vec()));
}

#[test]
fn utf8_accepts_boundary_scalars() {
    // U+D7FF, U+E000, U+10FFFF: the edges around the surrogate gap and the
    // largest scalar.
    assert!(is_valid_utf8_bytes(&vec![0xed, 0x9f, 0xbf]));
    assert!(is_valid_utf8_bytes(&vec![0xee, 0x80, 0x80]));
    assert!(is_valid_utf8_bytes(&vec![0xf4, 0x8f, 0xbf, 0xbf]));
}

#[test]
fn utf8_rejects_lone_continuation() {
    assert!(!is_valid_utf8_bytes(&vec![0x80]));
    assert!(!is_valid_utf8_bytes(&vec![0x61, 0xbf, 0x61]));
}

#[test]
fn utf8_rejects_overlong() {
    assert!(!is_valid_utf8_bytes(&vec![0xc0, 0xaf]));
    assert!(!is_valid_utf8_bytes(&vec![0xc1, 0x80]));
    assert!(!is_valid_utf8_bytes(&vec![0xe0, 0x80, 0xaf]));
    assert!(!is_valid_utf8_bytes(&vec![0xf0, 0x80, 0x80, 0x80]));
}

#[test]
fn utf8_rejects_surrogates_and_above_max() {
    assert!(!is_valid_utf8_bytes(&vec![0xed, 0xa0, 0x80]));
    assert!(!is_valid_utf8_bytes(&vec![0xf4, 0x90, 0x80, 0x80]));
    assert!(!is_valid_utf8_bytes(&vec![0xf5, 0x80, 0x80, 0x80]));
}

#[test]
fn utf8_rejects_truncated() {
    assert!(!is_valid_utf8_bytes(&vec![0xe2, 0x82]));
    assert!(!is_valid_utf8_bytes(&vec![0xc3]));
    assert!(!is_valid_utf8_bytes(&vec![0xf0, 0x9f, 0x98]));
}

#[test]
fn inline_prefix_detection() {
    assert!(has_inline_prefix(&b"data:text/html,<p>x</p>".to_vec()));
    assert!(has_inline_prefix(&b"data:text/html,".to_vec()));
    assert!(!has_inline_prefix(&b"https://example.com".to_vec()));
    assert!(!has_inline_prefix(&b"data:text/htm".to_vec()));
    assert!(!has_inline_prefix(&b"Data:text/html,x".to_vec()));
}

#[test]
fn routing_inline_url_decodes_and_writes() {
    let wv = make(b"data:text/html,%3Ch1%3Ehi%3C%2Fh1%3E");
    let events = wv.events();
    assert_eq!(events.len(), 2);
    match &events[0] {
        ControlEvent::Navigated(u) => assert_eq!(u.as_slice(), b"about:blank"),
        _ => panic!("first event must be a navigation"),
    }
    match &events[1] {
        ControlEvent::Wrote(c) => assert_eq!(c.as_slice(), b"<h1>hi</h1>"),
        _ => panic!("second event must be a write"),
    }
}

#[test]
fn routing_plain_url_navigates_once() {
    let wv = make(b"https://example.com");
    let events = wv.events();
    assert_eq!(events.len(), 1);
    match &events[0] {
        ControlEvent::Navigated(u) => assert_eq!(u.as_slice(), b"https://example.com"),
        _ => panic!("the only event must be a navigation"),
    }
}

#[test]
fn percent_passthrough_without_hex_digits() {
    let wv = make(b"data:text/html,100%25 %zz %");
    match &wv.events()[1] {
        ControlEvent::Wrote(c) => assert_eq!(c.as_slice(), b"100% %zz %"),
        _ => panic!("second event must be a write"),
    }
}

#[test]
fn create_rejects_failed_environment_adjustment() {
    let r = WebView::create(
        b"t".to_vec(),
        b"https://example.com".to_vec(),
        geo(),
        false,
        1,
        2,
        HostStartup { env_adjusted: false, control_created: true },
    );
    assert!(r.is_none());
}

#[test]
fn create_rejects_unavailable_control() {
    let r = WebView::create(
        b"t".to_vec(),
        b"https://example.com".to_vec(),
        geo(),
        false,
        1,
        2,
        HostStartup { env_adjusted: true, control_created: false },
    );
    assert!(r.is_none());
}

#[test]
fn create_rejects_invalid_title_encoding() {
    let r = WebView::create(
        vec![0xff, 0xfe],
        b"https://example.com".to_vec(),
        geo(),
        false,
        1,
        2,
        startup_ok(),
    );
    assert!(r.is_none());
}

#[test]
fn create_rejects_invalid_url_encoding() {
    let r = WebView::create(b"t".to_vec(), vec![0x68, 0xc0], geo(), false, 1, 2, startup_ok());
    assert!(r.is_none());
}

#[test]
fn create_rejects_inline_payload_that_decodes_to_bad_text() {
    let r = WebView::create(
        b"t".to_vec(),
        b"data:text/html,%FF".to_vec(),
        geo(),
        false,
        1,
        2,
        startup_ok(),
    );
    assert!(r.is_none());
}

#[test]
fn user_data_is_stable_across_operations() {
    let mut wv = make(b"https://example.com");
    assert_eq!(wv.get_user_data(), 0x5678);
    assert_eq!(wv.get_user_data(), 0x5678);
    assert_eq!(wv.eval(b"1+1".to_vec()), EvalStatus::Accepted);
    assert_eq!(wv.get_user_data(), 0x5678);
    wv.enqueue(Task { func: 9, arg: 9 });
    assert_eq!(wv.get_user_data(), 0x5678);
    let _ = wv.run_step(false);
    assert_eq!(wv.get_user_data(), 0x5678);
}

#[test]
fn callback_round_trip_delivers_payload_and_userdata() {
    let mut wv = make(b"https://example.com");
    let inv = wv.script_invoke(b"ping".to_vec()).expect("payload without NUL must cross");
    assert_eq!(inv.payload.as_slice(), b"ping");
    assert_eq!(inv.userdata, 0x5678);
    assert_eq!(inv.callback, 0x1234);
}

#[test]
fn script_invoke_rejects_interior_nul() {
    let mut wv = make(b"https://example.com");
    assert!(wv.script_invoke(b"pi\0ng".to_vec()).is_none());
}

#[test]
fn eval_records_script_in_order() {
    let mut wv = make(b"https://example.com");
    assert_eq!(wv.eval(b"alert(1)".to_vec()), EvalStatus::Accepted);
    let events = wv.events();
    assert_eq!(events.len(), 2);
    match &events[1] {
        ControlEvent::Evaluated(s) => assert_eq!(s.as_slice(), b"alert(1)"),
        _ => panic!("second event must be an evaluation"),
    }
}

#[test]
fn eval_rejects_invalid_text_and_changes_nothing() {
    let mut wv = make(b"https://example.com");
    assert_eq!(wv.eval(vec![0xed, 0xa0, 0x80]), EvalStatus::InvalidText);
    assert_eq!(wv.events().len(), 1);
}

#[test]
fn dispatched_tasks_run_in_order_exactly_once() {
    let mut wv = make(b"https://example.com");
    wv.enqueue(Task { func: 1, arg: 10 });
    wv.post_native(77);
    wv.enqueue(Task { func: 2, arg: 20 });
    wv.enqueue(Task { func: 3, arg: 30 });

    let mut ran: Vec<Task> = Vec::new();
    loop {
        let (signal, task) = wv.run_step(false);
        if signal == LoopSignal::NoEvent {
            break;
        }
        if let Some(t) = task {
            ran.push(t);
        }
    }
    assert_eq!(
        ran,
        vec![Task { func: 1, arg: 10 }, Task { func: 2, arg: 20 }, Task { func: 3, arg: 30 }]
    );
}

#[test]
fn empty_poll_reports_no_event() {
    let mut wv = make(b"https://example.com");
    assert_eq!(wv.run_step(false), (LoopSignal::NoEvent, None));
}

#[test]
fn quit_signal_ends_the_loop() {
    let mut wv = make(b"https://example.com");
    wv.post_native(5);
    wv.post_quit();
    assert_eq!(wv.run_step(true), (LoopSignal::KeepRunning, None));
    assert_eq!(wv.run_step(true), (LoopSignal::QuitRequested, None));
}

#[test]
fn create_exit_free_leaves_no_resources() {
    let mut wv = make(b"https://example.com");
    assert!(wv.is_alive());
    wv.exit();
    assert!(!wv.is_alive());
    wv.free();
}

#[test]
fn wide_encoding_appends_terminator() {
    let s: Vec<char> = "ab".chars().collect();
    assert_eq!(to_wstring(&s), vec![0x61, 0x62, 0]);
}

#[test]
fn wide_encoding_uses_surrogate_pairs() {
    let s: Vec<char> = "\u{1f600}".chars().collect();
    assert_eq!(to_wstring(&s), vec![0xd83d, 0xde00, 0]);
}

#[test]
fn wide_prefix_stops_at_first_terminator() {
    assert_eq!(nul_terminated_prefix(&vec![0x61, 0x62, 0, 0x63, 0]), vec![0x61, 0x62]);
    assert_eq!(nul_terminated_prefix(&vec![0]), Vec::<u16>::new());
}
