use std::cell::RefCell;

use webview_delegate::control::ServoEmbedderControl;
use webview_delegate::delegate::{
    answer, offer_control, ServoEmbedderController, ServoWebViewDelegate,
};
use webview_delegate::tag::{
    ServoEmbedderControlTag, SERVO_EMBEDDER_CONTROL_ALL, SERVO_EMBEDDER_CONTROL_CONTEXT_MENU,
    SERVO_EMBEDDER_CONTROL_FILE_PICKER, SERVO_EMBEDDER_CONTROL_NONE, SERVO_EMBEDDER_CONTROL_SELECT,
};

type OnLoad = fn(&'static str, i32, u64);
type OnFrame = fn(&'static str, u64);
type OnControl = fn(&'static str, &ServoEmbedderControl<'_>, u64) -> bool;
type Plain = ServoWebViewDelegate<u64, OnLoad, OnFrame, OnControl>;

/// What a control callback saw: handle, tag, origin, whether there was a payload, user data.
type Seen = (&'static str, u32, Vec<u8>, bool, u64);

fn handle_all(_: &'static str, _: &ServoEmbedderControl<'_>, _: u64) -> bool {
    true
}

fn bare() -> Plain {
    ServoWebViewDelegate {
        user_data: 7,
        notify_load_status_changed: None,
        notify_new_frame_ready: None,
        embedder_control: None,
    }
}

fn with_controller(flags: u64, on_control: Option<OnControl>) -> Plain {
    ServoWebViewDelegate {
        user_data: 7,
        notify_load_status_changed: None,
        notify_new_frame_ready: None,
        embedder_control: Some(ServoEmbedderController { flags, on_control }),
    }
}

/// Runs `handle_embedder_control` with a callback that records its calls.
fn record(
    flags: u64,
    handled: bool,
    url: Option<&str>,
    tag: Option<ServoEmbedderControlTag>,
) -> (Vec<Seen>, Option<&'static str>) {
    let seen: RefCell<Vec<Seen>> = RefCell::new(Vec::new());
    let on_control = |webview: &'static str, control: &ServoEmbedderControl<'_>, data: u64| {
        seen.borrow_mut().push((
            webview,
            control.tag,
            control.origin.to_vec(),
            control.payload.is_some(),
            data,
        ));
        handled
    };
    let delegate: ServoWebViewDelegate<u64, OnLoad, OnFrame, _> = ServoWebViewDelegate {
        user_data: 99,
        notify_load_status_changed: None,
        notify_new_frame_ready: None,
        embedder_control: Some(ServoEmbedderController { flags, on_control: Some(on_control) }),
    };
    let unhandled = delegate.handle_embedder_control("view", url, tag, "menu");
    assert_eq!(delegate.offers_control(tag), !seen.borrow().is_empty());
    (seen.into_inner(), unhandled)
}

#[test]
fn load_status_reaches_the_callback_once() {
    let seen: RefCell<Vec<(&'static str, i32, u64)>> = RefCell::new(Vec::new());
    let on_load = |webview: &'static str, status: i32, data: u64| {
        seen.borrow_mut().push((webview, status, data));
    };
    let delegate: ServoWebViewDelegate<u64, _, OnFrame, OnControl> = ServoWebViewDelegate {
        user_data: 5,
        notify_load_status_changed: Some(on_load),
        notify_new_frame_ready: None,
        embedder_control: None,
    };
    delegate.notify_load_status_changed("a", 2);
    delegate.notify_load_status_changed("b", -1);
    delegate.notify_new_frame_ready("c");
    assert_eq!(seen.into_inner(), vec![("a", 2, 5), ("b", -1, 5)]);
}

#[test]
fn new_frame_reaches_the_callback_once() {
    let seen: RefCell<Vec<(&'static str, u64)>> = RefCell::new(Vec::new());
    let on_frame = |webview: &'static str, data: u64| {
        seen.borrow_mut().push((webview, data));
    };
    let delegate: ServoWebViewDelegate<u64, OnLoad, _, OnControl> = ServoWebViewDelegate {
        user_data: 6,
        notify_load_status_changed: None,
        notify_new_frame_ready: Some(on_frame),
        embedder_control: None,
    };
    delegate.notify_new_frame_ready("a");
    delegate.notify_load_status_changed("b", 1);
    assert_eq!(seen.into_inner(), vec![("a", 6)]);
}

#[test]
fn missing_callbacks_are_skipped() {
    let delegate = bare();
    delegate.notify_load_status_changed("a", 0);
    delegate.notify_new_frame_ready("a");
}

#[test]
fn flags_are_those_of_the_controller() {
    assert_eq!(bare().embedder_control_flags(), SERVO_EMBEDDER_CONTROL_NONE);
    assert_eq!(with_controller(0, None).embedder_control_flags(), 0);
    assert_eq!(
        with_controller(SERVO_EMBEDDER_CONTROL_ALL, None).embedder_control_flags(),
        SERVO_EMBEDDER_CONTROL_ALL
    );
    assert_eq!(with_controller(u64::MAX, Some(handle_all)).embedder_control_flags(), u64::MAX);
}

#[test]
fn controller_is_the_one_given() {
    assert!(bare().controller().is_none());
    let delegate = with_controller(3, None);
    let controller = delegate.controller().unwrap();
    assert_eq!(controller.flags, 3);
    assert!(controller.on_control.is_none());
}

#[test]
fn handled_control_is_consumed() {
    let (seen, unhandled) = record(
        SERVO_EMBEDDER_CONTROL_ALL,
        true,
        Some("https://example.com:8443/page?x=1"),
        Some(ServoEmbedderControlTag::Select),
    );
    assert_eq!(seen, vec![("view", 2, b"https://example.com:8443".to_vec(), false, 99)]);
    assert_eq!(unhandled, None);
}

#[test]
fn declined_control_comes_back() {
    let (seen, unhandled) = record(
        SERVO_EMBEDDER_CONTROL_ALL,
        false,
        None,
        Some(ServoEmbedderControlTag::ContextMenu),
    );
    assert_eq!(seen, vec![("view", 1, Vec::new(), false, 99)]);
    assert_eq!(unhandled, Some("menu"));
}

#[test]
fn untagged_control_is_not_offered() {
    let (seen, unhandled) =
        record(SERVO_EMBEDDER_CONTROL_ALL, true, Some("https://example.com/"), None);
    assert!(seen.is_empty());
    assert_eq!(unhandled, Some("menu"));
}

#[test]
fn control_without_controller_or_callback_comes_back() {
    let tag = Some(ServoEmbedderControlTag::FilePicker);
    assert_eq!(bare().handle_embedder_control("a", None, tag, 1), Some(1));
    let delegate = with_controller(SERVO_EMBEDDER_CONTROL_ALL, None);
    assert_eq!(delegate.handle_embedder_control("a", None, tag, 1), Some(1));
}

#[test]
fn control_whose_bit_is_clear_is_not_offered() {
    let kinds = [
        (ServoEmbedderControlTag::ContextMenu, 0x01),
        (ServoEmbedderControlTag::Select, 0x02),
        (ServoEmbedderControlTag::FilePicker, 0x04),
        (ServoEmbedderControlTag::WasmImport, 0x08),
        (ServoEmbedderControlTag::WebMcpToolCall, 0x10),
    ];
    for (tag, bit) in kinds {
        let (seen, unhandled) = record(!bit, true, Some("https://example.com/"), Some(tag));
        assert!(seen.is_empty());
        assert_eq!(unhandled, Some("menu"));
        let (seen, unhandled) = record(bit, true, Some("https://example.com/"), Some(tag));
        assert_eq!(seen.len(), 1);
        assert_eq!(unhandled, None);
    }
}

#[test]
fn nothing_is_offered_without_controller_callback_or_tag() {
    let tag = Some(ServoEmbedderControlTag::Select);
    assert!(!bare().offers_control(tag));
    assert!(!with_controller(SERVO_EMBEDDER_CONTROL_ALL, None).offers_control(tag));
    assert!(!with_controller(SERVO_EMBEDDER_CONTROL_ALL, Some(handle_all)).offers_control(None));
    assert!(with_controller(SERVO_EMBEDDER_CONTROL_SELECT, Some(handle_all)).offers_control(tag));
}

#[test]
fn control_whose_bit_is_set_is_offered() {
    let (seen, unhandled) = record(
        SERVO_EMBEDDER_CONTROL_FILE_PICKER,
        true,
        Some("about:blank"),
        Some(ServoEmbedderControlTag::FilePicker),
    );
    assert_eq!(seen, vec![("view", 3, b"null".to_vec(), false, 99)]);
    assert_eq!(unhandled, None);
}

#[test]
fn other_controls_are_left_to_the_engine() {
    let flags = SERVO_EMBEDDER_CONTROL_CONTEXT_MENU | SERVO_EMBEDDER_CONTROL_SELECT;
    let (seen, unhandled) =
        record(flags, true, None, Some(ServoEmbedderControlTag::FilePicker));
    assert!(seen.is_empty());
    assert_eq!(unhandled, Some("menu"));
    let (seen, unhandled) = record(SERVO_EMBEDDER_CONTROL_ALL, true, None, None);
    assert!(seen.is_empty());
    assert_eq!(unhandled, Some("menu"));
}

#[test]
fn empty_mask_changes_nothing() {
    let (seen, unhandled) = record(
        SERVO_EMBEDDER_CONTROL_NONE,
        true,
        None,
        Some(ServoEmbedderControlTag::ContextMenu),
    );
    assert!(seen.is_empty());
    assert_eq!(unhandled, Some("menu"));
}

#[test]
fn offer_passes_the_origin_through() {
    let gate = |_: u8, control: &ServoEmbedderControl<'_>, _: ()| {
        control.origin == b"https://trusted.test"
    };
    let tag = ServoEmbedderControlTag::ContextMenu;
    assert_eq!(offer_control(&gate, 0, tag, "https://trusted.test", (), 'c'), None);
    assert_eq!(offer_control(&gate, 0, tag, "https://other.test", (), 'c'), Some('c'));
}

#[test]
fn answer_keeps_what_was_declined() {
    assert_eq!(answer(true, 'c'), None);
    assert_eq!(answer(false, 'c'), Some('c'));
}
