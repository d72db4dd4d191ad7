use bt_toast::default_waiting_msg;
use bt_toast::toast_view;
use bt_toast::ToastColor;
use bt_toast::ToastKind;
use bt_toast::ToastMgr;

#[test]
fn fresh_manager_shows_nothing() {
    let m = ToastMgr::new(None);
    assert!(!m.will_show());
    assert!(toast_view(&m).is_none());
}

#[test]
fn show_info_renders_message() {
    let mut m = ToastMgr::new(None);
    m.show_info("hello".to_string());
    assert!(m.will_show());
    let card = toast_view(&m).expect("an info toast should render");
    assert_eq!(card.color, ToastColor::Info);
    assert_eq!(card.body, "hello");
    assert!(!card.busy);
}

#[test]
fn show_success_renders_message() {
    let mut m = ToastMgr::new(None);
    m.show_success("saved".to_string());
    let card = toast_view(&m).expect("a success toast should render");
    assert_eq!(card.color, ToastColor::Success);
    assert_eq!(card.body, "saved");
    assert!(!card.busy);
}

#[test]
fn show_warning_renders_message() {
    let mut m = ToastMgr::new(None);
    m.show_warning("careful".to_string());
    let card = toast_view(&m).expect("a warning toast should render");
    assert_eq!(card.color, ToastColor::Warning);
    assert_eq!(card.body, "careful");
    assert!(!card.busy);
}

#[test]
fn show_error_renders_message() {
    let mut m = ToastMgr::new(None);
    m.show_error("boom".to_string());
    let card = toast_view(&m).expect("an error toast should render");
    assert_eq!(card.color, ToastColor::Danger);
    assert_eq!(card.body, "boom");
    assert!(!card.busy);
}

#[test]
fn dismiss_after_each_setter_hides() {
    let setters: Vec<fn(&mut ToastMgr, String)> = vec![
        ToastMgr::show_info,
        ToastMgr::show_success,
        ToastMgr::show_warning,
        ToastMgr::show_error,
    ];
    for setter in setters {
        let mut m = ToastMgr::new(None);
        setter(&mut m, "m".to_string());
        assert!(m.will_show());
        m.turn_off();
        assert!(!m.will_show());
        assert!(toast_view(&m).is_none());
    }
}

#[test]
fn turn_off_is_idempotent() {
    let mut once = ToastMgr::new(None);
    once.show_warning("w".to_string());
    let mut twice = once.clone();
    once.turn_off();
    twice.turn_off();
    twice.turn_off();
    assert_eq!(once, twice);

    let mut fresh_once = ToastMgr::new(Some("custom".to_string()));
    let mut fresh_twice = fresh_once.clone();
    fresh_once.turn_off();
    fresh_twice.turn_off();
    fresh_twice.turn_off();
    assert_eq!(fresh_once, fresh_twice);
}

#[test]
fn waiting_ignores_previous_message() {
    let mut m = ToastMgr::new(None);
    m.show_info("X".to_string());
    m.waiting_toast();
    let card = toast_view(&m).expect("a waiting toast should render");
    assert_eq!(card.body, default_waiting_msg());
    assert_ne!(card.body, "X");
    assert_eq!(card.color, ToastColor::Primary);
    assert!(card.busy);
}

#[test]
fn last_call_wins() {
    let mut m = ToastMgr::new(None);
    m.show_info("A".to_string());
    m.show_error("B".to_string());
    let card = toast_view(&m).expect("the error toast should render");
    assert_eq!(card.color, ToastColor::Danger);
    assert_eq!(card.body, "B");

    let mut only_error = ToastMgr::new(None);
    only_error.show_error("B".to_string());
    assert_eq!(m, only_error);
}

#[test]
fn default_waiting_message_is_fixed() {
    let mut m = ToastMgr::new(None);
    assert_eq!(
        m.waiting_msg().as_str(),
        "Please wait while your request is processed..."
    );
    m.waiting_toast();
    let card = toast_view(&m).expect("the waiting toast should render");
    assert_eq!(card.body, "Please wait while your request is processed...");
}

#[test]
fn custom_waiting_message_renders() {
    let mut m = ToastMgr::new(Some("custom".to_string()));
    m.waiting_toast();
    let card = toast_view(&m).expect("the waiting toast should render");
    assert_eq!(card.body, "custom");
    assert_eq!(card.color, ToastColor::Primary);
    assert!(card.busy);
}

#[test]
fn empty_message_still_shows() {
    let mut m = ToastMgr::new(None);
    m.show_info(String::new());
    assert!(m.will_show());
    let card = toast_view(&m).expect("an info toast should render");
    assert_eq!(card.body, "");
}

#[test]
fn getters_reflect_state() {
    let mut m = ToastMgr::new(None);
    assert!(!m.is_visible());
    assert_eq!(m.kind(), ToastKind::Nothing);
    assert_eq!(m.message().as_str(), "");
    m.show_success("done".to_string());
    assert!(m.is_visible());
    assert_eq!(m.kind(), ToastKind::Success);
    assert_eq!(m.message().as_str(), "done");
}

#[test]
fn color_tokens_match_scheme() {
    assert_eq!(ToastColor::Info.token(), "info");
    assert_eq!(ToastColor::Success.token(), "success");
    assert_eq!(ToastColor::Warning.token(), "warning");
    assert_eq!(ToastColor::Danger.token(), "danger");
    assert_eq!(ToastColor::Primary.token(), "primary");
}
