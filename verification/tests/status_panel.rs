use refix::clipboard::ClipboardManager;
use refix::tray::{TrayMessage, TrayView};

#[test]
fn status_labels_follow_the_flag() {
    assert_eq!(TrayView::new(true, true).status_label(), "Status: Enabled");
    assert_eq!(TrayView::new(false, true).status_label(), "Status: Disabled");
}

#[test]
fn connection_labels_follow_the_client() {
    assert_eq!(TrayView::new(true, true).openai_label(), "OpenAI: Connected");
    assert_eq!(
        TrayView::new(true, false).openai_label(),
        "OpenAI: Not configured"
    );
}

#[test]
fn view_keeps_its_fields() {
    let v = TrayView::new(true, false);
    assert!(v.enabled);
    assert!(!v.openai_connected);
    assert_eq!(TrayMessage::Quit.clone(), TrayMessage::Quit);
}

#[test]
fn blank_captures_are_not_usable() {
    let m = ClipboardManager::new();
    assert!(m.is_usable_capture("hello"));
    assert!(m.is_usable_capture(" x "));
    assert!(!m.is_usable_capture(""));
    assert!(!m.is_usable_capture(" \t "));
}
