use gp_client::runtime::ActiveProfile;
use gp_client::tray::{label, menu, menu_action, status_text, tooltip, MenuAction, MenuEntry};

fn active() -> ActiveProfile {
    ActiveProfile { id: "p1".to_string(), name: "Work".to_string() }
}

#[test]
fn an_ampersand_in_a_label_is_doubled() {
    assert_eq!(label("R&D & Co"), "R&&D && Co");
    assert_eq!(label("plain"), "plain");
}

#[test]
fn the_status_describes_the_connection() {
    assert_eq!(status_text("connected", Some("Work")), "Connected to Work");
    assert_eq!(status_text("connected", None), "Connected");
    assert_eq!(status_text("authenticating", Some("Work")), "Authenticating to Work…");
    assert_eq!(status_text("connecting", Some("Work")), "Connecting to Work…");
    assert_eq!(status_text("connecting", None), "Connecting…");
    assert_eq!(status_text("disconnecting", Some("Work")), "Disconnecting…");
    assert_eq!(status_text("disconnected", None), "Not connected");
}

#[test]
fn the_tooltip_names_the_state_and_the_connection() {
    assert_eq!(tooltip("connected", Some("Work")), "gp-client — connected to Work");
    assert_eq!(tooltip("connected", None), "gp-client — connected");
    assert_eq!(tooltip("disconnected", Some("Work")), "gp-client — not connected");
    assert_eq!(tooltip("authenticating", Some("Work")), "gp-client — authenticating (Work)");
    assert_eq!(tooltip("connecting", None), "gp-client — connecting");
}

#[test]
fn the_menu_lists_every_saved_connection() {
    let profiles = vec![("p1".to_string(), "Work".to_string()), ("p2".to_string(), "A&B".to_string())];
    let a = active();
    let entries = menu("connected", Some(&a), &profiles);
    assert_eq!(entries.len(), 9);
    match &entries[2] {
        MenuEntry::Check { id, text, enabled, checked } => {
            assert_eq!(id, "connect:p1");
            assert_eq!(text, "Work");
            assert!(!enabled);
            assert!(checked);
        }
        _ => panic!("expected a check item"),
    }
    assert!(matches!(&entries[3], MenuEntry::Check { text, checked: false, .. } if text == "A&&B"));
    assert!(matches!(&entries[6], MenuEntry::Item { id, enabled: true, .. } if id == "disconnect"));
}

#[test]
fn an_empty_menu_says_so_and_cannot_disconnect() {
    let entries = menu("disconnected", None, &Vec::new());
    assert_eq!(entries.len(), 8);
    assert!(matches!(&entries[2], MenuEntry::Item { id, enabled: false, .. } if id == "no-connections"));
    assert!(matches!(&entries[5], MenuEntry::Item { id, enabled: false, .. } if id == "disconnect"));
    assert!(matches!(&entries[0], MenuEntry::Item { text, .. } if text == "Not connected"));
}

#[test]
fn menu_clicks_are_recognised_by_id() {
    assert!(matches!(menu_action("connect:p7"), MenuAction::Connect(id) if id == "p7"));
    assert!(matches!(menu_action("show"), MenuAction::Show));
    assert!(matches!(menu_action("disconnect"), MenuAction::Disconnect));
    assert!(matches!(menu_action("quit"), MenuAction::Quit));
    assert!(matches!(menu_action("status"), MenuAction::Nothing));
}

#[test]
fn the_menu_ends_with_the_window_disconnect_and_quit_items() {
    let entries = menu("disconnected", None, &Vec::new());
    let n = entries.len();
    assert!(matches!(&entries[1], MenuEntry::Separator));
    assert!(matches!(&entries[2], MenuEntry::Item { text, .. } if text == "No saved connections"));
    assert!(matches!(&entries[n - 5], MenuEntry::Separator));
    assert!(
        matches!(&entries[n - 4], MenuEntry::Item { id, text, enabled: true } if id == "show" && text == "Open gp-client")
    );
    assert!(matches!(&entries[n - 3], MenuEntry::Item { text, .. } if text == "Disconnect"));
    assert!(matches!(&entries[n - 2], MenuEntry::Separator));
    assert!(matches!(&entries[n - 1], MenuEntry::Item { id, text, enabled: true } if id == "quit" && text == "Quit"));
}
