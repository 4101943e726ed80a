use smart_light::curtain::Command;
use smart_light::curtain::Manager;
use smart_light::curtains;
use smart_light::http::status_payload;

#[test]
fn blinds_start_closed() {
    let m = Manager::new();
    assert!(!m.is_open());
    let m2 = curtains::Manager::new();
    assert!(!m2.is_open());
}

#[test]
fn opening_and_closing_are_idempotent() {
    let mut m = Manager::new();
    assert_eq!(m.open_blinds(), Some(Command::Open));
    assert!(m.is_open());
    // Already open: the hardware is left alone.
    assert_eq!(m.open_blinds(), None);
    assert!(m.is_open());
    assert_eq!(m.close_blinds(), Some(Command::Close));
    assert!(!m.is_open());
    assert_eq!(m.close_blinds(), None);
}

#[test]
fn move_blinds_drives_to_the_requested_position() {
    let mut m = Manager::new();
    assert_eq!(m.move_blinds(true), Some(Command::Open));
    assert_eq!(m.move_blinds(true), None);
    assert_eq!(m.move_blinds(false), Some(Command::Close));
    assert_eq!(m.move_blinds(false), None);
}

#[test]
fn toggle_blinds_always_commands_the_new_position() {
    let mut m = Manager::new();
    assert_eq!(m.toggle_blinds(), (true, Command::Open));
    assert_eq!(m.toggle_blinds(), (false, Command::Close));
    assert_eq!(m.toggle_blinds(), (true, Command::Open));
}

#[test]
fn older_manager_toggles_the_same_way() {
    let mut m = curtains::Manager::new();
    assert_eq!(m.toggle(), (true, Command::Open));
    assert!(m.is_open());
    assert_eq!(m.toggle(), (false, Command::Close));
    assert!(!m.is_open());
}

#[test]
fn free_move_blinds_picks_the_command() {
    assert_eq!(curtains::move_blinds(true), Command::Open);
    assert_eq!(curtains::move_blinds(false), Command::Close);
}

#[test]
fn status_payload_is_the_exact_json_document() {
    assert_eq!(status_payload(true), "{\"open\":true}");
    assert_eq!(status_payload(false), "{\"open\":false}");
}
