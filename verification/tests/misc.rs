use idlescreen::auth::{accept_control_peer, check_peer_basename, PeerExeCheck, TRUSTED_CONTROL_PEERS};
use idlescreen::bounds::MonitorCellBounds;
use idlescreen::completion::{completion_shell, CompletionError, CompletionShell};
use idlescreen::inhibit_watch::{client_to_forget, ExternalInhibitTracker, InhibitAction};
use idlescreen::pacing::on_battery;
use idlescreen::text::{str_contains, str_equals};

#[test]
fn trusted_peer_names_are_fixed() {
    assert!(TRUSTED_CONTROL_PEERS.contains(&"trance"));
    assert!(TRUSTED_CONTROL_PEERS.contains(&"trance-applet"));
    assert!(TRUSTED_CONTROL_PEERS.contains(&"trance-tui"));
    assert!(TRUSTED_CONTROL_PEERS.contains(&"trance-cli"));
    assert!(!TRUSTED_CONTROL_PEERS.contains(&"bash"));
    assert!(!TRUSTED_CONTROL_PEERS.contains(&"python3"));
}

#[test]
fn peer_checks() {
    assert_eq!(check_peer_basename(Some("trance-tui")), PeerExeCheck::Trusted);
    assert_eq!(check_peer_basename(Some("bash")), PeerExeCheck::Untrusted);
    assert_eq!(check_peer_basename(None), PeerExeCheck::Unreadable);
    assert!(accept_control_peer(PeerExeCheck::Unreadable, Some(1000), 1000));
    assert!(!accept_control_peer(PeerExeCheck::Unreadable, Some(1001), 1000));
    assert!(!accept_control_peer(PeerExeCheck::Unreadable, None, 1000));
    assert!(accept_control_peer(PeerExeCheck::Trusted, None, 1000));
    assert!(!accept_control_peer(PeerExeCheck::Untrusted, Some(1000), 1000));
}

#[test]
fn monitor_bounds_doc_example() {
    let b = MonitorCellBounds { start_col: 0, end_col: 10, start_row: 0, end_row: 5, is_primary: true };
    assert!(b.contains(5, 3));
    assert!(!b.contains(11, 3));
    assert!(!b.contains(10, 0));
    assert_eq!(b.width(), 10);
    assert_eq!(b.height(), 5);
    assert_eq!(b.center_col(), 5);
    assert_eq!(b.center_row(), 2);
}

#[test]
fn inverted_bounds_are_empty() {
    let b = MonitorCellBounds { start_col: 8, end_col: 4, start_row: 3, end_row: 9, is_primary: false };
    assert_eq!(b.width(), 0);
    assert_eq!(b.height(), 6);
    assert_eq!(b.center_col(), 8);
    assert_eq!(b.center_row(), 6);
    assert!(!b.contains(8, 3));
}

#[test]
fn completion_shell_choice() {
    let args = |s: &str| vec![s.to_string()];
    assert_eq!(completion_shell(&[]), Err(CompletionError::MissingShell));
    assert_eq!(completion_shell(&args("bash")), Ok(CompletionShell::Bash));
    assert_eq!(completion_shell(&args("zsh")), Ok(CompletionShell::Zsh));
    assert_eq!(completion_shell(&args("fish")), Ok(CompletionShell::Fish));
    assert_eq!(completion_shell(&args("nu")), Ok(CompletionShell::Nu));
    assert_eq!(completion_shell(&args("nushell")), Ok(CompletionShell::Nu));
    assert_eq!(completion_shell(&args("powershell")), Err(CompletionError::UnsupportedShell));
}

#[test]
fn external_inhibit_cookies_count_up_from_10000() {
    let mut t = ExternalInhibitTracker::new();
    let pair = || Some(("app".to_string(), "video".to_string()));
    let a = t.on_method_call(Some("Inhibit"), Some(":1.5".to_string()), pair(), None);
    assert_eq!(
        a,
        InhibitAction::Add { app: "app".to_string(), reason: "video".to_string(), sender: ":1.5".to_string(), cookie: 10000 }
    );
    let a = t.on_method_call(Some("Inhibit"), Some(":1.6".to_string()), pair(), None);
    assert!(matches!(a, InhibitAction::Add { cookie: 10001, .. }));
    let a = t.on_method_call(Some("UnInhibit"), Some(":1.5".to_string()), None, Some(10000));
    assert_eq!(a, InhibitAction::Remove { cookie: 10000, sender: ":1.5".to_string() });
    assert_eq!(t.on_method_call(Some("Inhibit"), Some(":1.5".to_string()), None, None), InhibitAction::Ignore);
    assert_eq!(t.on_method_call(Some("Other"), Some(":1.5".to_string()), pair(), Some(1)), InhibitAction::Ignore);
    assert_eq!(t.on_method_call(None, Some(":1.5".to_string()), pair(), None), InhibitAction::Ignore);
    assert_eq!(t.on_method_call(Some("Inhibit"), None, pair(), None), InhibitAction::Ignore);
    assert_eq!(t.next_cookie, 10002);
}

#[test]
fn cookie_counter_wraps() {
    let mut t = ExternalInhibitTracker { next_cookie: u32::MAX };
    let a = t.on_method_call(Some("Inhibit"), Some(":1.9".to_string()), Some(("a".to_string(), "b".to_string())), None);
    assert!(matches!(a, InhibitAction::Add { cookie: u32::MAX, .. }));
    assert_eq!(t.next_cookie, 0);
}

#[test]
fn vanished_unique_names_are_forgotten() {
    assert_eq!(client_to_forget(":1.5".to_string(), true, false), Some(":1.5".to_string()));
    assert_eq!(client_to_forget(":1.5".to_string(), true, true), None);
    assert_eq!(client_to_forget("org.x".to_string(), false, false), None);
}

#[test]
fn battery_detection_and_text_helpers() {
    assert!(on_battery("Battery (42%)"));
    assert!(on_battery("On Battery"));
    assert!(!on_battery("AC"));
    assert!(!on_battery("battery"));
    assert!(str_equals("abc", "abc"));
    assert!(!str_equals("abc", "abd"));
    assert!(!str_equals("abc", "ab"));
    assert!(str_contains("abc", ""));
    assert!(str_contains("hello", "llo"));
    assert!(!str_contains("hello", "hello!"));
}
