use browser_sessions::config::ChromiumInstance;
use browser_sessions::dispatch::{Action, Command, CommandRun};
use browser_sessions::error::SessionError;
use browser_sessions::manager::SessionManager;

fn launched(manager: &mut SessionManager<u32>, handle: u32, now: u64) -> ChromiumInstance {
    manager.launch_chromium_browser(Ok(handle), now).unwrap()
}

#[test]
fn launch_reports_id_blank_page_and_port() {
    let mut manager: SessionManager<u32> = SessionManager::new();
    let instance = manager.launch_chromium_browser(Ok(1), 1700000000000);
    assert_eq!(
        instance,
        Ok(ChromiumInstance {
            id: "sess_1700000000000".to_string(),
            url: "about:blank".to_string(),
            port: 9222,
        })
    );
    assert!(manager.is_active("sess_1700000000000"));
    assert_eq!(manager.session_count(), 1);
}

#[test]
fn launches_in_sequence_give_distinct_ids() {
    let mut manager: SessionManager<u32> = SessionManager::new();
    let mut ids: Vec<String> = Vec::new();
    for (handle, now) in [(1u32, 500u64), (2, 500), (3, 500), (4, 499), (5, 0), (6, 700), (7, 700)] {
        ids.push(launched(&mut manager, handle, now).id);
    }
    assert_eq!(ids, vec!["sess_500", "sess_501", "sess_502", "sess_503", "sess_504", "sess_700", "sess_701"]);
    for i in 0..ids.len() {
        for j in 0..i {
            assert_ne!(ids[i], ids[j]);
        }
    }
    assert_eq!(manager.session_count(), 7);
}

#[test]
fn closed_id_is_not_issued_again() {
    let mut manager: SessionManager<u32> = SessionManager::new();
    let first = launched(&mut manager, 1, 42);
    assert_eq!(manager.close_chromium_browser(first.id.clone()), Ok(true));
    let second = launched(&mut manager, 2, 42);
    assert_ne!(first.id, second.id);
    assert_eq!(second.id, "sess_43");
    assert!(!manager.is_active("sess_42"));
}

#[test]
fn failed_connection_is_a_connection_error() {
    let mut manager: SessionManager<u32> = SessionManager::new();
    let outcome = manager.launch_chromium_browser(Err("no browser".to_string()), 5);
    assert_eq!(
        outcome,
        Err(SessionError::ConnectionError("Failed to launch browser: no browser".to_string()))
    );
    assert_eq!(manager.session_count(), 0);
    assert_eq!(launched(&mut manager, 1, 5).id, "sess_5");
}

#[test]
fn launch_fails_when_no_stamp_is_left() {
    let mut manager: SessionManager<u32> = SessionManager::new();
    assert_eq!(launched(&mut manager, 1, u64::MAX).id, "sess_18446744073709551615");
    let outcome = manager.launch_chromium_browser(Ok(2), 7);
    assert_eq!(
        outcome,
        Err(SessionError::ConfigurationError("No session identifier is left to issue".to_string()))
    );
    assert_eq!(manager.session_count(), 1);
}

#[test]
fn close_unknown_id_is_not_found() {
    let mut manager: SessionManager<u32> = SessionManager::new();
    assert_eq!(manager.close_chromium_browser("sess_1".to_string()), Err(SessionError::NotFound));
    launched(&mut manager, 1, 1);
    assert_eq!(manager.close_chromium_browser("sess_2".to_string()), Err(SessionError::NotFound));
    assert_eq!(manager.session_count(), 1);
}

#[test]
fn close_twice_fails_the_second_time() {
    let mut manager: SessionManager<u32> = SessionManager::new();
    let id = launched(&mut manager, 1, 1).id;
    assert_eq!(manager.close_chromium_browser(id.clone()), Ok(true));
    assert_eq!(manager.close_chromium_browser(id), Err(SessionError::NotFound));
}

#[test]
fn commands_after_close_are_not_found() {
    let mut manager: SessionManager<u32> = SessionManager::new();
    let id = launched(&mut manager, 1, 1).id;
    let other = launched(&mut manager, 2, 1).id;
    assert_eq!(manager.close_chromium_browser(id.clone()), Ok(true));
    assert_eq!(
        manager.navigate_to_url(id.clone(), "https://example.com".to_string()).err(),
        Some(SessionError::NotFound)
    );
    assert_eq!(
        manager.execute_js_in_browser(id.clone(), "1+1".to_string()).err(),
        Some(SessionError::NotFound)
    );
    assert_eq!(
        manager.take_browser_screenshot(id.clone(), "/tmp/out.png".to_string()).err(),
        Some(SessionError::NotFound)
    );
    assert_eq!(manager.get_page_content(id).err(), Some(SessionError::NotFound));
    assert_eq!(manager.session_count(), 1);
    assert!(manager.is_active(&other));
}

#[test]
fn navigate_starts_by_opening_a_page() {
    let mut manager: SessionManager<u32> = SessionManager::new();
    let id = launched(&mut manager, 77, 1).id;
    let accepted = manager.navigate_to_url(id, "https://example.com".to_string()).ok().unwrap();
    assert_eq!(*accepted.handle, 77);
    assert_eq!(accepted.action, Action::OpenPage { url: "https://example.com".to_string() });
    assert!(!accepted.run.is_finished());
}

#[test]
fn page_commands_start_by_listing_pages() {
    let mut manager: SessionManager<u32> = SessionManager::new();
    let id = launched(&mut manager, 77, 1).id;
    let script = manager.execute_js_in_browser(id.clone(), "1+1".to_string()).ok().unwrap();
    assert_eq!(script.action, Action::ListPages);
    assert_eq!(*script.handle, 77);
    let shot = manager.take_browser_screenshot(id.clone(), "/tmp/out.png".to_string()).ok().unwrap();
    assert_eq!(shot.action, Action::ListPages);
    let content = manager.get_page_content(id).ok().unwrap();
    assert_eq!(content.action, Action::ListPages);
}

#[test]
fn dispatch_gives_the_handle_of_the_named_session() {
    let mut manager: SessionManager<u32> = SessionManager::new();
    let a = launched(&mut manager, 10, 1).id;
    let b = launched(&mut manager, 20, 1).id;
    assert_eq!(*manager.dispatch(&a, Command::GetContent).ok().unwrap().handle, 10);
    assert_eq!(*manager.dispatch(&b, Command::GetContent).ok().unwrap().handle, 20);
    let (run, action) = CommandRun::begin(Command::GetContent);
    let accepted = manager.dispatch(&a, Command::GetContent).ok().unwrap();
    assert_eq!(accepted.run, run);
    assert_eq!(accepted.action, action);
    assert_eq!(manager.dispatch("nobody", Command::GetContent).err(), Some(SessionError::NotFound));
}

#[test]
fn sessions_are_independent() {
    let mut manager: SessionManager<u32> = SessionManager::new();
    let a = launched(&mut manager, 10, 1).id;
    let b = launched(&mut manager, 20, 1).id;
    let on_a = manager.navigate_to_url(a.clone(), "https://a.example".to_string()).ok().unwrap();
    let on_b = manager.navigate_to_url(b.clone(), "https://b.example".to_string()).ok().unwrap();
    assert_eq!(*on_a.handle, 10);
    assert_eq!(*on_b.handle, 20);
    assert_eq!(manager.close_chromium_browser(a), Ok(true));
    assert!(manager.is_active(&b));
    assert_eq!(*manager.get_page_content(b).ok().unwrap().handle, 20);
}
