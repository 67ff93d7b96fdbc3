use browser_sessions::config::{launch_plan, ChromiumInstance};
use browser_sessions::dispatch::{Action, CommandRun, Event, Reply, Step};
use browser_sessions::error::SessionError;
use browser_sessions::manager::SessionManager;
use serde_json::Value;

/// A browser that answers from a script: one page, with a fixed title.
fn answer(action: &Action) -> Event {
    match action {
        Action::OpenPage { .. } => Event::PageOpened,
        Action::Goto { .. } => Event::Navigated,
        Action::ListPages => Event::Pages { count: 1 },
        Action::Evaluate { script, .. } => {
            let value = if script == "1+1" { Value::from(2) } else { Value::from("Example Domain") };
            Event::evaluated(Some(&value))
        }
        Action::Capture { .. } => Event::Captured { bytes: vec![137, 80, 78, 71, 13, 10, 26, 10] },
        Action::WriteFile { .. } => Event::Written,
        Action::ReadContent { .. } => Event::Content { markup: "<html></html>".to_string() },
    }
}

fn drive(mut run: CommandRun, first: Action) -> (Result<Reply, SessionError>, Vec<Action>) {
    let mut done = Vec::new();
    let mut action = first;
    loop {
        let event = answer(&action);
        done.push(action);
        assert!(run.expects(&event));
        match run.advance(event) {
            Step::Perform(next) => action = next,
            Step::Finish(outcome) => {
                assert!(run.is_finished());
                return (outcome, done);
            }
        }
    }
}

#[test]
fn launch_navigate_evaluate_capture_close() {
    let mut manager: SessionManager<&str> = SessionManager::new();
    let plan = launch_plan(None);
    assert!(!plan.headless);

    let instance = manager.launch_chromium_browser(Ok("connection"), 1_700_000_000_000).unwrap();
    assert_eq!(
        instance,
        ChromiumInstance { id: "sess_1700000000000".to_string(), url: "about:blank".to_string(), port: 9222 }
    );
    let id = instance.id;

    let accepted = manager.navigate_to_url(id.clone(), "https://example.com".to_string()).ok().unwrap();
    assert_eq!(*accepted.handle, "connection");
    let (outcome, done) = drive(accepted.run, accepted.action);
    assert_eq!(outcome, Ok(Reply::Done(true)));
    assert_eq!(
        done,
        vec![
            Action::OpenPage { url: "https://example.com".to_string() },
            Action::Goto { url: "https://example.com".to_string() },
        ]
    );

    let accepted = manager.execute_js_in_browser(id.clone(), "document.title".to_string()).ok().unwrap();
    let (outcome, done) = drive(accepted.run, accepted.action);
    assert_eq!(outcome, Ok(Reply::Text("\"Example Domain\"".to_string())));
    assert_eq!(
        done,
        vec![Action::ListPages, Action::Evaluate { page: 0, script: "document.title".to_string() }]
    );

    let accepted = manager.execute_js_in_browser(id.clone(), "1+1".to_string()).ok().unwrap();
    let (outcome, _) = drive(accepted.run, accepted.action);
    assert_eq!(outcome, Ok(Reply::Text("2".to_string())));

    let accepted = manager.take_browser_screenshot(id.clone(), "/tmp/out.png".to_string()).ok().unwrap();
    let (outcome, done) = drive(accepted.run, accepted.action);
    assert_eq!(outcome, Ok(Reply::Text("/tmp/out.png".to_string())));
    assert_eq!(
        done,
        vec![
            Action::ListPages,
            Action::Capture { page: 0 },
            Action::WriteFile { path: "/tmp/out.png".to_string(), bytes: vec![137, 80, 78, 71, 13, 10, 26, 10] },
        ]
    );

    let accepted = manager.get_page_content(id.clone()).ok().unwrap();
    let (outcome, done) = drive(accepted.run, accepted.action);
    assert_eq!(outcome, Ok(Reply::Text("<html></html>".to_string())));
    assert_eq!(done, vec![Action::ListPages, Action::ReadContent { page: 0 }]);

    assert_eq!(manager.close_chromium_browser(id.clone()), Ok(true));
    assert_eq!(manager.get_page_content(id).err(), Some(SessionError::NotFound));
    assert_eq!(manager.session_count(), 0);
}

#[test]
fn failed_command_leaves_the_session_active() {
    let mut manager: SessionManager<u8> = SessionManager::new();
    let id = manager.launch_chromium_browser(Ok(1), 10).unwrap().id;
    let mut accepted = manager.navigate_to_url(id.clone(), "https://example.com".to_string()).ok().unwrap();
    accepted.run.advance(Event::PageOpened);
    let step = accepted.run.advance(Event::Failed { detail: "net::ERR_NAME_NOT_RESOLVED".to_string() });
    assert_eq!(
        step,
        Step::Finish(Err(SessionError::ConnectionError(
            "Failed to navigate: net::ERR_NAME_NOT_RESOLVED".to_string()
        )))
    );
    assert!(manager.is_active(&id));
    assert!(manager.get_page_content(id).is_ok());
}
