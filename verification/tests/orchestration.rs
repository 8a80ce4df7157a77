use flicker::errors::AppError;
use flicker::orchestrator::{
    step, Command, Notification, OrchestratorConfig, OrchestratorEvent, OrchestratorState,
};
use flicker::{ScreenshotResult, UploadCompleteEvent, UploadResponse};

fn config() -> OrchestratorConfig {
    OrchestratorConfig {
        api_url: "https://files.example".to_string(),
        upload_token: "tok".to_string(),
        visibility: "private".to_string(),
        monitor_index: Some(0),
        capture_all: false,
    }
}

fn shot() -> ScreenshotResult {
    ScreenshotResult { path: "/pics/shot.png".to_string(), width: 8, height: 4 }
}

fn response() -> UploadResponse {
    UploadResponse {
        url: "https://x/y.png".to_string(),
        name: "y.png".to_string(),
        size: 123,
        file_type: "image/png".to_string(),
    }
}

#[test]
fn successful_run_emits_three_notifications_in_order() {
    let mut notifications = Vec::new();

    let r1 = step(OrchestratorState::Idle { config: config() }, OrchestratorEvent::Begin);
    notifications.extend(r1.notifications);
    assert_eq!(
        r1.command,
        Some(Command::DoCapture { capture_all: false, monitor_index: Some(0) })
    );

    let r2 = step(
        r1.state,
        OrchestratorEvent::CaptureFinished { outcome: Ok(shot()) },
    );
    notifications.extend(r2.notifications);
    assert_eq!(
        r2.command,
        Some(Command::DoUpload {
            file_path: "/pics/shot.png".to_string(),
            api_url: "https://files.example".to_string(),
            upload_token: "tok".to_string(),
            visibility: "private".to_string(),
            password: None,
        })
    );

    let r3 = step(
        r2.state,
        OrchestratorEvent::UploadFinished { outcome: Ok(response()) },
    );
    notifications.extend(r3.notifications);
    assert_eq!(r3.command, None);

    let event = UploadCompleteEvent {
        url: "https://x/y.png".to_string(),
        name: "y.png".to_string(),
        size: 123,
        file_type: "image/png".to_string(),
        screenshot_path: Some("/pics/shot.png".to_string()),
    };
    assert_eq!(
        notifications,
        vec![
            Notification::Started,
            Notification::Captured(shot()),
            Notification::Uploaded(event.clone()),
        ]
    );
    assert_eq!(r3.state, OrchestratorState::Done { event });
}

#[test]
fn capture_failure_stops_the_run() {
    let r1 = step(OrchestratorState::Idle { config: config() }, OrchestratorEvent::Begin);
    let r2 = step(
        r1.state,
        OrchestratorEvent::CaptureFinished { outcome: Err(AppError::NoScreens) },
    );
    assert_eq!(r2.state, OrchestratorState::Failed { error: AppError::NoScreens });
    assert!(r2.notifications.is_empty());
    assert_eq!(r2.command, None);
}

#[test]
fn upload_failure_keeps_the_error_and_emits_nothing() {
    let r1 = step(OrchestratorState::Idle { config: config() }, OrchestratorEvent::Begin);
    let r2 = step(
        r1.state,
        OrchestratorEvent::CaptureFinished { outcome: Ok(shot()) },
    );
    let rejected = AppError::UploadRejected { status: 403, body: "forbidden".to_string() };
    let r3 = step(
        r2.state,
        OrchestratorEvent::UploadFinished { outcome: Err(rejected.clone()) },
    );
    assert_eq!(r3.state, OrchestratorState::Failed { error: rejected });
    assert!(r3.notifications.is_empty());
    assert_eq!(r3.command, None);
}

#[test]
fn an_event_that_does_not_fit_the_state_changes_nothing() {
    let idle = OrchestratorState::Idle { config: config() };
    let r = step(
        idle,
        OrchestratorEvent::UploadFinished { outcome: Ok(response()) },
    );
    assert_eq!(r.state, OrchestratorState::Idle { config: config() });
    assert!(r.notifications.is_empty());
    assert_eq!(r.command, None);
}
