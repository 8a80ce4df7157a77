//! The capture-then-upload orchestrator, as a state machine: each step
//! takes the current state and the outcome of the last piece of outside
//! work, and answers with the next state, the notifications to emit, and
//! the next piece of work to perform. The caller runs the loop: it emits
//! the notifications (fire-and-forget), performs the command, and hands the
//! outcome back as the next event.

use vstd::prelude::*;

use crate::errors::AppError;
use crate::{ScreenshotResult, UploadCompleteEvent, UploadResponse};

verus! {

/// A lifecycle notification for the UI layer. Emission is best-effort:
/// failures to deliver are deliberately unobservable.
#[derive(Debug, Clone, PartialEq, Eq)]
pub enum Notification {
    Started,
    Captured(ScreenshotResult),
    Uploaded(UploadCompleteEvent),
}

/// What one capture-then-upload run is asked to do.
#[derive(Debug, Clone, PartialEq, Eq)]
pub struct OrchestratorConfig {
    pub api_url: String,
    pub upload_token: String,
    pub visibility: String,
    pub monitor_index: Option<usize>,
    pub capture_all: bool,
}

/// A piece of outside work the caller must perform next.
#[derive(Debug, Clone, PartialEq, Eq)]
pub enum Command {
    /// Capture the screen: all monitors combined, or the indexed one.
    DoCapture { capture_all: bool, monitor_index: Option<usize> },
    /// Upload the file at the path with the given settings.
    DoUpload {
        file_path: String,
        api_url: String,
        upload_token: String,
        visibility: String,
        password: Option<String>,
    },
}

/// Where a run stands.
#[derive(Debug, Clone, PartialEq, Eq)]
pub enum OrchestratorState {
    Idle { config: OrchestratorConfig },
    Capturing { config: OrchestratorConfig },
    Uploading { config: OrchestratorConfig, shot: ScreenshotResult },
    Done { event: UploadCompleteEvent },
    Failed { error: AppError },
}

/// What happened since the last step.
#[derive(Debug, PartialEq, Eq)]
pub enum OrchestratorEvent {
    Begin,
    CaptureFinished { outcome: Result<ScreenshotResult, AppError> },
    UploadFinished { outcome: Result<UploadResponse, AppError> },
}

/// One step's answer.
#[derive(Debug, Clone, PartialEq, Eq)]
pub struct StepResult {
    pub state: OrchestratorState,
    pub notifications: Vec<Notification>,
    pub command: Option<Command>,
}

/// The whole transition table: next state, notifications in emission order,
/// and the next command.
pub open spec fn spec_step(state: OrchestratorState, event: OrchestratorEvent) -> (
    OrchestratorState,
    Seq<Notification>,
    Option<Command>,
) {
    match (state, event) {
        (OrchestratorState::Idle { config }, OrchestratorEvent::Begin) => (
            OrchestratorState::Capturing { config },
            seq![Notification::Started],
            Some(
                Command::DoCapture {
                    capture_all: config.capture_all,
                    monitor_index: config.monitor_index,
                },
            ),
        ),
        (
            OrchestratorState::Capturing { config },
            OrchestratorEvent::CaptureFinished { outcome },
        ) => match outcome {
            Ok(shot) => (
                OrchestratorState::Uploading { config, shot },
                seq![Notification::Captured(shot)],
                Some(
                    Command::DoUpload {
                        file_path: shot.path,
                        api_url: config.api_url,
                        upload_token: config.upload_token,
                        visibility: config.visibility,
                        password: None,
                    },
                ),
            ),
            Err(error) => (OrchestratorState::Failed { error }, Seq::empty(), None),
        },
        (
            OrchestratorState::Uploading { config, shot },
            OrchestratorEvent::UploadFinished { outcome },
        ) => match outcome {
            Ok(resp) => {
                let event = UploadCompleteEvent {
                    url: resp.url,
                    name: resp.name,
                    size: resp.size,
                    file_type: resp.file_type,
                    screenshot_path: Some(shot.path),
                };
                (OrchestratorState::Done { event }, seq![Notification::Uploaded(event)], None)
            },
            Err(error) => (OrchestratorState::Failed { error }, Seq::empty(), None),
        },
        (s, _) => (s, Seq::empty(), None),
    }
}

/// One orchestration step. The caller emits the notifications in order,
/// performs the command, and feeds the outcome back as the next event; an
/// event that does not fit the state changes nothing.
pub fn step(state: OrchestratorState, event: OrchestratorEvent) -> (r: StepResult)
    ensures
        (r.state, r.notifications@, r.command) == spec_step(state, event),
{
    match (state, event) {
        (OrchestratorState::Idle { config }, OrchestratorEvent::Begin) => {
            let command = Command::DoCapture {
                capture_all: config.capture_all,
                monitor_index: config.monitor_index,
            };
            StepResult {
                state: OrchestratorState::Capturing { config },
                notifications: vec![Notification::Started],
                command: Some(command),
            }
        },
        (
            OrchestratorState::Capturing { config },
            OrchestratorEvent::CaptureFinished { outcome },
        ) => match outcome {
            Ok(shot) => {
                let notification = Notification::Captured(
                    ScreenshotResult {
                        path: shot.path.clone(),
                        width: shot.width,
                        height: shot.height,
                    },
                );
                let command = Command::DoUpload {
                    file_path: shot.path.clone(),
                    api_url: config.api_url.clone(),
                    upload_token: config.upload_token.clone(),
                    visibility: config.visibility.clone(),
                    password: None,
                };
                StepResult {
                    state: OrchestratorState::Uploading { config, shot },
                    notifications: vec![notification],
                    command: Some(command),
                }
            },
            Err(error) => StepResult {
                state: OrchestratorState::Failed { error },
                notifications: Vec::new(),
                command: None,
            },
        },
        (
            OrchestratorState::Uploading { config: _, shot },
            OrchestratorEvent::UploadFinished { outcome },
        ) => match outcome {
            Ok(resp) => {
                let event = UploadCompleteEvent {
                    url: resp.url,
                    name: resp.name,
                    size: resp.size,
                    file_type: resp.file_type,
                    screenshot_path: Some(shot.path),
                };
                let notification = Notification::Uploaded(
                    UploadCompleteEvent {
                        url: event.url.clone(),
                        name: event.name.clone(),
                        size: event.size,
                        file_type: event.file_type.clone(),
                        screenshot_path: match &event.screenshot_path {
                            Some(p) => Some(p.clone()),
                            None => None,
                        },
                    },
                );
                StepResult {
                    state: OrchestratorState::Done { event },
                    notifications: vec![notification],
                    command: None,
                }
            },
            Err(error) => StepResult {
                state: OrchestratorState::Failed { error },
                notifications: Vec::new(),
                command: None,
            },
        },
        (s, _) => StepResult { state: s, notifications: Vec::new(), command: None },
    }
}

/// A successful run emits exactly three notifications, in order: started,
/// captured (with the capture's result), uploaded (with the completion
/// event); the completion event's screenshot path is the path the capture
/// step produced; and the run ends in the done state.
pub proof fn lemma_successful_run(
    config: OrchestratorConfig,
    shot: ScreenshotResult,
    resp: UploadResponse,
)
    ensures
        ({
            let r1 = spec_step(OrchestratorState::Idle { config }, OrchestratorEvent::Begin);
            let r2 = spec_step(
                r1.0,
                OrchestratorEvent::CaptureFinished { outcome: Ok(shot) },
            );
            let r3 = spec_step(
                r2.0,
                OrchestratorEvent::UploadFinished { outcome: Ok(resp) },
            );
            let event = UploadCompleteEvent {
                url: resp.url,
                name: resp.name,
                size: resp.size,
                file_type: resp.file_type,
                screenshot_path: Some(shot.path),
            };
            &&& r1.1 + r2.1 + r3.1 == seq![
                Notification::Started,
                Notification::Captured(shot),
                Notification::Uploaded(event),
            ]
            &&& event.screenshot_path == Some(shot.path)
            &&& r3.0 == (OrchestratorState::Done { event })
            &&& r1.2 == Some(
                Command::DoCapture {
                    capture_all: config.capture_all,
                    monitor_index: config.monitor_index,
                },
            )
            &&& r2.2 == Some(
                Command::DoUpload {
                    file_path: shot.path,
                    api_url: config.api_url,
                    upload_token: config.upload_token,
                    visibility: config.visibility,
                    password: None,
                },
            )
        }),
{
    let r1 = spec_step(OrchestratorState::Idle { config }, OrchestratorEvent::Begin);
    let r2 = spec_step(r1.0, OrchestratorEvent::CaptureFinished { outcome: Ok(shot) });
    let r3 = spec_step(r2.0, OrchestratorEvent::UploadFinished { outcome: Ok(resp) });
    let event = UploadCompleteEvent {
        url: resp.url,
        name: resp.name,
        size: resp.size,
        file_type: resp.file_type,
        screenshot_path: Some(shot.path),
    };
    assert(r1.1 + r2.1 + r3.1 =~= seq![
        Notification::Started,
        Notification::Captured(shot),
        Notification::Uploaded(event),
    ]);
}

/// A failed capture ends the run in the failed state carrying that very
/// error, emits nothing further, and commands no upload.
pub proof fn lemma_capture_failure_stops(config: OrchestratorConfig, error: AppError)
    ensures
        ({
            let r1 = spec_step(OrchestratorState::Idle { config }, OrchestratorEvent::Begin);
            let r2 = spec_step(
                r1.0,
                OrchestratorEvent::CaptureFinished { outcome: Err(error) },
            );
            &&& r2.0 == (OrchestratorState::Failed { error })
            &&& r2.1 == Seq::<Notification>::empty()
            &&& r2.2 is None
        }),
{
}

} // verus!
