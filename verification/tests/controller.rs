use std::sync::mpsc::RecvError;
use xmz_gui::app::{
    appop_loop_step, backend_loop_step, AppController, AppState, InternalCommand, ResponseAction, Settings,
};
use xmz_gui::backend::{BKCommand, BKResponse};
use xmz_gui::error::Error;

fn controller() -> AppController {
    AppController::new(Settings { fullscreen: false })
}

#[test]
fn new_controller() {
    let c = controller();
    assert!(!c.syncing);
    assert_eq!(c.server_url, "http://0.0.0.0:3000");
    assert_eq!(c.state, AppState::Index);
    assert_eq!(c.since, None);
    assert!(!c.activate());
    assert!(AppController::new(Settings { fullscreen: true }).activate());
}

#[test]
fn set_state_names_the_pages() {
    let mut c = controller();
    let pages = c.set_state(AppState::StoerungWartung);
    assert_eq!(c.state, AppState::StoerungWartung);
    assert_eq!(pages.content, "stoerung_wartung");
    assert_eq!(pages.headerbar, "normal");
    let pages = c.set_state(AppState::Index);
    assert_eq!(c.state, AppState::Index);
    assert_eq!(pages.content, "index");
    assert_eq!(pages.headerbar, "normal");
}

#[test]
fn init_shows_the_index_and_connects_to_the_default_server() {
    let mut c = controller();
    c.set_state(AppState::StoerungWartung);
    let (pages, cmd) = c.init();
    assert_eq!(pages.content, "index");
    assert_eq!(c.state, AppState::Index);
    assert!(matches!(cmd, BKCommand::Connect(ref u) if u == "http://0.0.0.0:3000"));
}

#[test]
fn connect_to_a_given_server() {
    let mut c = controller();
    let cmd = c.connect(Some("http://10.1.1.1:3000".to_string()));
    assert_eq!(c.server_url, "http://10.1.1.1:3000");
    assert!(matches!(cmd, BKCommand::Connect(ref u) if u == "http://10.1.1.1:3000"));
    let cmd = c.connect(None);
    assert_eq!(c.server_url, "http://0.0.0.0:3000");
    assert!(matches!(cmd, BKCommand::Connect(ref u) if u == "http://0.0.0.0:3000"));
}

#[test]
fn quit_and_disconnect_shut_the_backend_down() {
    let c = controller();
    assert!(matches!(c.quit(), BKCommand::ShutDown));
    assert!(matches!(c.disconnect(), BKCommand::ShutDown));
}

#[test]
fn only_one_sync_at_a_time() {
    let mut c = controller();
    assert!(matches!(c.sync(), Some(BKCommand::Sync)));
    assert!(c.syncing);
    assert!(c.sync().is_none());
    assert!(c.sync().is_none());
    assert!(c.syncing);
}

#[test]
fn finished_syncs_start_the_next() {
    let mut c = controller();
    c.sync();
    assert!(matches!(c.synced(Some("t1".to_string())), Some(BKCommand::Sync)));
    assert_eq!(c.since.as_deref(), Some("t1"));
    assert!(c.syncing);
    assert!(matches!(c.sync_error(), Some(BKCommand::Sync)));
    assert_eq!(c.since.as_deref(), Some("t1"));
    assert!(c.syncing);
    assert!(matches!(c.synced(None), Some(BKCommand::Sync)));
    assert_eq!(c.since, None);
}

#[test]
fn load_more_normal_changes_nothing() {
    let mut c = controller();
    c.load_more_normal();
    assert!(!c.syncing);
    assert_eq!(c.state, AppState::Index);
}

#[test]
fn response_loop_reacts_to_answers() {
    let mut sd = false;
    assert!(matches!(backend_loop_step(&mut sd, Ok(BKResponse::ConnectSuccessfull)), ResponseAction::Sync));
    assert!(matches!(
        backend_loop_step(&mut sd, Ok(BKResponse::Sync("t".to_string()))),
        ResponseAction::Synced(Some(ref s)) if s == "t"
    ));
    assert!(matches!(backend_loop_step(&mut sd, Ok(BKResponse::SyncError(Error::BackendError))), ResponseAction::SyncError));
    assert!(matches!(
        backend_loop_step(&mut sd, Ok(BKResponse::LoginError(Error::BackendError))),
        ResponseAction::Unexpected(BKResponse::LoginError(Error::BackendError))
    ));
    assert!(!sd);
    assert!(matches!(backend_loop_step(&mut sd, Err(RecvError)), ResponseAction::Stop));
}

#[test]
fn response_loop_drops_everything_after_shutdown() {
    let mut sd = false;
    assert!(matches!(backend_loop_step(&mut sd, Ok(BKResponse::ShutDown)), ResponseAction::ShuttingDown));
    assert!(sd);
    assert!(matches!(backend_loop_step(&mut sd, Ok(BKResponse::ConnectSuccessfull)), ResponseAction::Ignore));
    assert!(matches!(backend_loop_step(&mut sd, Ok(BKResponse::Sync("t".to_string()))), ResponseAction::Ignore));
    assert!(matches!(backend_loop_step(&mut sd, Ok(BKResponse::ShutDown)), ResponseAction::Ignore));
    assert!(sd);
    assert!(matches!(backend_loop_step(&mut sd, Err(RecvError)), ResponseAction::Stop));
}

#[test]
fn internal_loop() {
    assert_eq!(appop_loop_step(Ok(InternalCommand::LoadMoreNormal)), Some(InternalCommand::LoadMoreNormal));
    assert_eq!(appop_loop_step(Err(RecvError)), None);
}
