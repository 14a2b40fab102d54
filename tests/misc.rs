use amalthea::comm::{CommManager, CommOpenOutcome};
use amalthea::data_viewer::{DataColumn, RDataViewer};
use amalthea::markdown::{md_bold, md_codeblock, md_h1, md_h5, md_h6, md_italic, md_newline};
use amalthea::position::{Position, Range};
use amalthea::ui_comm::{BusyParams, UiFrontendEvent};

#[test]
fn markdown_helpers() {
    assert_eq!(md_bold("x"), "**x**");
    assert_eq!(md_italic("x"), "_x_");
    assert_eq!(md_h1("T"), "# T");
    assert_eq!(md_h5("T"), "##### T");
    assert_eq!(md_h6("T"), "###### T");
    assert_eq!(md_newline(), "\n\n");
    assert_eq!(md_codeblock("r", "1+1"), "``` r\n1+1\n```\n");
}

#[test]
fn range_from_positions() {
    let r = Range::new(Position::new(1, 2), Position::new(3, 4));
    assert_eq!(r.start, Position { row: 1, column: 2 });
    assert_eq!(r.end.column, 4);
}

#[test]
fn ui_event_methods() {
    assert_eq!(UiFrontendEvent::Busy(BusyParams { busy: true }).method(), "busy");
    assert_eq!(UiFrontendEvent::ClearConsole.method(), "clear_console");
}

#[test]
fn data_viewer_opens_a_kernel_side_comm_once() {
    let mut comms = CommManager::new(vec!["positron.dataViewer".to_string()]);
    let column = DataColumn { name: "a".to_string(), column_type: "String".to_string(), data: vec!["1".to_string()] };
    let viewer = RDataViewer::new("df".to_string(), vec![column]);
    assert_eq!(viewer.data.id, viewer.id);
    assert_eq!(viewer.open_comm(&mut comms), CommOpenOutcome::Opened);
    assert_eq!(comms.route(&viewer.id), Some("positron.dataViewer".to_string()));
    assert_eq!(viewer.open_comm(&mut comms), CommOpenOutcome::ReusedId);
}

#[test]
fn registry_refuses_unknown_targets_and_reused_ids() {
    let mut comms = CommManager::new(vec!["t".to_string()]);
    let id = "id-1".to_string();
    assert_eq!(comms.open(&id, &"other".to_string(), amalthea::comm::CommInitiator::FrontEnd), CommOpenOutcome::UnknownTarget);
    assert_eq!(comms.route(&id), None);
    assert_eq!(comms.open(&id, &"t".to_string(), amalthea::comm::CommInitiator::FrontEnd), CommOpenOutcome::Opened);
    assert!(comms.close(&id));
    assert!(!comms.close(&id));
    assert_eq!(comms.route(&id), None);
    assert_eq!(comms.open(&id, &"t".to_string(), amalthea::comm::CommInitiator::FrontEnd), CommOpenOutcome::ReusedId);
}
