use xplm_egui::frame::FocusCommand;
use xplm_egui::frame::FocusState;
use xplm_egui::frame::OutputEvent;

#[test]
fn focus_is_requested_only_on_the_rising_edge() {
    let mut state = FocusState::new();
    let none: Vec<OutputEvent> = Vec::new();
    assert_eq!(state.update(false, &none), Vec::new());
    assert_eq!(state.update(true, &none), vec![FocusCommand::Take]);
    assert_eq!(state.update(true, &none), Vec::new());
    assert_eq!(state.update(true, &none), Vec::new());
    assert_eq!(state.update(false, &none), vec![FocusCommand::Release]);
    assert_eq!(state.update(false, &none), Vec::new());
}

#[test]
fn focus_gained_output_requests_focus_in_a_steady_state() {
    let mut state = FocusState::new();
    let none: Vec<OutputEvent> = Vec::new();
    state.update(true, &none);
    let events = vec![OutputEvent::Other, OutputEvent::FocusGained, OutputEvent::Other];
    assert_eq!(state.update(true, &events), vec![FocusCommand::Take]);
}

#[test]
fn edge_call_precedes_output_calls() {
    let mut state = FocusState::new();
    let events = vec![OutputEvent::FocusGained, OutputEvent::FocusGained];
    assert_eq!(
        state.update(true, &events),
        vec![FocusCommand::Take, FocusCommand::Take, FocusCommand::Take]
    );
}

#[test]
fn other_output_events_trigger_nothing() {
    let mut state = FocusState::new();
    let events = vec![OutputEvent::Other, OutputEvent::Other];
    assert_eq!(state.update(false, &events), Vec::new());
}
