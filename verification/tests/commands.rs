use swaysplit::dispatch::LayoutCommand;
use swaysplit::events::{event_action, DaemonEvent, EventAction};

#[test]
fn command_strings_are_the_two_the_manager_understands() {
    assert_eq!(LayoutCommand::SplitHorizontal.command_str(), "splith");
    assert_eq!(LayoutCommand::SplitVertical.command_str(), "splitv");
}

#[test]
fn only_a_focus_change_triggers_processing() {
    assert_eq!(event_action(&DaemonEvent::WindowFocus), EventAction::ProcessFocusChange);
    assert_eq!(event_action(&DaemonEvent::WindowOther), EventAction::Skip);
    assert_eq!(event_action(&DaemonEvent::Other), EventAction::Skip);
}

#[test]
fn shutdown_stops_the_loop() {
    assert_eq!(event_action(&DaemonEvent::Shutdown), EventAction::Stop);
}
