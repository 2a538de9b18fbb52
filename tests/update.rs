use getup::{update, Duration, Message, Model, RunningState, TimerState, WidgetBlock};

#[test]
fn test_update_quit() {
    let mut model = Model::default();

    update(&mut model, Message::Quit);

    assert_eq!(model.running_state, RunningState::Done);
}

#[test]
fn test_update_increase_sitting() {
    let mut model = Model::default();
    model.sitting_duration = Duration::from_secs(1800);
    model.selected_widget_block = WidgetBlock::SittingSettings;

    update(&mut model, Message::Increase);

    assert_eq!(model.sitting_duration, Duration::from_secs(2100));
}

#[test]
fn test_update_increase_standing() {
    let mut model = Model::default();
    model.standing_duration = Duration::from_secs(1800);
    model.selected_widget_block = WidgetBlock::StandingSettings;

    update(&mut model, Message::Increase);

    assert_eq!(model.standing_duration, Duration::from_secs(2100));
}

#[test]
fn test_update_decrease_sitting() {
    let mut model = Model::default();
    model.sitting_duration = Duration::from_secs(1800);
    model.selected_widget_block = WidgetBlock::SittingSettings;

    update(&mut model, Message::Decrease);

    assert_eq!(model.sitting_duration, Duration::from_secs(1500));
}

#[test]
fn test_update_decrease_standing() {
    let mut model = Model::default();
    model.standing_duration = Duration::from_secs(1800);
    model.selected_widget_block = WidgetBlock::StandingSettings;

    update(&mut model, Message::Decrease);

    assert_eq!(model.standing_duration, Duration::from_secs(1500));
}

#[test]
fn test_update_pause() {
    let mut model = Model::default();
    model.timer_state = TimerState::InProgress;

    update(&mut model, Message::Pause);

    assert_eq!(model.timer_state, TimerState::Paused);
}

#[test]
fn test_update_resume() {
    let mut model = Model::default();
    model.timer_state = TimerState::Paused;

    update(&mut model, Message::Resume);

    assert_eq!(model.timer_state, TimerState::InProgress);
}

#[test]
fn test_update_navigate_forward_timer_block() {
    let mut model = Model::default();
    model.selected_widget_block = WidgetBlock::Timer;

    update(&mut model, Message::NavigateForward);

    assert_eq!(model.selected_widget_block, WidgetBlock::SittingSettings);
}

#[test]
fn test_update_navigate_forward_sitting_settings_block() {
    let mut model = Model::default();
    model.selected_widget_block = WidgetBlock::SittingSettings;

    update(&mut model, Message::NavigateForward);

    assert_eq!(model.selected_widget_block, WidgetBlock::StandingSettings);
}

#[test]
fn test_update_navigate_forward_standing_settings_block() {
    let mut model = Model::default();
    model.selected_widget_block = WidgetBlock::StandingSettings;

    update(&mut model, Message::NavigateForward);

    assert_eq!(model.selected_widget_block, WidgetBlock::Timer);
}

#[test]
fn test_update_navigate_backward_timer_block() {
    let mut model = Model::default();
    model.selected_widget_block = WidgetBlock::Timer;

    update(&mut model, Message::NavigateBackward);

    assert_eq!(model.selected_widget_block, WidgetBlock::StandingSettings);
}

#[test]
fn test_update_navigate_backward_sitting_settings_block() {
    let mut model = Model::default();
    model.selected_widget_block = WidgetBlock::SittingSettings;

    update(&mut model, Message::NavigateBackward);

    assert_eq!(model.selected_widget_block, WidgetBlock::Timer);
}

#[test]
fn test_update_navigate_backward_standing_settings_block() {
    let mut model = Model::default();
    model.selected_widget_block = WidgetBlock::StandingSettings;

    update(&mut model, Message::NavigateBackward);

    assert_eq!(model.selected_widget_block, WidgetBlock::SittingSettings);
}
