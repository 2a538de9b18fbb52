//! The reminder's state machine: which interval is timed, how long each one
//! lasts, which control has focus, and how each command changes them.
use vstd::prelude::*;

use crate::duration::{
    lemma_duration_bounded, max_nanos, saturating_add_spec, saturating_sub_spec, Duration,
    NANOS_PER_SEC,
};
use crate::pausable_timer::{Timer, TimerState, TimerView};

verus! {

broadcast use lemma_duration_bounded;

/// How much one Increase or Decrease moves a setting, in seconds.
pub const STEP_SECS: u64 = 300;

/// The shortest interval a setting may hold, in seconds.
pub const MIN_DURATION_SECS: u64 = 300;

/// The longest interval a setting may hold, in seconds.
pub const MAX_DURATION_SECS: u64 = 14_400;

pub const DEFAULT_SITTING_SECS: u64 = 3600;

pub const DEFAULT_STANDING_SECS: u64 = 1800;

pub open spec fn step_duration() -> nat {
    (STEP_SECS * NANOS_PER_SEC) as nat
}

pub open spec fn min_duration() -> nat {
    (MIN_DURATION_SECS * NANOS_PER_SEC) as nat
}

pub open spec fn max_duration() -> nat {
    (MAX_DURATION_SECS * NANOS_PER_SEC) as nat
}

pub open spec fn in_bounds(d: nat) -> bool {
    min_duration() <= d <= max_duration()
}

/// `d` moved to the nearest value inside the bounds.
pub open spec fn clamp_spec(d: nat) -> nat {
    if d < min_duration() {
        min_duration()
    } else if d > max_duration() {
        max_duration()
    } else {
        d
    }
}

/// A setting after one Increase.
pub open spec fn increased(d: nat) -> nat {
    clamp_spec(saturating_add_spec(d, step_duration()))
}

/// A setting after one Decrease.
pub open spec fn decreased(d: nat) -> nat {
    clamp_spec(saturating_sub_spec(d, step_duration()))
}

/// Which interval is being timed.
#[derive(Clone, Copy, Debug, PartialEq, Eq, Structural)]
pub enum State {
    Sitting,
    Standing,
}

impl State {
    pub open spec fn flipped(self) -> State {
        match self {
            State::Sitting => State::Standing,
            State::Standing => State::Sitting,
        }
    }
}

/// Whether the host loop should go on.
#[derive(Clone, Copy, Debug, PartialEq, Eq, Structural)]
pub enum RunningState {
    Running,
    Done,
}

/// The on-screen control that key presses act on.
#[derive(Clone, Copy, Debug, PartialEq, Eq, Structural)]
pub enum WidgetBlock {
    Timer,
    SittingSettings,
    StandingSettings,
}

/// The control after `w` in the cycle Timer, SittingSettings, StandingSettings.
pub open spec fn next_block(w: WidgetBlock) -> WidgetBlock {
    match w {
        WidgetBlock::Timer => WidgetBlock::SittingSettings,
        WidgetBlock::SittingSettings => WidgetBlock::StandingSettings,
        WidgetBlock::StandingSettings => WidgetBlock::Timer,
    }
}

/// The control before `w` in the cycle Timer, SittingSettings, StandingSettings.
pub open spec fn prev_block(w: WidgetBlock) -> WidgetBlock {
    match w {
        WidgetBlock::Timer => WidgetBlock::StandingSettings,
        WidgetBlock::SittingSettings => WidgetBlock::Timer,
        WidgetBlock::StandingSettings => WidgetBlock::SittingSettings,
    }
}

/// A command to the state machine.
#[derive(Clone, Copy, Debug, PartialEq, Eq, Structural)]
pub enum Message {
    Increase,
    Decrease,
    Reset,
    Next,
    Quit,
    Pause,
    Resume,
    NavigateForward,
    NavigateBackward,
    TimerFinished,
}

/// A reminder the host should deliver, carrying the length of the interval
/// that has just begun.
#[derive(Clone, Copy, Debug, PartialEq, Eq, Structural)]
pub enum Notice {
    Sit(Duration),
    Stand(Duration),
}

/// The whole state of the reminder.
#[derive(Debug)]
pub struct Model {
    pub state: State,
    pub timer_state: TimerState,
    pub sitting_duration: Duration,
    pub standing_duration: Duration,
    pub running_state: RunningState,
    pub selected_widget_block: WidgetBlock,
    pub timer: Timer,
}

/// A `Model` with its durations in nanoseconds and its timer as a `TimerView`.
pub struct ModelView {
    pub state: State,
    pub timer_state: TimerState,
    pub sitting_duration: nat,
    pub standing_duration: nat,
    pub running_state: RunningState,
    pub selected_widget_block: WidgetBlock,
    pub timer: TimerView,
}

impl View for Model {
    type V = ModelView;

    open spec fn view(&self) -> ModelView {
        ModelView {
            state: self.state,
            timer_state: self.timer_state,
            sitting_duration: self.sitting_duration@,
            standing_duration: self.standing_duration@,
            running_state: self.running_state,
            selected_widget_block: self.selected_widget_block,
            timer: self.timer@,
        }
    }
}

impl ModelView {
    /// Both settings lie within the bounds.
    pub open spec fn wf(self) -> bool {
        in_bounds(self.sitting_duration) && in_bounds(self.standing_duration)
    }

    /// The length of the interval being timed.
    pub open spec fn active_duration(self) -> nat {
        match self.state {
            State::Sitting => self.sitting_duration,
            State::Standing => self.standing_duration,
        }
    }

    /// The state after `message`, where a pause ends a running segment of
    /// `live`.
    pub open spec fn step(self, message: Message, live: nat) -> ModelView {
        match message {
            Message::Quit => ModelView { running_state: RunningState::Done, ..self },
            Message::Increase => match self.selected_widget_block {
                WidgetBlock::SittingSettings => ModelView {
                    sitting_duration: increased(self.sitting_duration),
                    ..self
                },
                WidgetBlock::StandingSettings => ModelView {
                    standing_duration: increased(self.standing_duration),
                    ..self
                },
                WidgetBlock::Timer => self,
            },
            Message::Decrease => match self.selected_widget_block {
                WidgetBlock::SittingSettings => ModelView {
                    sitting_duration: decreased(self.sitting_duration),
                    ..self
                },
                WidgetBlock::StandingSettings => ModelView {
                    standing_duration: decreased(self.standing_duration),
                    ..self
                },
                WidgetBlock::Timer => self,
            },
            Message::Pause => ModelView {
                timer_state: TimerState::Paused,
                timer: self.timer.pause_at(live),
                ..self
            },
            Message::Resume => ModelView {
                timer_state: TimerState::InProgress,
                timer: self.timer.resumed(),
                ..self
            },
            Message::NavigateForward => ModelView {
                selected_widget_block: next_block(self.selected_widget_block),
                ..self
            },
            Message::NavigateBackward => ModelView {
                selected_widget_block: prev_block(self.selected_widget_block),
                ..self
            },
            Message::Reset => if self.selected_widget_block == WidgetBlock::Timer {
                ModelView { timer: TimerView::started(), ..self }
            } else {
                self
            },
            Message::Next => if self.selected_widget_block == WidgetBlock::Timer {
                ModelView { state: self.state.flipped(), timer: TimerView::started(), ..self }
            } else {
                self
            },
            Message::TimerFinished => ModelView {
                state: self.state.flipped(),
                timer: TimerView::started(),
                ..self
            },
        }
    }

    /// `r` is the reminder that `message` owes: after a finished interval, one
    /// for the interval that begins, with its length; otherwise none.
    pub open spec fn announces(self, message: Message, r: Option<Notice>) -> bool {
        match message {
            Message::TimerFinished => match self.state {
                State::Sitting => r matches Some(Notice::Stand(d)) && d@ == self.standing_duration,
                State::Standing => r matches Some(Notice::Sit(d)) && d@ == self.sitting_duration,
            },
            _ => r is None,
        }
    }

    /// The command that `key` stands for.
    pub open spec fn command_for(self, key: Key) -> Option<Message> {
        match key {
            Key::Char(c) => if c == 'q' || c == 'Q' {
                Some(Message::Quit)
            } else if c == ' ' {
                if self.timer_state == TimerState::Paused {
                    Some(Message::Resume)
                } else {
                    Some(Message::Pause)
                }
            } else if c == 'h' || c == 'H' {
                if self.selected_widget_block == WidgetBlock::Timer {
                    Some(Message::Reset)
                } else {
                    Some(Message::Decrease)
                }
            } else if c == 'l' || c == 'L' {
                if self.selected_widget_block == WidgetBlock::Timer {
                    Some(Message::Next)
                } else {
                    Some(Message::Increase)
                }
            } else {
                None
            },
            Key::Tab => Some(Message::NavigateForward),
            Key::BackTab => Some(Message::NavigateBackward),
            Key::Other => None,
        }
    }

    /// The tick check: the running interval is over once the timer shows more
    /// than its length.
    pub open spec fn tick(self, elapsed: nat) -> Option<Message> {
        if self.timer_state == TimerState::InProgress && elapsed > self.active_duration() {
            Some(Message::TimerFinished)
        } else {
            None
        }
    }
}

/// A key press, as far as the reminder tells keys apart.
#[derive(Clone, Copy, Debug, PartialEq, Eq, Structural)]
pub enum Key {
    Char(char),
    Tab,
    BackTab,
    Other,
}

/// `d` held within the bounds of a setting.
pub fn clamp_to_bounds(d: Duration) -> (r: Duration)
    ensures
        r@ == clamp_spec(d@),
        min_duration() <= r@ <= max_duration(),
{
    let min = Duration::from_secs(MIN_DURATION_SECS);
    let max = Duration::from_secs(MAX_DURATION_SECS);
    if min.longer_than(&d) {
        min
    } else if d.longer_than(&max) {
        max
    } else {
        d
    }
}

/// A setting after one Increase.
fn increase(d: Duration) -> (r: Duration)
    ensures
        r@ == increased(d@),
{
    clamp_to_bounds(d.saturating_add(Duration::from_secs(STEP_SECS)))
}

/// A setting after one Decrease.
fn decrease(d: Duration) -> (r: Duration)
    ensures
        r@ == decreased(d@),
{
    clamp_to_bounds(d.saturating_sub(Duration::from_secs(STEP_SECS)))
}

fn flip(s: State) -> (r: State)
    ensures
        r == s.flipped(),
{
    match s {
        State::Sitting => State::Standing,
        State::Standing => State::Sitting,
    }
}

impl Default for Model {
    /// Sitting first, timer running and focused, with the default settings
    /// (an hour of sitting, half an hour of standing).
    fn default() -> (r: Model)
        ensures
            r@ == (ModelView {
                state: State::Sitting,
                timer_state: TimerState::InProgress,
                sitting_duration: (DEFAULT_SITTING_SECS * NANOS_PER_SEC) as nat,
                standing_duration: (DEFAULT_STANDING_SECS * NANOS_PER_SEC) as nat,
                running_state: RunningState::Running,
                selected_widget_block: WidgetBlock::Timer,
                timer: TimerView::started(),
            }),
            r@.wf(),
    {
        Model {
            state: State::Sitting,
            timer_state: TimerState::InProgress,
            sitting_duration: Duration::from_secs(DEFAULT_SITTING_SECS),
            standing_duration: Duration::from_secs(DEFAULT_STANDING_SECS),
            running_state: RunningState::Running,
            selected_widget_block: WidgetBlock::Timer,
            timer: Timer::default(),
        }
    }
}

impl Model {
    /// The length of the interval being timed.
    pub fn active_duration(&self) -> (r: Duration)
        ensures
            r@ == self@.active_duration(),
    {
        match self.state {
            State::Sitting => self.sitting_duration,
            State::Standing => self.standing_duration,
        }
    }

    /// What is left of the running interval when the timer shows `elapsed`.
    pub fn time_left(&self, elapsed: Duration) -> (r: Duration)
        ensures
            r@ == saturating_sub_spec(self@.active_duration(), elapsed@),
    {
        self.active_duration().saturating_sub(elapsed)
    }
}

/// Applies one command. A finished interval yields the reminder for the
/// interval that begins; no other command yields one. Increase and Decrease
/// act only on a focused settings control, Reset and Next only on the focused
/// timer; elsewhere they change nothing. Every restart of the timer leaves it
/// running, as `TimerView::started` says.
pub fn update(model: &mut Model, message: Message) -> (r: Option<Notice>)
    ensures
        exists|live: nat|
            live <= max_nanos() && final(model)@ == #[trigger] old(model)@.step(message, live),
        old(model)@.announces(message, r),
        old(model)@.wf() ==> final(model)@.wf(),
{
    let ghost before = model@;
    let ghost mut live: nat = 0;
    let r = match message {
        Message::Quit => {
            model.running_state = RunningState::Done;
            None
        },
        Message::Increase => {
            match model.selected_widget_block {
                WidgetBlock::SittingSettings => {
                    model.sitting_duration = increase(model.sitting_duration);
                },
                WidgetBlock::StandingSettings => {
                    model.standing_duration = increase(model.standing_duration);
                },
                WidgetBlock::Timer => {},
            }
            None
        },
        Message::Decrease => {
            match model.selected_widget_block {
                WidgetBlock::SittingSettings => {
                    model.sitting_duration = decrease(model.sitting_duration);
                },
                WidgetBlock::StandingSettings => {
                    model.standing_duration = decrease(model.standing_duration);
                },
                WidgetBlock::Timer => {},
            }
            None
        },
        Message::Pause => {
            model.timer_state = TimerState::Paused;
            model.timer.pause();
            proof {
                live = choose|l: nat| l <= max_nanos() && model.timer@ == before.timer.pause_at(l);
            }
            None
        },
        Message::Resume => {
            model.timer_state = TimerState::InProgress;
            model.timer.resume();
            None
        },
        Message::NavigateForward => {
            model.selected_widget_block = match model.selected_widget_block {
                WidgetBlock::Timer => WidgetBlock::SittingSettings,
                WidgetBlock::SittingSettings => WidgetBlock::StandingSettings,
                WidgetBlock::StandingSettings => WidgetBlock::Timer,
            };
            None
        },
        Message::NavigateBackward => {
            model.selected_widget_block = match model.selected_widget_block {
                WidgetBlock::Timer => WidgetBlock::StandingSettings,
                WidgetBlock::SittingSettings => WidgetBlock::Timer,
                WidgetBlock::StandingSettings => WidgetBlock::SittingSettings,
            };
            None
        },
        Message::Next => {
            if model.selected_widget_block == WidgetBlock::Timer {
                model.timer.reset_time();
                model.state = flip(model.state);
            }
            None
        },
        Message::Reset => {
            if model.selected_widget_block == WidgetBlock::Timer {
                model.timer.reset_time();
            }
            None
        },
        Message::TimerFinished => {
            model.timer.reset_time();
            model.state = flip(model.state);
            match model.state {
                State::Sitting => Some(Notice::Sit(model.sitting_duration)),
                State::Standing => Some(Notice::Stand(model.standing_duration)),
            }
        },
    };
    assert(model@ == before.step(message, live));
    r
}

/// The command that a key press stands for, if any.
pub fn handle_key(model: &Model, key: Key) -> (r: Option<Message>)
    ensures
        r == model@.command_for(key),
{
    match key {
        Key::Char(c) => {
            if c == 'q' || c == 'Q' {
                Some(Message::Quit)
            } else if c == ' ' {
                if model.timer_state == TimerState::Paused {
                    Some(Message::Resume)
                } else {
                    Some(Message::Pause)
                }
            } else if c == 'h' || c == 'H' {
                if model.selected_widget_block == WidgetBlock::Timer {
                    Some(Message::Reset)
                } else {
                    Some(Message::Decrease)
                }
            } else if c == 'l' || c == 'L' {
                if model.selected_widget_block == WidgetBlock::Timer {
                    Some(Message::Next)
                } else {
                    Some(Message::Increase)
                }
            } else {
                None
            }
        },
        Key::Tab => Some(Message::NavigateForward),
        Key::BackTab => Some(Message::NavigateBackward),
        Key::Other => None,
    }
}

/// The tick check for a timer that shows `elapsed`.
pub fn check_timer(model: &Model, elapsed: Duration) -> (r: Option<Message>)
    ensures
        r == model@.tick(elapsed@),
{
    if model.timer_state == TimerState::InProgress && elapsed.longer_than(
        &model.active_duration(),
    ) {
        Some(Message::TimerFinished)
    } else {
        None
    }
}

/// The tick check on the timer as it reads now.
pub fn handle_async(model: &Model) -> (r: Option<Message>)
    ensures
        exists|live: nat|
            live <= max_nanos() && r == model@.tick(#[trigger] model@.timer.elapsed_at(live)),
{
    let elapsed = model.timer.elapsed();
    let r = check_timer(model, elapsed);
    proof {
        let live = choose|l: nat| l <= max_nanos() && elapsed@ == model@.timer.elapsed_at(l);
        assert(r == model@.tick(model@.timer.elapsed_at(live)));
    }
    r
}

/// A setting after `n` Increases.
pub open spec fn increased_times(d: nat, n: nat) -> nat
    decreases n,
{
    if n == 0 {
        d
    } else {
        increased(increased_times(d, (n - 1) as nat))
    }
}

/// A setting after `n` Decreases.
pub open spec fn decreased_times(d: nat, n: nat) -> nat
    decreases n,
{
    if n == 0 {
        d
    } else {
        decreased(decreased_times(d, (n - 1) as nat))
    }
}

/// Whatever a setting held, it lies within the bounds once clamped.
pub proof fn lemma_clamp_in_bounds(d: nat)
    ensures
        in_bounds(clamp_spec(d)),
{
}

/// With a settings control focused whose value is at least one step below the
/// upper bound, an Increase followed by a Decrease leaves the whole state as
/// it was.
pub proof fn lemma_increase_then_decrease(v: ModelView, live1: nat, live2: nat)
    requires
        v.wf(),
        v.selected_widget_block == WidgetBlock::SittingSettings ==> v.sitting_duration
            + step_duration() <= max_duration(),
        v.selected_widget_block == WidgetBlock::StandingSettings ==> v.standing_duration
            + step_duration() <= max_duration(),
    ensures
        v.step(Message::Increase, live1).step(Message::Decrease, live2) == v,
{
}

/// With a settings control focused whose value is at least one step above the
/// lower bound, a Decrease followed by an Increase leaves the whole state as
/// it was.
pub proof fn lemma_decrease_then_increase(v: ModelView, live1: nat, live2: nat)
    requires
        v.wf(),
        v.selected_widget_block == WidgetBlock::SittingSettings ==> min_duration()
            + step_duration() <= v.sitting_duration,
        v.selected_widget_block == WidgetBlock::StandingSettings ==> min_duration()
            + step_duration() <= v.standing_duration,
    ensures
        v.step(Message::Decrease, live1).step(Message::Increase, live2) == v,
{
}

/// Repeated Increases raise a setting one step at a time until it reaches the
/// upper bound, where it stays: it never goes past it.
pub proof fn lemma_repeated_increase(d: nat, n: nat)
    requires
        in_bounds(d),
    ensures
        increased_times(d, n) == if d + n * step_duration() > max_duration() {
            max_duration()
        } else {
            d + n * step_duration()
        },
        increased_times(d, n) <= max_duration(),
    decreases n,
{
    if n > 0 {
        lemma_repeated_increase(d, (n - 1) as nat);
        assert(n * step_duration() == (n - 1) * step_duration() + step_duration())
            by (nonlinear_arith);
    }
}

/// Repeated Decreases lower a setting one step at a time until it reaches the
/// lower bound, where it stays: it never goes below it.
pub proof fn lemma_repeated_decrease(d: nat, n: nat)
    requires
        in_bounds(d),
    ensures
        decreased_times(d, n) == if d < min_duration() + n * step_duration() {
            min_duration()
        } else {
            (d - n * step_duration()) as nat
        },
        decreased_times(d, n) >= min_duration(),
    decreases n,
{
    if n > 0 {
        lemma_repeated_decrease(d, (n - 1) as nat);
        assert(n * step_duration() == (n - 1) * step_duration() + step_duration())
            by (nonlinear_arith);
    }
}

/// Three forward moves of the focus come back to where they started, and a
/// backward move undoes a forward one, and the other way round.
pub proof fn lemma_navigation_cycle(v: ModelView, live1: nat, live2: nat, live3: nat)
    ensures
        v.step(Message::NavigateForward, live1).step(Message::NavigateForward, live2).step(
            Message::NavigateForward,
            live3,
        ) == v,
        v.step(Message::NavigateForward, live1).step(Message::NavigateBackward, live2) == v,
        v.step(Message::NavigateBackward, live1).step(Message::NavigateForward, live2) == v,
{
}

} // verus!
