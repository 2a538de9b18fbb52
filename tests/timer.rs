use getup::{Duration, Timer, TimerState};

fn spin_for(nanos: u128) {
    let start = std::time::Instant::now();
    while start.elapsed().as_nanos() < nanos {}
}

#[test]
fn test_new_timer() {
    let timer = Timer::default();

    assert!(timer.elapsed().as_millis() < 100);
    assert_eq!(timer.state(), TimerState::InProgress);
}

#[test]
fn reset_restarts_from_zero_and_runs() {
    let mut timer = Timer::default();
    timer.pause_after(Duration::from_secs(90));
    assert_eq!(timer.state(), TimerState::Paused);

    timer.reset_time();

    assert_eq!(timer.state(), TimerState::InProgress);
    assert!(timer.elapsed().as_millis() < 100);
}

#[test]
fn running_timer_counts_the_clock() {
    let timer = Timer::default();
    spin_for(3_000_000);
    assert!(timer.elapsed().as_nanos() >= 3_000_000);
}

#[test]
fn paused_timer_holds_still() {
    let mut timer = Timer::default();
    spin_for(1_000_000);
    timer.pause();
    let first = timer.elapsed();
    assert!(first.as_nanos() >= 1_000_000);
    spin_for(3_000_000);
    assert_eq!(timer.elapsed(), first);
}

#[test]
fn pause_twice_banks_nothing_more() {
    let mut timer = Timer::default();
    timer.pause();
    let first = timer.elapsed();
    spin_for(2_000_000);
    timer.pause();
    assert_eq!(timer.elapsed(), first);
}

#[test]
fn pause_then_resume_keeps_elapsed() {
    let mut timer = Timer::default();
    spin_for(2_000_000);
    let before = timer.elapsed();
    timer.pause();
    timer.resume();
    let after = timer.elapsed();
    assert!(after.as_nanos() >= before.as_nanos());
    assert!(after.as_nanos() - before.as_nanos() < 50_000_000);
}

#[test]
fn resume_on_running_timer_keeps_the_segment() {
    let mut timer = Timer::default();
    spin_for(3_000_000);
    timer.resume();
    assert!(timer.elapsed().as_nanos() >= 3_000_000);
}

#[test]
fn pause_after_banks_the_given_segment() {
    let mut timer = Timer::default();
    timer.pause_after(Duration::from_secs(7));
    assert_eq!(timer.elapsed(), Duration::from_secs(7));
    timer.resume();
    assert_eq!(timer.elapsed_after(Duration::from_secs(5)), Duration::from_secs(12));
    timer.pause_after(Duration::from_secs(1));
    assert_eq!(timer.elapsed_after(Duration::from_secs(100)), Duration::from_secs(8));
}

#[test]
fn elapsed_after_saturates() {
    let mut timer = Timer::default();
    timer.pause_after(Duration::from_nanos(u64::MAX - 5));
    timer.resume();
    assert_eq!(timer.elapsed_after(Duration::from_nanos(10)), Duration::from_nanos(u64::MAX));
}
