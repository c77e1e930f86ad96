use yatl::duration_to_human_string;
use yatl::Duration;
use yatl::Instant;
use yatl::Timer;
use yatl::TimerError;

#[test]
fn format_nanoseconds() {
    assert_eq!("12ns", duration_to_human_string(&Duration::from_nanos(12)));
    assert_eq!("0ns", duration_to_human_string(&Duration::from_nanos(0)));
    assert_eq!("999ns", duration_to_human_string(&Duration::from_nanos(999)));
}

#[test]
fn format_microseconds() {
    assert_eq!("13us", duration_to_human_string(&Duration::from_nanos(13674)));
    assert_eq!("999us", duration_to_human_string(&Duration::from_nanos(999999)));
}

#[test]
fn format_milliseconds() {
    assert_eq!("45ms", duration_to_human_string(&Duration::from_nanos(45674432)));
    assert_eq!("1ms", duration_to_human_string(&Duration::from_nanos(1000000)));
    assert_eq!("999ms", duration_to_human_string(&Duration::from_nanos(999999999)));
}

#[test]
fn format_seconds() {
    assert_eq!("2s", duration_to_human_string(&Duration::from_nanos(2746859738)));
    assert_eq!("1s", duration_to_human_string(&Duration::from_nanos(1000000000)));
    assert_eq!("59s", duration_to_human_string(&Duration::from_nanos(59999999999)));
}

#[test]
fn format_minutes() {
    assert_eq!("13m", duration_to_human_string(&Duration::from_nanos(780897563728)));
    assert_eq!("1m", duration_to_human_string(&Duration::from_nanos(60000000001)));
    let expected = format!("{}m", u128::MAX / 1000000000 / 60);
    assert_eq!(expected, duration_to_human_string(&Duration::from_nanos(u128::MAX)));
}

#[test]
fn format_boundary_rollover() {
    assert_eq!("1us", duration_to_human_string(&Duration::from_nanos(1000)));
    assert_eq!("1m", duration_to_human_string(&Duration::from_nanos(60000000000)));
}

#[test]
fn duration_nanos_round_trip() {
    assert_eq!(12, Duration::from_nanos(12).as_nanos());
    assert_eq!(0, Duration::from_nanos(0).as_nanos());
    assert_eq!(100, Instant::from_nanos(100).as_nanos());
}

#[test]
fn not_started_fails() {
    let mut timer = Timer::new();
    assert_eq!(Err(TimerError::NotStarted), timer.start_time());
    assert_eq!(Err(TimerError::NotStarted), timer.lap());
    assert_eq!(Err(TimerError::NotStarted), timer.lap_at(Instant::from_nanos(5)));
    assert!(timer.laps().is_empty());
}

#[test]
fn start_twice_fails_and_keeps_first_instant() {
    let mut timer = Timer::new();
    let first = Instant::from_nanos(100);
    assert_eq!(Ok(()), timer.start_at(first));
    assert_eq!(Err(TimerError::AlreadyStarted), timer.start_at(Instant::from_nanos(200)));
    assert_eq!(Ok(first), timer.start_time());
}

#[test]
fn start_clock_twice_fails() {
    let mut timer = Timer::new();
    assert_eq!(Ok(()), timer.start());
    assert_eq!(Err(TimerError::AlreadyStarted), timer.start());
    assert!(timer.start_time().is_ok());
}

#[test]
fn start_time_is_stable() {
    let mut timer = Timer::new();
    assert_eq!(Ok(()), timer.start_at(Instant::from_nanos(7)));
    let first_read = timer.start_time();
    let second_read = timer.start_time();
    assert_eq!(first_read, second_read);
    assert_eq!(Ok(Instant::from_nanos(7)), first_read);
}

#[test]
fn laps_measure_from_start_in_call_order() {
    let mut timer = Timer::new();
    assert_eq!(Ok(()), timer.start_at(Instant::from_nanos(100)));
    let first = timer.lap_at(Instant::from_nanos(112)).unwrap();
    let second = timer.lap_at(Instant::from_nanos(212)).unwrap();
    assert_eq!(12, first.as_nanos());
    assert_eq!(112, second.as_nanos());
    assert!(second.as_nanos() >= first.as_nanos());
    assert_eq!(vec![first, second], timer.laps());
}

#[test]
fn lap_before_start_instant_is_clock_error() {
    let mut timer = Timer::new();
    assert_eq!(Ok(()), timer.start_at(Instant::from_nanos(100)));
    assert_eq!(Err(TimerError::InternalClockError), timer.lap_at(Instant::from_nanos(50)));
    assert!(timer.laps().is_empty());
    assert_eq!(Ok(Instant::from_nanos(100)), timer.start_time());
}

#[test]
fn laps_returns_a_snapshot() {
    let mut timer = Timer::new();
    assert_eq!(Ok(()), timer.start_at(Instant::from_nanos(0)));
    timer.lap_at(Instant::from_nanos(10)).unwrap();
    let snapshot = timer.laps();
    assert_eq!(1, snapshot.len());
    timer.lap_at(Instant::from_nanos(20)).unwrap();
    assert_eq!(1, snapshot.len());
    assert_eq!(10, snapshot[0].as_nanos());
    assert_eq!(2, timer.laps().len());
}

#[test]
fn mutating_a_snapshot_leaves_the_timer_alone() {
    let mut timer = Timer::new();
    assert_eq!(Ok(()), timer.start_at(Instant::from_nanos(0)));
    timer.lap_at(Instant::from_nanos(10)).unwrap();
    let mut snapshot = timer.laps();
    snapshot.push(Duration::from_nanos(999));
    assert_eq!(1, timer.laps().len());
    assert_eq!(10, timer.laps()[0].as_nanos());
}

#[test]
fn laps_formatted_matches_laps() {
    let mut timer = Timer::new();
    assert_eq!(Ok(()), timer.start_at(Instant::from_nanos(0)));
    timer.lap_at(Instant::from_nanos(12)).unwrap();
    timer.lap_at(Instant::from_nanos(13674)).unwrap();
    timer.lap_at(Instant::from_nanos(780897563728)).unwrap();
    let formatted = timer.laps_formatted();
    assert_eq!(vec!["12ns", "13us", "13m"], formatted);
    let laps = timer.laps();
    assert_eq!(laps.len(), formatted.len());
    for (lap, text) in laps.iter().zip(formatted.iter()) {
        assert_eq!(&duration_to_human_string(lap), text);
    }
}

#[test]
fn real_clock_laps_grow_from_the_same_start() {
    let mut timer = Timer::new();
    assert_eq!(Ok(()), timer.start());
    let first = timer.lap().unwrap();
    let second = timer.lap().unwrap();
    assert!(second.as_nanos() >= first.as_nanos());
    let laps = timer.laps();
    assert_eq!(2, laps.len());
    assert_eq!(first, laps[0]);
    assert_eq!(second, laps[1]);
}
