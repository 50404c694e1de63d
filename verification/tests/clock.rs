use timeknight::clock::moment_from;
use timeknight::clock::reading_after;
use timeknight::clock::wall_from;
use timeknight::clock::Clock;
use timeknight::clock::Now;
use timeknight::keys::Key;
use timeknight::state::Action;
use timeknight::state::App;
use timeknight::state::Task;
use timeknight::timer::Stopwatch;

#[test]
fn monotonic_clock_starts_near_zero_and_does_not_go_back() {
    let mut clock = Clock::new();
    assert_eq!(clock.last().monotonic, 0);
    let mut last = clock.now().monotonic;
    assert!(last >= 0);
    assert!(last < 60_000_000_000);
    for _ in 0..1_000 {
        let next = clock.now();
        assert!(next.monotonic >= last);
        assert_eq!(clock.last(), next);
        last = next.monotonic;
    }
}

#[test]
fn wall_clock_reads_a_time_after_2020() {
    let mut clock = Clock::new();
    assert!(clock.last().wall > 1_577_836_800_000_000_000);
    let now = clock.now();
    assert!(now.wall > 1_577_836_800_000_000_000);
    assert!(now.monotonic >= 0);
}

#[test]
fn stopwatch_on_a_real_clock() {
    let mut clock = Clock::new();
    let mut sw = Stopwatch::start_new(&mut clock);
    assert!(sw.is_running());
    assert_eq!(sw, Stopwatch::start_new_at(clock.last().monotonic));
    let first = sw.elapsed(&mut clock);
    assert_eq!(first, sw.elapsed_at(clock.last().monotonic));
    let second = sw.elapsed(&mut clock);
    assert!(second >= first);
    let ms = sw.elapsed_ms(&mut clock);
    assert_eq!(ms, sw.elapsed_ms_at(clock.last().monotonic));
    assert!(ms >= 0);
    let text = sw.display(&mut clock);
    assert_eq!(text, sw.display_at(clock.last().monotonic));
    assert!(text.ends_with("ms"));

    let mut by_hand = sw;
    sw.stop(&mut clock);
    by_hand.stop_at(clock.last().monotonic);
    assert_eq!(sw, by_hand);
    assert!(!sw.is_running());
    let banked = sw.elapsed(&mut clock);
    assert!(banked >= second);
    assert_eq!(sw.elapsed(&mut clock), banked);

    sw.start(&mut clock);
    by_hand.start_at(clock.last().monotonic);
    assert_eq!(sw, by_hand);
    assert!(sw.is_running());
    assert!(sw.elapsed(&mut clock) >= banked);

    sw.restart(&mut clock);
    assert_eq!(sw, Stopwatch::start_new_at(clock.last().monotonic));
    assert!(sw.elapsed(&mut clock) < 60_000_000_000);
}

#[test]
fn stopwatch_round_trips_on_a_real_clock() {
    let mut clock = Clock::new();
    let sw = Stopwatch::start_new(&mut clock);
    let record = sw.encode(&mut clock).unwrap();
    assert_eq!(Ok(record), sw.encode_at(clock.last()));
    assert!(record.start_time.is_some());
    assert_eq!(record.elapsed.secs, 0);
    assert_eq!(record.elapsed.nanos, 0);
    let mut another = Clock::new();
    let back = Stopwatch::decode(&record, &mut another).unwrap();
    assert_eq!(Ok(back), Stopwatch::decode_at(&record, another.last()));
    assert!(back.is_running());
    assert!(back.elapsed_ms(&mut another) < 60_000);
    let stopped = Stopwatch::new();
    let record = stopped.encode(&mut clock).unwrap();
    assert!(record.start_time.is_none());
    assert_eq!(Stopwatch::decode(&record, &mut another), Ok(stopped));
}

#[test]
fn task_list_on_a_real_clock() {
    let mut clock = Clock::new();
    let mut app = App::default();
    let mut by_hand = App::default();
    let action = app.add_task("write paper", &mut clock);
    assert_eq!(action, by_hand.add_task_at("write paper", clock.last()));
    assert_eq!(app, by_hand);
    assert!(matches!(action, Ok(Action::Save(ref records)) if records.len() == 1));
    assert!(app.tasks[0].timer.is_running());

    let action = app.toggle_play_pause_selected_task(&mut clock);
    assert_eq!(action, by_hand.toggle_play_pause_selected_task_at(clock.last()));
    assert_eq!(app, by_hand);
    assert!(!app.tasks[0].timer.is_running());

    let total = app.active_elapsed(&mut clock);
    assert_eq!(app.active_elapsed(&mut clock), total);
    assert!(total < 60_000_000_000);
    let rows = app.rows(&mut clock);
    assert_eq!(rows, app.rows_at(clock.last().monotonic));
    assert_eq!(rows.len(), 1);
    let line = app.total_time(&mut clock);
    assert_eq!(line, app.total_time_at(clock.last().monotonic));
    assert!(line.starts_with(" Total Time: "));

    let records = app.save(&mut clock).unwrap();
    assert_eq!(Ok(records.clone()), app.save_at(clock.last()));
    let mut another = Clock::new();
    let (loaded, malformed) = App::load(&records, &mut another);
    assert!(malformed.is_empty());
    assert_eq!(loaded.tasks, app.tasks);

    let action = app.reset_selected_task(&mut clock);
    assert_eq!(action, by_hand.reset_selected_task_at(clock.last()));
    assert_eq!(app.tasks[0].timer, Stopwatch::new());
    assert_eq!(app.handle_key(Key::Char('q'), &mut clock), Ok(Action::Quit));
    assert_eq!(app.handle_key(Key::Char('l'), &mut clock), by_hand.handle_key_at(Key::Char('l'), clock.last()));
    assert_eq!(app, by_hand);

    let action = app.complete_selected_task(&mut clock);
    assert_eq!(action, by_hand.complete_selected_task_at(clock.last()));
    assert!(matches!(action, Ok(Action::Archive(ref done, ref left))
        if done.description == "write paper" && left.is_empty()));
    assert!(app.tasks.is_empty());
    app.add_task("again", &mut clock).unwrap();
    let action = app.delete_selected_task(&mut clock);
    assert_eq!(action, Ok(Action::Save(vec![])));
}

#[test]
fn task_completes_on_a_real_clock() {
    let mut clock = Clock::new();
    let mut task = Task::start_new_at("essay", 0);
    let mut by_hand = task.clone();
    let done = task.complete(&mut clock);
    assert_eq!(done, by_hand.complete_at(clock.last()));
    assert_eq!(task, by_hand);
    assert!(!task.timer.is_running());
    assert_eq!(done.description, "essay");
    assert!(done.completed_at.secs > 1_577_836_800);
}

#[test]
fn monotonic_moment_is_held_to_an_i64() {
    assert_eq!(moment_from(0), 0);
    assert_eq!(moment_from(1_500_000_000), 1_500_000_000);
    assert_eq!(moment_from(i64::MAX as u128), i64::MAX);
    assert_eq!(moment_from(i64::MAX as u128 + 1), i64::MAX);
    assert_eq!(moment_from(u128::MAX), i64::MAX);
}

#[test]
fn wall_time_is_held_to_a_u64_and_is_zero_before_the_epoch() {
    assert_eq!(wall_from(None), 0);
    assert_eq!(wall_from(Some(0)), 0);
    assert_eq!(wall_from(Some(1_700_000_000_000_000_000)), 1_700_000_000_000_000_000);
    assert_eq!(wall_from(Some(u64::MAX as u128)), u64::MAX);
    assert_eq!(wall_from(Some(u64::MAX as u128 + 1)), u64::MAX);
    assert_eq!(wall_from(Some(u128::MAX)), u64::MAX);
}

#[test]
fn a_reading_never_goes_back_behind_the_last() {
    let last = Now { monotonic: 500, wall: 9_000 };
    assert_eq!(reading_after(last, 700, 9_100), Now { monotonic: 700, wall: 9_100 });
    assert_eq!(reading_after(last, 500, 9_000), Now { monotonic: 500, wall: 9_000 });
    assert_eq!(reading_after(last, 200, 8_000), Now { monotonic: 500, wall: 8_000 });
    assert_eq!(reading_after(last, i64::MIN, 0), Now { monotonic: 500, wall: 0 });
}
