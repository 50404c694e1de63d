use timeknight::approx_instant::StoredTime;
use timeknight::clock::Now;
use timeknight::error::Error;
use timeknight::state::Action;
use timeknight::state::App;
use timeknight::state::CompletedTask;
use timeknight::state::InputMode;
use timeknight::state::Task;
use timeknight::state::TaskRecord;
use timeknight::timer::Stopwatch;
use timeknight::timer::TimerRecord;

const MS: i64 = 1_000_000;
const SEC: u64 = 1_000_000_000;
const T0: u64 = 1_700_000_000 * SEC;

/// Clocks `ms` milliseconds after the start of a simulated run.
fn at(ms: i64) -> Now {
    Now { monotonic: ms * MS, wall: T0 + (ms as u64) * 1_000_000 }
}

fn time(secs: i64, nanos: i64) -> StoredTime {
    StoredTime { secs, nanos }
}

fn three_tasks() -> App {
    let mut app = App::default();
    app.add_task_at("alpha", at(0)).unwrap();
    app.add_task_at("beta", at(0)).unwrap();
    app.add_task_at("gamma", at(0)).unwrap();
    app
}

fn names(app: &App) -> Vec<String> {
    let mut out = Vec::new();
    for task in &app.tasks {
        out.push(task.description.clone());
    }
    out
}

#[test]
fn default_state_is_empty() {
    let app = App::default();
    assert_eq!(app.input, "");
    assert_eq!(app.input_mode, InputMode::Normal);
    assert!(app.tasks.is_empty());
    assert_eq!(app.selected_task, 0);
    assert_eq!(app.save_at(at(0)), Ok(vec![]));
    assert_eq!(app.active_elapsed_at(0), 0);
}

#[test]
fn add_toggle_reset_scenario() {
    let mut app = App::default();
    let action = app.add_task_at("write paper", at(0));
    assert_eq!(app.selected_task, 0);
    assert_eq!(app.tasks.len(), 1);
    assert_eq!(app.tasks[0].description, "write paper");
    assert!(app.tasks[0].timer.is_running());
    assert_eq!(app.tasks[0].timer.elapsed_ms_at(at(0).monotonic), 0);
    assert_eq!(
        action,
        Ok(Action::Save(vec![TaskRecord {
            description: String::from("write paper"),
            timer: TimerRecord { start_time: Some(time(1_700_000_000, 0)), elapsed: time(0, 0) },
        }]))
    );

    let action = app.toggle_play_pause_selected_task_at(at(2_000));
    assert!(!app.tasks[0].timer.is_running());
    assert_eq!(app.tasks[0].timer.elapsed_ms_at(at(2_000).monotonic), 2_000);
    assert_eq!(app.tasks[0].timer.elapsed_ms_at(at(9_000).monotonic), 2_000);
    assert_eq!(
        action,
        Ok(Action::Save(vec![TaskRecord {
            description: String::from("write paper"),
            timer: TimerRecord { start_time: None, elapsed: time(2, 0) },
        }]))
    );

    let action = app.reset_selected_task_at(at(2_500));
    assert!(!app.tasks[0].timer.is_running());
    assert_eq!(app.tasks[0].timer.elapsed_ms_at(at(2_500).monotonic), 0);
    assert_eq!(app.tasks[0].timer, Stopwatch::new());
    assert_eq!(
        action,
        Ok(Action::Save(vec![TaskRecord {
            description: String::from("write paper"),
            timer: TimerRecord { start_time: None, elapsed: time(0, 0) },
        }]))
    );
}

#[test]
fn active_elapsed_sums_running_and_stopped() {
    let mut app = App::default();
    app.add_task_at("A", at(0)).unwrap();
    app.add_task_at("B", at(0)).unwrap();
    app.selected_task = 1;
    app.toggle_play_pause_selected_task_at(at(3_000)).unwrap();
    assert!(app.tasks[0].timer.is_running());
    assert!(!app.tasks[1].timer.is_running());
    assert_eq!(app.active_elapsed_at(at(5_000).monotonic), 8_000_000_000);
    assert_eq!(app.active_elapsed_at(at(6_000).monotonic), 9_000_000_000);
}

#[test]
fn active_elapsed_saturates() {
    let mut app = App::default();
    app.add_task_at("A", Now { monotonic: i64::MIN, wall: T0 }).unwrap();
    app.add_task_at("B", Now { monotonic: i64::MIN, wall: T0 }).unwrap();
    assert_eq!(app.active_elapsed_at(i64::MAX), u64::MAX);
}

#[test]
fn add_task_appends_and_leaves_editing() {
    let mut app = three_tasks();
    app.input_mode = InputMode::Editing;
    app.selected_task = 1;
    let action = app.add_task_at("delta", at(10));
    assert!(matches!(action, Ok(Action::Save(ref records)) if records.len() == 4));
    assert_eq!(names(&app), ["alpha", "beta", "gamma", "delta"]);
    assert_eq!(app.selected_task, 1);
    assert_eq!(app.input_mode, InputMode::Normal);
    assert_eq!(app.tasks[3].timer, Stopwatch::start_new_at(10 * MS));
}

#[test]
fn add_task_refuses_an_empty_description() {
    let mut app = three_tasks();
    app.input_mode = InputMode::Editing;
    let before = app.clone();
    assert_eq!(app.add_task_at("", at(10)), Err(Error::EmptyDescription));
    assert_eq!(app, before);
}

#[test]
fn delete_on_single_task_store_leaves_it_empty() {
    let mut app = App::default();
    app.add_task_at("only", at(0)).unwrap();
    assert_eq!(app.delete_selected_task_at(at(5)), Ok(Action::Save(vec![])));
    assert!(app.tasks.is_empty());
    assert_eq!(app.selected_task, 0);
}

#[test]
fn delete_removes_the_selected_task_only() {
    let mut app = three_tasks();
    app.selected_task = 1;
    let action = app.delete_selected_task_at(at(5));
    assert!(matches!(action, Ok(Action::Save(ref records)) if records.len() == 2));
    assert_eq!(names(&app), ["alpha", "gamma"]);
    assert_eq!(app.selected_task, 1);
}

#[test]
fn delete_of_the_last_task_moves_the_selection_up() {
    let mut app = three_tasks();
    app.selected_task = 2;
    app.delete_selected_task_at(at(5)).unwrap();
    assert_eq!(names(&app), ["alpha", "beta"]);
    assert_eq!(app.selected_task, 1);
    app.delete_selected_task_at(at(6)).unwrap();
    assert_eq!(app.selected_task, 0);
    app.delete_selected_task_at(at(7)).unwrap();
    assert_eq!(app.selected_task, 0);
    assert!(app.tasks.is_empty());
}

#[test]
fn delete_without_a_selected_task_is_an_invariant_violation() {
    let mut app = App::default();
    assert_eq!(app.delete_selected_task_at(at(0)), Err(Error::InvariantViolation));
    assert_eq!(app, App::default());

    let mut app = three_tasks();
    app.selected_task = 3;
    let before = app.clone();
    assert_eq!(app.delete_selected_task_at(at(0)), Err(Error::InvariantViolation));
    assert_eq!(app, before);
}

#[test]
fn toggle_in_an_empty_list_does_nothing() {
    let mut app = App::default();
    assert_eq!(app.toggle_play_pause_selected_task_at(at(0)), Ok(Action::Nothing));
    assert_eq!(app, App::default());
    assert_eq!(app.reset_selected_task_at(at(0)), Ok(Action::Nothing));
    assert_eq!(app, App::default());
}

#[test]
fn toggle_past_the_end_is_an_invariant_violation() {
    let mut app = three_tasks();
    app.selected_task = 7;
    let before = app.clone();
    assert_eq!(app.toggle_play_pause_selected_task_at(at(0)), Err(Error::InvariantViolation));
    assert_eq!(app.reset_selected_task_at(at(0)), Err(Error::InvariantViolation));
    assert_eq!(app, before);
}

#[test]
fn toggle_pauses_and_resumes_the_selected_task_only() {
    let mut app = three_tasks();
    app.selected_task = 1;
    app.toggle_play_pause_selected_task_at(at(1_000)).unwrap();
    assert!(app.tasks[0].timer.is_running());
    assert!(!app.tasks[1].timer.is_running());
    assert!(app.tasks[2].timer.is_running());
    app.toggle_play_pause_selected_task_at(at(4_000)).unwrap();
    assert!(app.tasks[1].timer.is_running());
    assert_eq!(app.tasks[1].timer.elapsed_ms_at(at(4_500).monotonic), 1_500);
    assert_eq!(app.tasks[0].timer.elapsed_ms_at(at(4_500).monotonic), 4_500);
    assert_eq!(names(&app), ["alpha", "beta", "gamma"]);
}

#[test]
fn move_selection_stops_at_both_ends() {
    let mut app = three_tasks();
    app.move_up();
    assert_eq!(app.selected_task, 0);
    app.move_down();
    assert_eq!(app.selected_task, 1);
    app.move_down();
    assert_eq!(app.selected_task, 2);
    let at_the_end = app.clone();
    app.move_down();
    assert_eq!(app, at_the_end);
    app.move_up();
    assert_eq!(app.selected_task, 1);
    app.move_up();
    app.move_up();
    assert_eq!(app.selected_task, 0);
}

#[test]
fn move_selection_in_an_empty_list_does_nothing() {
    let mut app = App::default();
    app.move_down();
    assert_eq!(app, App::default());
    app.move_up();
    assert_eq!(app, App::default());
}

#[test]
fn move_selection_brings_a_stray_selection_back() {
    let mut app = three_tasks();
    app.selected_task = 9;
    app.move_down();
    assert_eq!(app.selected_task, 2);
    app.selected_task = 9;
    app.move_up();
    assert_eq!(app.selected_task, 2);
    app.selected_task = usize::MAX;
    app.move_down();
    assert_eq!(app.selected_task, 2);
}

#[test]
fn complete_moves_the_task_to_the_archive() {
    let mut app = three_tasks();
    app.selected_task = 2;
    app.toggle_play_pause_selected_task_at(at(1_000)).unwrap();
    app.selected_task = 1;
    let action = app.complete_selected_task_at(at(2_500));
    assert_eq!(names(&app), ["alpha", "gamma"]);
    assert_eq!(app.selected_task, 1);
    let done = CompletedTask {
        description: String::from("beta"),
        elapsed: time(2, 500_000_000),
        completed_at: time(1_700_000_002, 500_000_000),
    };
    let left = vec![
        TaskRecord {
            description: String::from("alpha"),
            timer: TimerRecord { start_time: Some(time(1_700_000_000, 0)), elapsed: time(0, 0) },
        },
        TaskRecord {
            description: String::from("gamma"),
            timer: TimerRecord { start_time: None, elapsed: time(1, 0) },
        },
    ];
    assert_eq!(action, Ok(Action::Archive(done, left)));
}

#[test]
fn complete_without_a_selected_task_does_nothing() {
    let mut app = App::default();
    assert_eq!(app.complete_selected_task_at(at(0)), Ok(Action::Nothing));
    assert_eq!(app, App::default());
    let mut app = three_tasks();
    app.selected_task = 3;
    let before = app.clone();
    assert_eq!(app.complete_selected_task_at(at(0)), Ok(Action::Nothing));
    assert_eq!(app, before);
}

#[test]
fn complete_of_the_last_task_keeps_the_selection_on_the_list() {
    let mut app = three_tasks();
    app.selected_task = 2;
    app.complete_selected_task_at(at(10)).unwrap();
    assert_eq!(app.selected_task, 1);
    app.complete_selected_task_at(at(10)).unwrap();
    app.complete_selected_task_at(at(10)).unwrap();
    assert!(app.tasks.is_empty());
    assert_eq!(app.selected_task, 0);
    assert_eq!(app.complete_selected_task_at(at(10)), Ok(Action::Nothing));
}

#[test]
fn complete_fails_whole_where_the_rest_cannot_be_saved() {
    let mut app = three_tasks();
    app.selected_task = 0;
    let broken_clock = Now { monotonic: 10_000 * MS, wall: 3 * SEC };
    let before = app.clone();
    assert_eq!(app.complete_selected_task_at(broken_clock), Err(Error::PersistenceFailure));
    assert_eq!(app, before);
}

#[test]
fn a_change_that_cannot_be_saved_is_made_all_the_same() {
    let broken_clock = Now { monotonic: 10_000 * MS, wall: 3 * SEC };
    let mut app = three_tasks();
    assert_eq!(app.save_at(broken_clock), Err(Error::PersistenceFailure));

    app.selected_task = 1;
    assert_eq!(app.delete_selected_task_at(broken_clock), Err(Error::PersistenceFailure));
    assert_eq!(names(&app), ["alpha", "gamma"]);

    assert_eq!(
        app.toggle_play_pause_selected_task_at(broken_clock),
        Err(Error::PersistenceFailure)
    );
    assert!(!app.tasks[1].timer.is_running());
    assert_eq!(app.tasks[1].timer.elapsed_ms_at(0), 10_000);

    assert_eq!(app.reset_selected_task_at(broken_clock), Err(Error::PersistenceFailure));
    assert_eq!(app.tasks[1].timer, Stopwatch::new());

    assert_eq!(app.add_task_at("delta", broken_clock), Err(Error::PersistenceFailure));
    assert_eq!(names(&app), ["alpha", "gamma", "delta"]);
}

#[test]
fn save_writes_every_task_in_order() {
    let mut app = three_tasks();
    app.selected_task = 1;
    app.toggle_play_pause_selected_task_at(at(1_250)).unwrap();
    let records = app.save_at(at(3_000)).unwrap();
    assert_eq!(
        records,
        vec![
            TaskRecord {
                description: String::from("alpha"),
                timer: TimerRecord { start_time: Some(time(1_700_000_000, 0)), elapsed: time(0, 0) },
            },
            TaskRecord {
                description: String::from("beta"),
                timer: TimerRecord { start_time: None, elapsed: time(1, 250_000_000) },
            },
            TaskRecord {
                description: String::from("gamma"),
                timer: TimerRecord { start_time: Some(time(1_700_000_000, 0)), elapsed: time(0, 0) },
            },
        ]
    );
}

#[test]
fn load_restores_what_save_wrote() {
    let mut app = three_tasks();
    app.selected_task = 1;
    app.toggle_play_pause_selected_task_at(at(1_250)).unwrap();
    let records = app.save_at(at(3_000)).unwrap();
    let later = Now { monotonic: 7 * MS, wall: T0 + 10 * SEC };
    let (loaded, malformed) = App::load_at(&records, later);
    assert!(malformed.is_empty());
    assert_eq!(names(&loaded), ["alpha", "beta", "gamma"]);
    assert_eq!(loaded.selected_task, 0);
    assert_eq!(loaded.input_mode, InputMode::Normal);
    assert_eq!(loaded.input, "");
    assert_eq!(loaded.tasks[0].timer.elapsed_ms_at(later.monotonic), 10_000);
    assert_eq!(loaded.tasks[1].timer.elapsed_ms_at(later.monotonic), 1_250);
    assert!(!loaded.tasks[1].timer.is_running());
    assert_eq!(loaded.tasks[2].timer.elapsed_ms_at(later.monotonic), 10_000);
    assert_eq!(loaded.active_elapsed_at(later.monotonic), 21_250_000_000);
}

#[test]
fn load_of_nothing_is_the_default_state() {
    let (loaded, malformed) = App::load_at(&vec![], at(0));
    assert_eq!(loaded, App::default());
    assert!(malformed.is_empty());
}

#[test]
fn load_leaves_out_malformed_records_only() {
    let good = |name: &str| TaskRecord {
        description: String::from(name),
        timer: TimerRecord { start_time: None, elapsed: time(1, 0) },
    };
    let records = vec![
        TaskRecord {
            description: String::from("negative"),
            timer: TimerRecord { start_time: None, elapsed: time(-1, 0) },
        },
        good("first"),
        TaskRecord {
            description: String::from("future"),
            timer: TimerRecord { start_time: Some(time(1_800_000_000, 0)), elapsed: time(0, 0) },
        },
        good("second"),
        TaskRecord {
            description: String::from("nanos"),
            timer: TimerRecord { start_time: None, elapsed: time(0, 1_000_000_000) },
        },
    ];
    let (loaded, malformed) = App::load_at(&records, at(0));
    assert_eq!(names(&loaded), ["first", "second"]);
    assert_eq!(malformed, [0, 2, 4]);
    assert_eq!(loaded.selected_task, 0);
    assert_eq!(Task::decode_at(&records[0], at(0)), Err(Error::MalformedTimer));
    assert_eq!(Task::decode_at(&records[2], at(0)), Err(Error::MalformedTimer));
    assert_eq!(
        Task::decode_at(&records[1], at(0)),
        Ok(Task { description: String::from("first"), timer: loaded.tasks[0].timer })
    );
}

#[test]
fn task_complete_stops_the_stopwatch_and_reports_the_total() {
    let mut task = Task::start_new_at("essay", 0);
    let done = task.complete_at(at(90_000));
    assert!(!task.timer.is_running());
    assert_eq!(task.timer.elapsed_ms_at(at(95_000).monotonic), 90_000);
    assert_eq!(done.description, "essay");
    assert_eq!(done.elapsed, time(90, 0));
    assert_eq!(done.completed_at, time(1_700_000_090, 0));
    let again = task.complete_at(at(95_000));
    assert_eq!(again.elapsed, time(90, 0));
}

#[test]
fn archive_key_tells_completions_of_one_name_apart() {
    let first = CompletedTask {
        description: String::from("essay"),
        elapsed: time(90, 0),
        completed_at: time(1_700_000_090, 0),
    };
    let second = CompletedTask {
        description: String::from("essay"),
        elapsed: time(90, 0),
        completed_at: time(1_700_000_090, 1),
    };
    assert_eq!(first.key(), "essay-1700000090-0");
    assert_eq!(second.key(), "essay-1700000090-1");
    assert_ne!(first.key(), second.key());
    let odd = CompletedTask {
        description: String::from(""),
        elapsed: time(0, 0),
        completed_at: time(-4, -9),
    };
    assert_eq!(odd.key(), "-0-0");
}

#[test]
fn selection_stays_on_the_list_through_every_operation() {
    let mut app = App::default();
    let valid = |app: &App| app.selected_task == 0 || app.selected_task < app.tasks.len();
    let mut step: i64 = 0;
    for round in 0..40 {
        step += 10;
        match round % 8 {
            0 | 1 | 2 => {
                let _ = app.add_task_at("task", at(step));
            }
            3 => app.move_down(),
            4 => {
                let _ = app.toggle_play_pause_selected_task_at(at(step));
            }
            5 => {
                app.move_down();
                let _ = app.delete_selected_task_at(at(step));
            }
            6 => {
                let _ = app.complete_selected_task_at(at(step));
            }
            _ => {
                app.move_up();
                let _ = app.reset_selected_task_at(at(step));
            }
        }
        assert!(valid(&app));
    }
    while !app.tasks.is_empty() {
        app.move_down();
        app.delete_selected_task_at(at(step)).unwrap();
        assert!(valid(&app));
    }
    assert_eq!(app.selected_task, 0);
}
