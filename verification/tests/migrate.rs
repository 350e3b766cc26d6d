use mediapedia::migrate::{Migration, MigrationFailure, MigrationRunner, PlanError, Run};
use std::cell::RefCell;

fn migration(version: u64, script: &str) -> Migration {
    Migration {
        version,
        description: format!("step {}", version),
        script: script.to_string(),
    }
}

fn three() -> MigrationRunner {
    MigrationRunner::new(vec![
        migration(1, "CREATE TABLE movies (id INTEGER PRIMARY KEY)"),
        migration(2, "ALTER TABLE movies ADD COLUMN title TEXT"),
        migration(3, "CREATE INDEX movies_title ON movies (title)"),
    ])
    .unwrap()
}

#[test]
fn new_accepts_contiguous_versions() {
    let runner = three();
    assert_eq!(runner.latest(), 3);
    assert_eq!(runner.migrations().len(), 3);
    assert_eq!(runner.migrations()[1].version, 2);
    assert_eq!(runner.migrations()[1].script, "ALTER TABLE movies ADD COLUMN title TEXT");
}

#[test]
fn new_accepts_the_empty_list() {
    let runner = MigrationRunner::new(Vec::new()).unwrap();
    assert_eq!(runner.latest(), 0);
    let end = runner.run(0, |_| Err("never called".to_string()));
    assert_eq!(end.version(), 0);
    assert!(end.applied().is_empty());
    assert!(end.failure().is_none());
}

#[test]
fn new_reports_the_first_version_out_of_sequence() {
    let gap = MigrationRunner::new(vec![migration(1, "a"), migration(3, "c")]);
    assert_eq!(gap.err(), Some(PlanError::OutOfSequence { index: 1, found: 3 }));
    let from_zero = MigrationRunner::new(vec![migration(0, "a"), migration(1, "b")]);
    assert_eq!(from_zero.err(), Some(PlanError::OutOfSequence { index: 0, found: 0 }));
    let repeated = MigrationRunner::new(vec![migration(1, "a"), migration(1, "b")]);
    assert_eq!(repeated.err(), Some(PlanError::OutOfSequence { index: 1, found: 1 }));
    let descending = MigrationRunner::new(vec![
        migration(1, "a"),
        migration(2, "b"),
        migration(4, "d"),
        migration(3, "c"),
    ]);
    assert_eq!(descending.err(), Some(PlanError::OutOfSequence { index: 2, found: 4 }));
}

#[test]
fn append_files_under_the_next_version() {
    let runner = three().append("ratings".to_string(), "ALTER TABLE movies ADD rating".to_string());
    assert_eq!(runner.latest(), 4);
    assert_eq!(runner.migrations()[3], Migration {
        version: 4,
        description: "ratings".to_string(),
        script: "ALTER TABLE movies ADD rating".to_string(),
    });
    assert_eq!(runner.migrations()[..3], three().migrations()[..]);
    let first = MigrationRunner::new(Vec::new()).unwrap().append("init".to_string(), "x".to_string());
    assert_eq!(first.migrations()[0].version, 1);
}

#[test]
fn fresh_store_gets_all_three_scripts_in_sequence() {
    let runner = three();
    let schema: RefCell<Vec<String>> = RefCell::new(Vec::new());
    let end = runner.run(0, |m| {
        schema.borrow_mut().push(m.script.clone());
        Ok(())
    });
    assert_eq!(end.version(), 3);
    assert_eq!(end.applied(), &vec![1, 2, 3]);
    assert!(end.failure().is_none());
    assert_eq!(
        *schema.borrow(),
        [
            "CREATE TABLE movies (id INTEGER PRIMARY KEY)",
            "ALTER TABLE movies ADD COLUMN title TEXT",
            "CREATE INDEX movies_title ON movies (title)",
        ]
    );
    let again = runner.run(end.version(), |m| {
        schema.borrow_mut().push(m.script.clone());
        Ok(())
    });
    assert_eq!(again.version(), 3);
    assert!(again.applied().is_empty());
    assert!(again.failure().is_none());
    assert_eq!(schema.borrow().len(), 3);
}

#[test]
fn second_run_applies_nothing() {
    let runner = three();
    let first = runner.run(1, |_| Ok(()));
    assert_eq!(first.version(), 3);
    let calls = RefCell::new(0);
    let second = runner.run(first.version(), |_| {
        *calls.borrow_mut() += 1;
        Err("must not run".to_string())
    });
    assert_eq!(*calls.borrow(), 0);
    assert_eq!(second.version(), 3);
    assert!(second.applied().is_empty());
    assert!(second.failure().is_none());
}

#[test]
fn store_at_one_gets_two_then_three() {
    let runner = three();
    let order: RefCell<Vec<u64>> = RefCell::new(Vec::new());
    let end = runner.run(1, |m| {
        order.borrow_mut().push(m.version);
        Ok(())
    });
    assert_eq!(*order.borrow(), [2, 3]);
    assert_eq!(end.applied(), &vec![2, 3]);
    assert_eq!(end.version(), 3);
}

#[test]
fn failing_second_script_leaves_the_store_at_one() {
    let runner = three();
    let attempts: RefCell<Vec<u64>> = RefCell::new(Vec::new());
    let end = runner.run(1, |m| {
        attempts.borrow_mut().push(m.version);
        if m.version == 2 {
            Err("no such table".to_string())
        } else {
            Ok(())
        }
    });
    assert_eq!(end.version(), 1);
    assert!(end.applied().is_empty());
    assert_eq!(
        end.failure(),
        Some(&MigrationFailure { version: 2, reason: "no such table".to_string() })
    );
    assert_eq!(*attempts.borrow(), [2]);
}

#[test]
fn failing_last_script_keeps_the_ones_before() {
    let runner = three();
    let end = runner.run(0, |m| if m.version == 3 { Err("disk full".to_string()) } else { Ok(()) });
    assert_eq!(end.version(), 2);
    assert_eq!(end.applied(), &vec![1, 2]);
    assert_eq!(
        end.failure(),
        Some(&MigrationFailure { version: 3, reason: "disk full".to_string() })
    );
    let resumed = runner.run(end.version(), |_| Ok(()));
    assert_eq!(resumed.version(), 3);
    assert_eq!(resumed.applied(), &vec![3]);
}

#[test]
fn store_ahead_of_the_list_is_left_alone() {
    let runner = three();
    let end = runner.run(7, |_| Err("must not run".to_string()));
    assert_eq!(end.version(), 7);
    assert!(end.applied().is_empty());
    assert!(end.failure().is_none());
}

#[test]
fn next_and_record_step_by_step() {
    let runner = three();
    let mut run = Run::begin(0);
    assert_eq!(run.version(), 0);
    assert_eq!(runner.next(&run).map(|m| m.version), Some(1));
    runner.record(&mut run, Ok(()));
    assert_eq!(run.version(), 1);
    assert_eq!(runner.next(&run).map(|m| m.version), Some(2));
    assert_eq!(runner.next(&run).map(|m| m.version), Some(2));
    runner.record(&mut run, Err("locked".to_string()));
    assert_eq!(run.version(), 1);
    assert_eq!(run.applied(), &vec![1]);
    assert_eq!(
        run.failure(),
        Some(&MigrationFailure { version: 2, reason: "locked".to_string() })
    );
    assert!(runner.next(&run).is_none());
    runner.record(&mut run, Ok(()));
    assert_eq!(run.version(), 1);
    assert_eq!(run.failure().map(|f| f.version), Some(2));
}

#[test]
fn record_without_a_pending_migration_changes_nothing() {
    let runner = three();
    let mut run = Run::begin(3);
    assert!(runner.next(&run).is_none());
    runner.record(&mut run, Ok(()));
    runner.record(&mut run, Err("late".to_string()));
    assert_eq!(run, Run::begin(3));
}

#[test]
fn any_number_of_further_runs_changes_nothing() {
    let runner = three();
    let log: RefCell<Vec<u64>> = RefCell::new(Vec::new());
    let mut version = runner
        .run(0, |m| {
            log.borrow_mut().push(m.version);
            Ok(())
        })
        .version();
    assert_eq!(version, 3);
    for round in 0..5 {
        let end = runner.run(version, |m| {
            log.borrow_mut().push(m.version);
            if round % 2 == 0 {
                Ok(())
            } else {
                Err("must not run".to_string())
            }
        });
        assert!(end.applied().is_empty());
        assert!(end.failure().is_none());
        version = end.version();
        assert_eq!(version, 3);
    }
    assert_eq!(*log.borrow(), [1, 2, 3]);
}

#[test]
fn the_failure_is_of_the_version_after_the_recorded_one() {
    let runner = three().append("four".to_string(), "d".to_string());
    for failing in 1..=4u64 {
        for recorded in 0..failing {
            let end = runner.run(recorded, |m| {
                if m.version == failing {
                    Err(format!("script {} failed", m.version))
                } else {
                    Ok(())
                }
            });
            assert_eq!(end.version(), failing - 1);
            let failure = end.failure().unwrap();
            assert_eq!(failure.version, end.version() + 1);
            assert_eq!(failure.reason, format!("script {} failed", failing));
            assert_eq!(*end.applied(), ((recorded + 1)..failing).collect::<Vec<u64>>());
        }
    }
}
