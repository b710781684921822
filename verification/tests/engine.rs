use sg_cli::configuration::{Commands, Metadata};
use sg_cli::engine::{Action, Batch, BatchError, Event, Phase, Step, Task};
use sg_cli::helper_funcs::CodecError;
use sg_cli::transform::{Opacity, Rewrite, Selection};

fn fetched(edition: u32, stage: u8, frozen: bool, image: &str) -> Metadata {
    Metadata {
        edition,
        name: String::new(),
        description: String::new(),
        image: image.to_string(),
        dna: String::new(),
        stage,
        frozen,
        seller_fee_basis_points: 0,
        fee_recipient: String::new(),
        attributes: Vec::new(),
    }
}

fn stage_batch(stage: u8, verbose: bool) -> Batch {
    Batch::new(Task::for_command(Commands::ChangeStage { stage }, false).unwrap(), verbose)
}

#[test]
fn commands_stand_for_tasks() {
    assert_eq!(
        Task::for_command(Commands::ChangeStage { stage: 3 }, false),
        Some(Task::Rewrite {
            stage_write: Some(3),
            selection: Selection::NotFrozen,
            rewrite: Rewrite::Stage { stage: 3 },
        })
    );
    assert_eq!(
        Task::for_command(Commands::ChangeHost { host: "h.example.com".to_string() }, true),
        Some(Task::Rewrite {
            stage_write: None,
            selection: Selection::All,
            rewrite: Rewrite::Host { host: "h.example.com".to_string() },
        })
    );
    assert_eq!(
        Task::for_command(Commands::ChangeMetadataFaded { opacity: 45 }, false),
        Some(Task::Rewrite {
            stage_write: None,
            selection: Selection::NotFrozen,
            rewrite: Rewrite::Fade { opacity: Opacity::Opacity45 },
        })
    );
    assert_eq!(
        Task::for_command(Commands::RestoreImages, false),
        Some(Task::Rewrite {
            stage_write: None,
            selection: Selection::NotFrozen,
            rewrite: Rewrite::Restore,
        })
    );
    assert_eq!(
        Task::for_command(Commands::RestoreImages, true),
        Some(Task::Rewrite {
            stage_write: None,
            selection: Selection::All,
            rewrite: Rewrite::Restore,
        })
    );
    assert_eq!(Task::for_command(Commands::ShowFrozen, false), None);
    assert_eq!(Task::for_command(Commands::DumpMetadata, false), None);
    assert_eq!(
        Task::for_command(Commands::InitFrom { endpoint: "https://feed".to_string() }, false),
        None
    );
}

#[test]
fn invalid_opacity_is_refused_at_the_first_step() {
    let task = Task::for_command(Commands::ChangeMetadataFaded { opacity: 50 }, false).unwrap();
    assert_eq!(task, Task::Refuse { error: BatchError::InvalidOpacity { opacity: 50 } });
    let mut batch = Batch::new(task, true);
    assert_eq!(
        batch.step(Event::Started),
        Step { note: None, action: Action::Abort { error: BatchError::InvalidOpacity { opacity: 50 } } }
    );
    assert_eq!(batch.phase(), Phase::Closed);
}

#[test]
fn stage_change_runs_step_by_step() {
    let mut batch = stage_batch(3, true);
    assert_eq!(batch.phase(), Phase::Idle);
    assert_eq!(
        batch.step(Event::Started),
        Step { note: None, action: Action::SetCurrentStage { stage: 3 } }
    );
    assert_eq!(batch.phase(), Phase::AwaitStage);
    assert_eq!(
        batch.step(Event::StageSet { stage: 3 }),
        Step {
            note: Some("Updated current stage to: 3".to_string()),
            action: Action::Fetch { selection: Selection::NotFrozen },
        }
    );
    assert_eq!(batch.phase(), Phase::AwaitRecords);
    let records = vec![
        fetched(7, 2, false, "https://cdn.example.com/art/2/7.jpg"),
        fetched(8, 2, false, "https://cdn.example.com/art/2/8.jpg"),
    ];
    assert_eq!(
        batch.step(Event::Fetched { records }),
        Step {
            note: None,
            action: Action::Update {
                record: fetched(7, 3, false, "https://cdn.example.com/art/3/7.jpg"),
            },
        }
    );
    assert_eq!(batch.phase(), Phase::AwaitWrite);
    assert_eq!(
        batch.step(Event::Written { edition: 7 }),
        Step {
            note: Some("Updated edition 7 to stage 3".to_string()),
            action: Action::Update {
                record: fetched(8, 3, false, "https://cdn.example.com/art/3/8.jpg"),
            },
        }
    );
    assert_eq!(
        batch.step(Event::Written { edition: 8 }),
        Step { note: Some("Updated edition 8 to stage 3".to_string()), action: Action::Finish }
    );
    assert_eq!(batch.phase(), Phase::Closed);
}

#[test]
fn quiet_operation_gives_no_lines() {
    let mut batch = stage_batch(3, false);
    batch.step(Event::Started);
    assert_eq!(batch.step(Event::StageSet { stage: 3 }).note, None);
    let records = vec![fetched(7, 2, false, "https://cdn.example.com/art/2/7.jpg")];
    assert_eq!(batch.step(Event::Fetched { records }).note, None);
    assert_eq!(batch.step(Event::Written { edition: 7 }), Step { note: None, action: Action::Finish });
}

#[test]
fn empty_selection_finishes_at_once() {
    let mut batch = Batch::new(Task::for_command(Commands::RestoreImages, false).unwrap(), true);
    assert_eq!(
        batch.step(Event::Started),
        Step { note: None, action: Action::Fetch { selection: Selection::NotFrozen } }
    );
    assert_eq!(
        batch.step(Event::Fetched { records: Vec::new() }),
        Step { note: None, action: Action::Finish }
    );
}

#[test]
fn record_that_cannot_be_rewritten_aborts_with_its_edition() {
    let mut batch = stage_batch(3, true);
    batch.step(Event::Started);
    batch.step(Event::StageSet { stage: 3 });
    let records = vec![
        fetched(7, 2, false, "https://cdn.example.com/art/2/7.jpg"),
        fetched(8, 2, false, "https://cdn.example.com/8.jpg"),
        fetched(9, 2, false, "https://cdn.example.com/art/2/9.jpg"),
    ];
    batch.step(Event::Fetched { records });
    assert_eq!(
        batch.step(Event::Written { edition: 7 }),
        Step {
            note: Some("Updated edition 7 to stage 3".to_string()),
            action: Action::Abort {
                error: BatchError::Image { edition: 8, cause: CodecError::MalformedPath },
            },
        }
    );
    assert_eq!(batch.phase(), Phase::Closed);
}

#[test]
fn failure_of_the_store_aborts_with_its_error() {
    let mut batch = stage_batch(3, true);
    batch.step(Event::Started);
    let error = BatchError::Store { cause: "connection lost".to_string() };
    assert_eq!(
        batch.step(Event::Failed { error: error.clone() }),
        Step { note: None, action: Action::Abort { error } }
    );
    assert_eq!(batch.phase(), Phase::Closed);
}

#[test]
fn failed_write_gives_no_line_for_the_record() {
    let mut batch = stage_batch(3, true);
    batch.step(Event::Started);
    batch.step(Event::StageSet { stage: 3 });
    batch.step(Event::Fetched {
        records: vec![fetched(7, 2, false, "https://cdn.example.com/art/2/7.jpg")],
    });
    assert_eq!(
        batch.step(Event::Failed { error: BatchError::RecordNotFound { edition: 7 } }),
        Step { note: None, action: Action::Abort { error: BatchError::RecordNotFound { edition: 7 } } }
    );
}

#[test]
fn event_out_of_turn_closes_the_operation() {
    let mut batch = stage_batch(3, true);
    assert_eq!(
        batch.step(Event::Written { edition: 1 }),
        Step { note: None, action: Action::Abort { error: BatchError::OutOfTurn } }
    );
    assert_eq!(batch.phase(), Phase::Closed);
    assert_eq!(
        batch.step(Event::Started),
        Step { note: None, action: Action::Abort { error: BatchError::OutOfTurn } }
    );
    let mut batch = stage_batch(3, true);
    batch.step(Event::Started);
    assert_eq!(
        batch.step(Event::Fetched { records: Vec::new() }).action,
        Action::Abort { error: BatchError::OutOfTurn }
    );
}

#[test]
fn import_inserts_in_order_with_a_line_each() {
    let first = fetched(1, 0, false, "https://cdn.example.com/art/0/1.jpg");
    let second = fetched(2, 0, true, "https://cdn.example.com/art/0/2.jpg");
    let mut batch = Batch::import(vec![first.clone(), second.clone()]);
    assert_eq!(
        batch.step(Event::Started),
        Step {
            note: Some("Inserting metadata: 1".to_string()),
            action: Action::Insert { record: first },
        }
    );
    assert_eq!(
        batch.step(Event::Written { edition: 1 }),
        Step {
            note: Some("Inserting metadata: 2".to_string()),
            action: Action::Insert { record: second },
        }
    );
    assert_eq!(batch.step(Event::Written { edition: 2 }), Step { note: None, action: Action::Finish });
}

#[test]
fn import_stops_at_the_first_refusal() {
    let mut batch = Batch::import(vec![
        fetched(1, 0, false, "https://cdn.example.com/art/0/1.jpg"),
        fetched(2, 0, false, "https://cdn.example.com/art/0/2.jpg"),
    ]);
    batch.step(Event::Started);
    let error = BatchError::Store { cause: "duplicate key".to_string() };
    assert_eq!(
        batch.step(Event::Failed { error: error.clone() }),
        Step { note: None, action: Action::Abort { error } }
    );
    assert_eq!(batch.phase(), Phase::Closed);
}

#[test]
fn other_faults_pass_through_the_operation() {
    let mut batch = Batch::import(Vec::new());
    let error = BatchError::ImportParse { cause: "expected value at line 1".to_string() };
    assert_eq!(batch.step(Event::Failed { error: error.clone() }).action, Action::Abort { error });
    let mut batch = Batch::import(Vec::new());
    let error = BatchError::FileSystem { cause: "disk full".to_string() };
    assert_eq!(batch.step(Event::Failed { error: error.clone() }).action, Action::Abort { error });
}

#[test]
fn record_outside_the_selection_is_passed_over() {
    let mut batch = stage_batch(3, true);
    batch.step(Event::Started);
    batch.step(Event::StageSet { stage: 3 });
    let records = vec![
        fetched(6, 2, true, "https://cdn.example.com/art/2/6.jpg"),
        fetched(7, 2, false, "https://cdn.example.com/art/2/7.jpg"),
        fetched(8, 2, true, "no url at all"),
    ];
    assert_eq!(
        batch.step(Event::Fetched { records }),
        Step {
            note: None,
            action: Action::Update {
                record: fetched(7, 3, false, "https://cdn.example.com/art/3/7.jpg"),
            },
        }
    );
    assert_eq!(
        batch.step(Event::Written { edition: 7 }),
        Step { note: Some("Updated edition 7 to stage 3".to_string()), action: Action::Finish }
    );
}
