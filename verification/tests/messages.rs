use sg_cli::configuration::{Cli, Commands};
use sg_cli::engine::{Action, BatchError, Event, Phase};
use sg_cli::export::dump_file_name;
use sg_cli::gateway::fault_error;
use sg_cli::helper_funcs::CodecError;
use sg_cli::store::StoreFault;
use sg_cli::transform::{Opacity, Selection};
use sg_cli::{run, Launch, Work};

#[test]
fn commands_announce_themselves() {
    assert_eq!(
        Commands::ChangeStage { stage: 3 }.banner(),
        Some("changing stage to: 3".to_string())
    );
    assert_eq!(
        Commands::ChangeHost { host: "media.example.com".to_string() }.banner(),
        Some("changing host to: media.example.com".to_string())
    );
    assert_eq!(
        Commands::ChangeMetadataFaded { opacity: 35 }.banner(),
        Some("Changing metadata image url to images with opacity: 35".to_string())
    );
    assert_eq!(
        Commands::RestoreImages.banner(),
        Some("Restoring images based on edition and stage".to_string())
    );
    assert_eq!(Commands::ShowFrozen.banner(), None);
    assert_eq!(Commands::DumpMetadata.banner(), None);
    assert_eq!(Commands::InitFrom { endpoint: "https://feed".to_string() }.banner(), None);
}

#[test]
fn failures_are_headed_by_the_command() {
    assert_eq!(Commands::ChangeStage { stage: 3 }.failure_heading(), "Error changing stage");
    assert_eq!(
        Commands::ChangeHost { host: String::new() }.failure_heading(),
        "Error changing host"
    );
    assert_eq!(
        Commands::ChangeMetadataFaded { opacity: 1 }.failure_heading(),
        "Error changing metadata to faded images"
    );
    assert_eq!(Commands::RestoreImages.failure_heading(), "Error restoring images");
    assert_eq!(Commands::ShowFrozen.failure_heading(), "Error showing frozen images");
    assert_eq!(Commands::DumpMetadata.failure_heading(), "Error dumping metadata");
    assert_eq!(
        Commands::InitFrom { endpoint: String::new() }.failure_heading(),
        "Error initiating db from endpoint"
    );
}

#[test]
fn errors_describe_themselves() {
    assert_eq!(
        BatchError::InvalidOpacity { opacity: 50 }.describe(),
        "opacity can be 35, 45 and 100 only, not 50"
    );
    assert_eq!(
        BatchError::Image { edition: 8, cause: CodecError::MalformedPath }.describe(),
        "edition 8: the image path has fewer than three segments"
    );
    assert_eq!(
        BatchError::Image { edition: 8, cause: CodecError::InvalidUrl }.describe(),
        "edition 8: the image is not a URL"
    );
    assert_eq!(
        BatchError::Image { edition: 8, cause: CodecError::HostRewrite }.describe(),
        "edition 8: the image cannot take the host"
    );
    assert_eq!(
        BatchError::Image { edition: 8, cause: CodecError::TooLong }.describe(),
        "edition 8: the image URL is too long"
    );
    assert_eq!(
        BatchError::RecordNotFound { edition: 12 }.describe(),
        "edition 12 is not in the store"
    );
    assert_eq!(
        BatchError::Store { cause: "timeout".to_string() }.describe(),
        "the store failed: timeout"
    );
    assert_eq!(
        BatchError::ImportParse { cause: "eof".to_string() }.describe(),
        "the feed cannot be read: eof"
    );
    assert_eq!(
        BatchError::FileSystem { cause: "denied".to_string() }.describe(),
        "the export cannot be written: denied"
    );
    assert_eq!(BatchError::OutOfTurn.describe(), "an event arrived out of turn");
}

#[test]
fn store_faults_become_errors() {
    assert_eq!(
        fault_error(StoreFault::RecordNotFound { edition: 4 }),
        BatchError::RecordNotFound { edition: 4 }
    );
    assert_eq!(
        fault_error(StoreFault::DuplicateEdition { edition: 4 }),
        BatchError::Store { cause: "duplicate edition 4".to_string() }
    );
}

#[test]
fn opacity_is_one_of_three() {
    assert_eq!(Opacity::from_percent(35), Some(Opacity::Opacity35));
    assert_eq!(Opacity::from_percent(45), Some(Opacity::Opacity45));
    assert_eq!(Opacity::from_percent(100), Some(Opacity::Blackout));
    assert_eq!(Opacity::from_percent(0), None);
    assert_eq!(Opacity::from_percent(36), None);
    assert_eq!(Opacity::from_percent(255), None);
}

#[test]
fn restore_selection_follows_force() {
    assert_eq!(Selection::for_restore(false), Selection::NotFrozen);
    assert_eq!(Selection::for_restore(true), Selection::All);
}

#[test]
fn dump_file_is_named_after_the_moment_in_utc() {
    assert_eq!(dump_file_name(0), Some("1970-01-01_00-00-00.json".to_string()));
    assert_eq!(dump_file_name(1_651_234_567), Some("2022-04-29_12-16-07.json".to_string()));
    assert_eq!(dump_file_name(-1), Some("1969-12-31_23-59-59.json".to_string()));
    assert_eq!(dump_file_name(i64::MAX), None);
}

#[test]
fn command_line_holds_command_and_flags() {
    let cli = Cli { command: Commands::RestoreImages, verbose: true, force: false };
    assert_eq!(cli.command, Commands::RestoreImages);
    assert!(cli.verbose);
    assert!(!cli.force);
}

#[test]
fn command_line_of_an_operation_is_launched_as_an_operation() {
    let Launch { banner, heading, work } =
        run(Cli { command: Commands::ChangeStage { stage: 2 }, verbose: true, force: false });
    assert_eq!(banner, Some("changing stage to: 2".to_string()));
    assert_eq!(heading, "Error changing stage");
    match work {
        Work::Operation { mut batch } => {
            assert_eq!(batch.phase(), Phase::Idle);
            assert_eq!(batch.step(Event::Started).action, Action::SetCurrentStage { stage: 2 });
            assert_eq!(
                batch.step(Event::StageSet { stage: 2 }).note,
                Some("Updated current stage to: 2".to_string())
            );
        }
        _ => panic!("a stage change is an operation"),
    }
}

#[test]
fn command_line_with_a_bad_opacity_is_launched_as_a_refused_operation() {
    let launch =
        run(Cli { command: Commands::ChangeMetadataFaded { opacity: 9 }, verbose: false, force: true });
    assert_eq!(
        launch.banner,
        Some("Changing metadata image url to images with opacity: 9".to_string())
    );
    match launch.work {
        Work::Operation { mut batch } => assert_eq!(
            batch.step(Event::Started).action,
            Action::Abort { error: BatchError::InvalidOpacity { opacity: 9 } }
        ),
        _ => panic!("a fading is an operation"),
    }
}

#[test]
fn restore_under_force_selects_every_record() {
    let launch = run(Cli { command: Commands::RestoreImages, verbose: false, force: true });
    match launch.work {
        Work::Operation { mut batch } => assert_eq!(
            batch.step(Event::Started).action,
            Action::Fetch { selection: Selection::All }
        ),
        _ => panic!("a restoration is an operation"),
    }
}

#[test]
fn other_command_lines_are_launched_as_what_they_are() {
    let launch = run(Cli { command: Commands::ShowFrozen, verbose: true, force: false });
    assert_eq!(launch.banner, None);
    assert_eq!(launch.heading, "Error showing frozen images");
    assert!(matches!(launch.work, Work::ShowFrozen));
    let launch = run(Cli { command: Commands::DumpMetadata, verbose: true, force: false });
    assert!(matches!(launch.work, Work::DumpMetadata));
    let launch = run(Cli {
        command: Commands::InitFrom { endpoint: "https://feed.example.com/all".to_string() },
        verbose: false,
        force: false,
    });
    assert_eq!(launch.heading, "Error initiating db from endpoint");
    match launch.work {
        Work::InitFrom { endpoint } => assert_eq!(endpoint, "https://feed.example.com/all"),
        _ => panic!("an import is an import"),
    }
}
