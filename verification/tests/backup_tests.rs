use server_manager::backup::ArchiveOutcome;
use server_manager::backup::BackupStep;
use server_manager::backup::backup_step;
use server_manager::config::Config;
use server_manager::config::Date;
use server_manager::error::GenericError;

fn test_config(directory: &str, template: &str) -> Config {
    Config {
        server_directory: String::from("/srv/game"),
        executable_name: String::from("server"),
        args: Vec::new(),
        backups_directory: String::from(directory),
        backups_target: String::from("/srv/game/world"),
        backups_file_format: String::from(template),
        telegram_api_token: String::from("example-token"),
        telegram_user_id: 42,
    }
}

/// Drives the rotation as the shell does: each index is attempted in turn,
/// with outcomes drawn from which indices are taken.
fn run_rotation(occupied: &[bool; 256]) -> Result<u8, GenericError> {
    let mut index: u8 = 0;
    loop {
        let outcome = if occupied[index as usize] {
            ArchiveOutcome::AlreadyExists
        } else {
            ArchiveOutcome::Created
        };
        match backup_step(index, &outcome) {
            BackupStep::Done => return Ok(index),
            BackupStep::Retry(next) => index = next,
            BackupStep::Fail(e) => return Err(e),
        }
    }
}

#[test]
fn rotation_picks_lowest_unused_index() {
    let mut occupied = [false; 256];
    occupied[0] = true;
    occupied[1] = true;
    occupied[3] = true;
    assert_eq!(run_rotation(&occupied).unwrap(), 2);

    let none_taken = [false; 256];
    assert_eq!(run_rotation(&none_taken).unwrap(), 0);

    let mut all_but_last = [true; 256];
    all_but_last[255] = false;
    assert_eq!(run_rotation(&all_but_last).unwrap(), 255);
}

#[test]
fn exhausted_rotation_fails_with_the_rotation_limit() {
    let all_taken = [true; 256];
    assert!(matches!(
        run_rotation(&all_taken),
        Err(GenericError::RotationLimitExceeded)
    ));
}

#[test]
fn other_io_failure_aborts_immediately() {
    let step = backup_step(0, &ArchiveOutcome::Failed(13));
    assert_eq!(step, BackupStep::Fail(GenericError::IOError { errno: 13 }));
}

#[test]
fn backup_name_scenario() {
    let config = test_config("/backups", "Backup_%Y-%m-%d");
    let date = Date { year: 2024, month: 5, day: 1 };
    let name = config.generate_backup_name_on(&date, 2).unwrap();
    assert_eq!(name, "/backups/Backup_2024-05-01_2.tar.gz");
}

#[test]
fn backup_name_respects_a_trailing_separator() {
    let config = test_config("/backups/", "Backup_%Y-%m-%d");
    let date = Date { year: 2024, month: 12, day: 31 };
    let name = config.generate_backup_name_on(&date, 0).unwrap();
    assert_eq!(name, "/backups/Backup_2024-12-31_0.tar.gz");
}

#[test]
fn invalid_date_yields_no_name() {
    let config = test_config("/backups", "Backup_%Y-%m-%d");
    let date = Date { year: 2023, month: 2, day: 29 };
    assert_eq!(config.generate_backup_name_on(&date, 0), None);
}

#[test]
fn weekday_template_expands_in_english() {
    let config = test_config("/backups", "Backup_%Y-%m-%d-%a");
    let date = Date { year: 2024, month: 5, day: 1 };
    let name = config.generate_backup_name_on(&date, 7).unwrap();
    assert_eq!(name, "/backups/Backup_2024-05-01-Wed_7.tar.gz");
}

#[test]
fn todays_backup_name_carries_index_and_suffix() {
    let config = test_config("/backups", "Backup_%Y-%m-%d");
    let name = config.generate_backup_name(9).unwrap();
    assert!(name.starts_with("/backups/Backup_"));
    assert!(name.ends_with("_9.tar.gz"));
}
