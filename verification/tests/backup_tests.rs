use job_tracker::database::backup::{
    backup_path, backups_to_remove, DatabaseBackup, BACKUP_DIR, BACKUP_INTERVAL_SECS, MAX_BACKUPS,
};
use job_tracker::error::AppError;

#[test]
fn backup_constants() {
    assert_eq!(BACKUP_DIR, "backups");
    assert_eq!(MAX_BACKUPS, 7);
    assert_eq!(BACKUP_INTERVAL_SECS, 24 * 60 * 60);
}

#[test]
fn backup_path_is_named_by_its_stamp() {
    assert_eq!(backup_path("backups", "20240321_101500"), "backups/backup_20240321_101500.db");
    assert_eq!(backup_path("", ""), "/backup_.db");
}

#[test]
fn backup_path_at_a_given_time() {
    let backup = DatabaseBackup::new();
    assert_eq!(backup.backup_dir(), "backups");
    assert_eq!(backup.backup_path_at(0).unwrap(), "backups/backup_19700101_000000.db");
    assert_eq!(backup.backup_path_at(1_711_016_100).unwrap(), "backups/backup_20240321_101500.db");
    assert_eq!(backup.backup_path_at(86_399).unwrap(), "backups/backup_19700101_235959.db");
    assert_eq!(backup.backup_path_at(-1).unwrap(), "backups/backup_19691231_235959.db");
}

#[test]
fn backup_path_at_a_time_that_cannot_be_written() {
    let backup = DatabaseBackup::new();
    assert!(backup.backup_path_at(i64::MAX).is_none());
    assert!(backup.backup_path_at(i64::MIN).is_none());
}

#[test]
fn restore_needs_the_backup_file() {
    assert!(DatabaseBackup::check_restorable(true).is_ok());
    match DatabaseBackup::check_restorable(false) {
        Err(AppError::BackupError(msg)) => assert_eq!(msg, "Le fichier de backup n'existe pas"),
        other => panic!("expected a backup error, got {:?}", other),
    }
}

#[test]
fn few_backups_are_all_kept() {
    assert!(backups_to_remove(&vec![]).is_empty());
    assert!(backups_to_remove(&vec![5]).is_empty());
    assert!(backups_to_remove(&vec![7, 6, 5, 4, 3, 2, 1]).is_empty());
    assert!(backups_to_remove(&vec![1, 1, 1, 1, 1, 1, 1]).is_empty());
}

#[test]
fn oldest_backups_are_removed() {
    assert_eq!(backups_to_remove(&vec![10, 20, 30, 40, 50, 60, 70, 80]), vec![0]);
    assert_eq!(backups_to_remove(&vec![80, 70, 60, 50, 40, 30, 20, 10]), vec![7]);
    assert_eq!(backups_to_remove(&vec![50, 10, 90, 20, 80, 30, 70, 40, 60, 5]), vec![1, 3, 9]);
}

#[test]
fn of_backups_of_one_time_the_later_in_the_list_are_removed() {
    assert_eq!(backups_to_remove(&vec![1; 9]), vec![7, 8]);
    assert_eq!(backups_to_remove(&vec![2, 1, 1, 2, 2, 2, 2, 2, 1]), vec![2, 8]);
}

#[test]
fn seven_backups_are_kept_whatever_their_number() {
    let modified: Vec<u64> = (0..100u64).map(|i| (i * 37) % 101).collect();
    let removed = backups_to_remove(&modified);
    assert_eq!(removed.len(), 93);
    let oldest_kept = (0..100usize)
        .filter(|i| !removed.contains(i))
        .map(|i| modified[i])
        .min()
        .unwrap();
    assert!(removed.iter().all(|&i| modified[i] <= oldest_kept));
    assert!(removed.windows(2).all(|w| w[0] < w[1]));
}
