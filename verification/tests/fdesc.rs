use wasi_ext_lib::fdesc::{find_lowest_free, probe_reports_free, FcntlCommand};

#[test]
fn finds_first_gap_above_minimum() {
    // Occupied 0..=2 and 5: the smallest free number at or above 0 is 3.
    assert_eq!(find_lowest_free(&[0, 1, 2, 5], 0), 3);
}

#[test]
fn skips_a_filled_run() {
    assert_eq!(find_lowest_free(&[3, 4, 5], 3), 6);
}

#[test]
fn minimum_itself_free_is_chosen() {
    assert_eq!(find_lowest_free(&[], 5), 5);
    assert_eq!(find_lowest_free(&[4, 6], 5), 5);
}

#[test]
fn occupied_numbers_below_minimum_are_ignored() {
    assert_eq!(find_lowest_free(&[0, 1, 2, 3], 10), 10);
}

#[test]
fn duplicates_in_the_observed_set_change_nothing() {
    assert_eq!(find_lowest_free(&[7, 7, 8, 8], 7), 9);
}

#[test]
fn probe_decodes_bad_descriptor_as_free() {
    assert!(probe_reports_free(-8));
    assert!(!probe_reports_free(-2));
    assert!(!probe_reports_free(0));
    assert!(!probe_reports_free(8));
}

#[test]
fn commands_carry_their_arguments() {
    match (FcntlCommand::F_MVFD { min_fd_num: 10 }) {
        FcntlCommand::F_MVFD { min_fd_num } => assert_eq!(min_fd_num, 10),
        _ => panic!("wrong variant"),
    }
    match (FcntlCommand::F_SETFD { flags: 0x40 }) {
        FcntlCommand::F_SETFD { flags } => assert_eq!(flags, 0x40),
        _ => panic!("wrong variant"),
    }
    assert!(matches!(FcntlCommand::F_GETFD, FcntlCommand::F_GETFD));
}
