use deployer::workspace::{
    after_check, destination_fmt, NameStep, stamp_name, update_destination, workspace_dir, workspace_dir_at, FolderFormatError, Stamp,
};

#[test]
fn test_non_existent_path() {
    let non_existent_path = String::from("01_Sep_2024_1308");
    let result = update_destination(false, non_existent_path.clone(), 1);
    assert_eq!(result.unwrap(), non_existent_path);
}

#[test]
fn test_invalid_path_format() {
    let invalid_path = String::from("01_Sep_2024");
    let result = update_destination(true, invalid_path, 1);
    assert!(result.is_err());
}

#[test]
fn test_valid_path_format() {
    let valid_path = String::from("01_Sep_2024_1307");
    let result = update_destination(true, valid_path, 1);
    assert_eq!(result.unwrap(), "01_Sep_2024_1307_01");
}

#[test]
fn malformed_name_gives_format_error() {
    let result = update_destination(true, String::from("01_Sep_2024"), 1);
    assert_eq!(result, Err(FolderFormatError::FailedToFormat));
}

#[test]
fn suffix_replaces_earlier_suffix() {
    let result = update_destination(true, String::from("01_Sep_2024_1307_05"), 3);
    assert_eq!(result.unwrap(), "01_Sep_2024_1307_03");
}

#[test]
fn index_past_bound_is_exhausted() {
    let result = update_destination(true, String::from("01_Sep_2024_1307"), 10000);
    assert_eq!(result, Err(FolderFormatError::SuffixesExhausted));
}

#[test]
fn destination_fmt_pads_small_indices() {
    let pieces = ["01", "Jan", "2025", "1046"];
    let mut path = String::from("old");
    assert!(destination_fmt(&pieces, &mut path, 8).is_ok());
    assert_eq!(path, "01_Jan_2025_1046_08");
    assert!(destination_fmt(&pieces, &mut path, 12).is_ok());
    assert_eq!(path, "01_Jan_2025_1046_12");
    assert!(destination_fmt(&pieces, &mut path, 100).is_ok());
    assert_eq!(path, "01_Jan_2025_1046_100");
}

#[test]
fn destination_fmt_refuses_short_base() {
    let pieces = ["01", "Jan", "2025"];
    let mut path = String::from("kept");
    assert_eq!(destination_fmt(&pieces, &mut path, 1), Err(FolderFormatError::FailedToFormat));
    assert_eq!(path, "kept");
}

#[test]
fn format_error_message() {
    assert_eq!(
        FolderFormatError::FailedToFormat.message(),
        "FolderFormatError: Failed to format folder name. Try removing all repeating folders or try again in a minute."
    );
}

#[test]
fn stamp_is_rendered_as_directory_name() {
    let s = Stamp { year: 2024, month: 9, day: 1, hour: 13, minute: 7 };
    assert_eq!(stamp_name(&s), "01_Sep_2024_1307");
    let t = Stamp { year: 987, month: 12, day: 31, hour: 0, minute: 0 };
    assert_eq!(stamp_name(&t), "31_Dec_0987_0000");
    let u = Stamp { year: 12345, month: 1, day: 9, hour: 23, minute: 59 };
    assert_eq!(stamp_name(&u), "09_Jan_+12345_2359");
    let v = Stamp { year: -44, month: 3, day: 15, hour: 9, minute: 30 };
    assert_eq!(stamp_name(&v), "15_Mar_-0044_0930");
}

#[test]
fn workspace_dir_at_joins_root() {
    let s = Stamp { year: 2025, month: 1, day: 1, hour: 10, minute: 46 };
    assert_eq!(workspace_dir_at("/var/www", &s), "/var/www/01_Jan_2025_1046");
}

#[test]
fn workspace_dir_now_has_stamp_shape() {
    let d = workspace_dir("/srv").unwrap();
    let name = d.strip_prefix("/srv/").unwrap();
    let pieces: Vec<&str> = name.split('_').collect();
    assert_eq!(pieces.len(), 4);
    assert_eq!(pieces[0].len(), 2);
    assert_eq!(pieces[1].len(), 3);
    assert_eq!(pieces[3].len(), 4);
    assert!(pieces[3].chars().all(|c| c.is_ascii_digit()));
}

#[test]
fn after_check_decides_on_each_answer() {
    assert!(matches!(after_check(false, String::from("a_b_c_d_01"), 1), NameStep::Free(p) if p == "a_b_c_d_01"));
    assert!(matches!(after_check(true, String::from("a_b_c_d_01"), 1), NameStep::Next(2)));
    assert!(matches!(after_check(true, String::from("a_b_c_d_9999"), 9999), NameStep::Exhausted));
}

#[test]
fn taken_name_is_never_returned() {
    let result = update_destination(true, String::from("01_Sep_2024_1307_01"), 1);
    assert_eq!(result.unwrap(), "01_Sep_2024_1307_02");
}
