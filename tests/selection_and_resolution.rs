use writedisk::device::UsbBlockDevice;
use writedisk::error::RunError;
use writedisk::resolve::determine_windows_phydrive;
use writedisk::session::choose_device;

#[test]
fn index_two_of_three_selects_the_third_record() {
    assert_eq!(choose_device("2", 3), Ok(2));
    assert_eq!(choose_device("2\n", 3), Ok(2));
    assert_eq!(choose_device("0", 3), Ok(0));
}

#[test]
fn index_past_the_end_is_out_of_range() {
    assert_eq!(choose_device("3", 3), Err(RunError::SelectionOutOfRange));
    assert_eq!(choose_device("0", 0), Err(RunError::SelectionOutOfRange));
}

#[test]
fn non_numeric_selection_is_a_parse_error() {
    assert_eq!(choose_device("abc", 3), Err(RunError::SelectionParseError));
    assert_eq!(choose_device("", 3), Err(RunError::SelectionParseError));
    assert_eq!(choose_device("-1", 3), Err(RunError::SelectionParseError));
    assert_eq!(choose_device("99999999999999999999", 3), Err(RunError::SelectionParseError));
}

#[test]
fn drive_letter_maps_to_its_physical_drive() {
    assert_eq!(determine_windows_phydrive("D, 2", "D:\\"), Ok("\\\\.\\PhysicalDrive2".to_string()));
}

#[test]
fn drive_letter_absent_from_the_mapping_fails() {
    assert_eq!(determine_windows_phydrive("D, 2", "Z:\\"), Err(RunError::AddressResolutionFailure));
    assert_eq!(determine_windows_phydrive("", "D:\\"), Err(RunError::AddressResolutionFailure));
    assert_eq!(determine_windows_phydrive("D, 2", ""), Err(RunError::AddressResolutionFailure));
}

#[test]
fn mapping_with_several_lines_and_crlf() {
    let text = "C, 0\r\n, 1\r\nEF, 3\r\nD, 2\r\n";
    assert_eq!(determine_windows_phydrive(text, "D:\\"), Ok("\\\\.\\PhysicalDrive2".to_string()));
    assert_eq!(determine_windows_phydrive(text, "E:\\"), Ok("\\\\.\\PhysicalDrive3".to_string()));
    assert_eq!(determine_windows_phydrive(text, "C:\\"), Ok("\\\\.\\PhysicalDrive0".to_string()));
    // Only the first letter of a line is matched.
    assert_eq!(determine_windows_phydrive(text, "F:\\"), Err(RunError::AddressResolutionFailure));
}

#[test]
fn first_matching_line_wins_and_last_field_is_taken() {
    let text = "\nGH, x, 12\nG, 13\n";
    assert_eq!(determine_windows_phydrive(text, "G:"), Ok("\\\\.\\PhysicalDrive12".to_string()));
    assert_eq!(determine_windows_phydrive("H", "H:"), Ok("\\\\.\\PhysicalDriveH".to_string()));
}

#[test]
fn resolution_keeps_the_label() {
    let d = UsbBlockDevice {
        display_label: "D:\\".to_string(),
        raw_address: "D:\\".to_string(),
        description: "USB".to_string(),
        size_bytes: 5,
    };
    let r = d.resolved("D, 2").unwrap();
    assert_eq!(r.display_label, "D:\\");
    assert_eq!(r.raw_address, "\\\\.\\PhysicalDrive2");
    assert_eq!(r.description, "USB");
    assert_eq!(r.size_bytes, 5);
    assert!(matches!(d.resolved("Z, 1"), Err(RunError::AddressResolutionFailure)));
}

#[test]
fn error_messages_and_codes() {
    assert_eq!(RunError::NoDevicesFound.message(), "no devices found");
    assert_eq!(RunError::SelectionParseError.message(), "invalid input");
    assert_eq!(RunError::SelectionOutOfRange.message(), "invalid index");
    assert_eq!(RunError::CopyFailure.message(), "copy failed");
    assert_eq!(RunError::InputFileNotFound.message(), "file not found");
    assert_eq!(RunError::AddressResolutionFailure.message(), "failed to determine physical drive");
    assert_eq!(RunError::CopyFailure.exit_code(), 1);
    assert_eq!(RunError::InputFileNotFound.exit_code(), 1);
}
