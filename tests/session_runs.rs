use writedisk::device::RawEntry;
use writedisk::error::RunError;
use writedisk::session::{build_command, present, Action, Event, Phase, Platform, Session};
use writedisk::device::UsbBlockDevice;

fn entry(removable: bool, name: &str, mount: &str, size: u64) -> RawEntry {
    RawEntry {
        removable,
        name: name.to_string(),
        mount_point: mount.to_string(),
        total_space: size,
    }
}

fn session(p: Platform) -> Session {
    Session::new(p, "disk.img".to_string(), "/opt/wd/wd_copier".to_string())
}

#[test]
fn missing_image_fails_before_enumeration() {
    let mut s = session(Platform::DevicePaths);
    assert!(matches!(s.start(), Action::CheckImage));
    let a = s.step(Event::ImageChecked(false));
    assert!(matches!(a, Action::Fail(RunError::InputFileNotFound)));
    assert_eq!(s.phase, Phase::Finished);
    assert!(!s.expects(&Event::Enumerated(Some(Vec::new()))));
}

#[test]
fn no_removable_devices_ends_the_run() {
    let mut s = session(Platform::DevicePaths);
    assert!(matches!(s.step(Event::ImageChecked(true)), Action::Enumerate));
    let a = s.step(Event::Enumerated(Some(vec![entry(false, "sys", "/", 1)])));
    match a {
        Action::Fail(e) => {
            assert_eq!(e, RunError::NoDevicesFound);
            assert_eq!(e.exit_code(), 1);
            assert_eq!(e.message(), "no devices found");
        }
        _ => panic!("expected a failure"),
    }
    assert_eq!(s.phase, Phase::Finished);
    assert!(!s.expects(&Event::Answered("0".to_string())));
    assert!(!s.expects(&Event::HelperExited(Some(true))));
}

#[test]
fn enumeration_failure_ends_the_run() {
    let mut s = session(Platform::DevicePaths);
    s.step(Event::ImageChecked(true));
    assert!(matches!(s.step(Event::Enumerated(None)), Action::Fail(RunError::EnumerationFailure)));
}

#[test]
fn successful_run_exits_cleanly() {
    let mut s = session(Platform::DevicePaths);
    s.step(Event::ImageChecked(true));
    let a = s.step(Event::Enumerated(Some(vec![
        entry(false, "sys", "/", 1),
        entry(true, "stick", "/dev/sdb", 2_000_000_000),
    ])));
    match a {
        Action::Prompt(lines) => assert_eq!(lines, vec!["0: [/dev/sdb] stick 2 GB".to_string()]),
        _ => panic!("expected a prompt"),
    }
    assert!(s.expects(&Event::Answered(String::new())));
    match s.step(Event::Answered("0\n".to_string())) {
        Action::Launch(args) => assert_eq!(args, vec!["sudo", "/opt/wd/wd_copier", "disk.img", "/dev/sdb"]),
        _ => panic!("expected a launch"),
    }
    assert!(matches!(s.step(Event::HelperExited(Some(true))), Action::Succeed));
    assert_eq!(s.phase, Phase::Finished);
}

#[test]
fn helper_failures() {
    for (status, err) in [(Some(false), RunError::CopyFailure), (None, RunError::DispatchFailure)] {
        let mut s = session(Platform::DevicePaths);
        s.step(Event::ImageChecked(true));
        s.step(Event::Enumerated(Some(vec![entry(true, "stick", "/dev/sdc", 5)])));
        s.step(Event::Answered("0".to_string()));
        match s.step(Event::HelperExited(status)) {
            Action::Fail(e) => assert_eq!(e, err),
            _ => panic!("expected a failure"),
        }
    }
}

#[test]
fn bad_answers_end_the_run() {
    let mut s = session(Platform::DevicePaths);
    s.step(Event::ImageChecked(true));
    s.step(Event::Enumerated(Some(vec![entry(true, "a", "/a", 5), entry(true, "b", "/b", 5)])));
    assert!(matches!(s.step(Event::Answered("x".to_string())), Action::Fail(RunError::SelectionParseError)));
    let mut t = session(Platform::DevicePaths);
    t.step(Event::ImageChecked(true));
    t.step(Event::Enumerated(Some(vec![entry(true, "a", "/a", 5), entry(true, "b", "/b", 5)])));
    assert!(matches!(t.step(Event::Answered("2".to_string())), Action::Fail(RunError::SelectionOutOfRange)));
}

#[test]
fn drive_letter_run_resolves_before_launch() {
    let mut s = session(Platform::DriveLetters);
    s.step(Event::ImageChecked(true));
    s.step(Event::Enumerated(Some(vec![
        entry(true, "stick", "E:\\", 8_000_000_000),
        entry(true, "card", "D:\\", 32_000_000),
    ])));
    assert!(matches!(s.step(Event::Answered("1".to_string())), Action::ReadMapping));
    assert_eq!(s.phase, Phase::Resolving);
    match s.step(Event::MappingRead(Some("C, 0\r\nD, 2\r\nE, 1\r\n".to_string()))) {
        Action::Launch(args) => assert_eq!(
            args,
            vec!["runas", "/user:Administrator", "/opt/wd/wd_copier", "disk.img", "\\\\.\\PhysicalDrive2"]
        ),
        _ => panic!("expected a launch"),
    }
    assert_eq!(s.devices[1].display_label, "D:\\");
    assert_eq!(s.devices[1].raw_address, "\\\\.\\PhysicalDrive2");
}

#[test]
fn unresolved_drive_letter_is_never_dispatched() {
    let mut s = session(Platform::DriveLetters);
    s.step(Event::ImageChecked(true));
    s.step(Event::Enumerated(Some(vec![entry(true, "stick", "Z:\\", 8)])));
    s.step(Event::Answered("0".to_string()));
    let a = s.step(Event::MappingRead(Some("D, 2".to_string())));
    assert!(matches!(a, Action::Fail(RunError::AddressResolutionFailure)));
    assert_eq!(s.phase, Phase::Finished);
    assert!(!s.expects(&Event::HelperExited(Some(true))));
    let mut t = session(Platform::DriveLetters);
    t.step(Event::ImageChecked(true));
    t.step(Event::Enumerated(Some(vec![entry(true, "stick", "D:\\", 8)])));
    t.step(Event::Answered("0".to_string()));
    assert!(matches!(t.step(Event::MappingRead(None)), Action::Fail(RunError::AddressResolutionFailure)));
}

#[test]
fn command_lines_per_platform() {
    let h = "h".to_string();
    let i = "i".to_string();
    let d = "/dev/sdb".to_string();
    assert_eq!(build_command(Platform::DevicePaths, &h, &i, &d), vec!["sudo", "h", "i", "/dev/sdb"]);
    assert_eq!(
        build_command(Platform::DriveLetters, &h, &i, &d),
        vec!["runas", "/user:Administrator", "h", "i", "/dev/sdb"]
    );
}

#[test]
fn presented_lines_are_numbered() {
    let ds = vec![
        UsbBlockDevice {
            display_label: "/a".to_string(),
            raw_address: "/a".to_string(),
            description: "A".to_string(),
            size_bytes: 999_999_999,
        },
        UsbBlockDevice {
            display_label: "/b".to_string(),
            raw_address: "/b".to_string(),
            description: "B".to_string(),
            size_bytes: 1_000_000_000,
        },
    ];
    assert_eq!(present(&ds), vec!["0: [/a] A 999 MB", "1: [/b] B 1 GB"]);
}
