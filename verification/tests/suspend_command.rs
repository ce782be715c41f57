use sleep_timer::suspend::{put_computer_to_sleep, Platform};

#[test]
fn linux_uses_service_manager() {
    let cmd = put_computer_to_sleep(Platform::Linux).unwrap();
    assert_eq!(cmd.program, "systemctl");
    assert_eq!(cmd.args, vec!["suspend".to_string()]);
}

#[test]
fn windows_uses_power_profile_helper() {
    let cmd = put_computer_to_sleep(Platform::Windows).unwrap();
    assert_eq!(cmd.program, "rundll32.exe");
    assert_eq!(
        cmd.args,
        vec![
            "powrprof.dll".to_string(),
            ",".to_string(),
            "SetSuspendState".to_string(),
            "0,1,0".to_string(),
        ]
    );
}

#[test]
fn macos_is_unsupported() {
    assert!(put_computer_to_sleep(Platform::MacOs).is_none());
}
