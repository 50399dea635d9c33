use org_roam_protocol_installer::config::MacOSConfig;
use org_roam_protocol_installer::macos_installer::{
    MacOSRoamProtocolInstaller, make_org_protocol_script,
};

#[test]
fn write_protocol_script() {
    let installer = MacOSRoamProtocolInstaller::new(MacOSConfig {
        emacsclient_path: String::from("foo"),
    });

    let actual = installer.write_protocol_script();

    assert_eq!(actual, make_org_protocol_script("foo"))
}

#[test]
fn contains_emacsclient_path() {
    let ret = make_org_protocol_script("foo/bar");

    assert_eq!(ret.contains("foo/bar"), true)
}

#[test]
fn script_carries_client_path_and_no_wait_flag() {
    let script = make_org_protocol_script("/usr/local/bin/emacsclient");

    assert!(script.contains("/usr/local/bin/emacsclient"));
    assert!(script.contains("--no-wait"));
}

#[test]
fn script_escapes_quotes_and_backslashes_in_path() {
    let script = make_org_protocol_script("/Users/o\"brien/bin\\emacsclient");

    assert!(script.contains("set EC to \"/Users/o\\\"brien/bin\\\\emacsclient --no-wait \""));
    assert!(!script.contains("set EC to \"/Users/o\"brien"));
}

#[test]
fn script_quotes_client_invocation() {
    let script = make_org_protocol_script("/usr/local/bin/emacsclient");

    assert!(script.contains("set EC to \"/usr/local/bin/emacsclient --no-wait \""));
    assert!(script.contains("on open location this_URL"));
    assert!(script.contains("end open location"));
}
