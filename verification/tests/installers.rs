use org_roam_protocol_installer::actions::{Action, Event, InstallError, Phase};
use org_roam_protocol_installer::config::{Config, LinuxConfig, MacOSConfig};
use org_roam_protocol_installer::execution_mode::ExecutionMode;
use org_roam_protocol_installer::linux_installer;
use org_roam_protocol_installer::linux_installer::desktop_file_content;
use org_roam_protocol_installer::macos_installer;
use org_roam_protocol_installer::ostype::OsType;
use org_roam_protocol_installer::plist::url_association_fragment;
use org_roam_protocol_installer::{Installer, RoamProtocolInstaller, make_installer};

fn linux_config() -> LinuxConfig {
    LinuxConfig {
        desktop_entry_directory: String::from("/tmp/x"),
        desktop_file_name: String::from("test.desktop"),
    }
}

#[test]
fn linux_install_writes_entry_then_registers_mime_default() {
    let installer = linux_installer::new(linux_config());

    let (phase, action) = installer.install_step(Phase::Ready, Event::Begin).unwrap();
    assert_eq!(phase, Phase::WritingFile);
    let written = match action {
        Action::WriteFile { path, content } => {
            assert_eq!(path, "/tmp/x/test.desktop");
            assert_eq!(content, desktop_file_content());
            assert!(content.contains("[Desktop Entry]"));
            assert!(content.contains("MimeType=x-scheme-handler/org-protocol"));
            assert!(content.contains("Exec=emacsclient %u"));
            assert!(content.contains("Type=Application"));
            assert!(content.contains("Terminal=false"));
            content
        },
        _ => panic!("install must write the desktop entry first"),
    };

    let (phase, action) = installer.install_step(phase, Event::Succeeded).unwrap();
    assert_eq!(phase, Phase::RunningTool);
    match action {
        Action::RunTool { program, args } => {
            assert_eq!(program, "xdg-mime");
            assert_eq!(
                args,
                vec![
                    String::from("default"),
                    String::from("test.desktop"),
                    String::from("x-scheme-handler/org-protocol"),
                ]
            );
        },
        _ => panic!("install must register the MIME default after the write"),
    }

    let (phase, action) = installer.install_step(phase, Event::Succeeded).unwrap();
    assert_eq!(phase, Phase::Finished);
    match action {
        Action::Done { message } => assert!(message.contains("successfully")),
        _ => panic!("install must finish after registration"),
    }

    // A second run writes byte-identical content to the same path.
    let again = linux_installer::new(linux_config());
    let (_, action) = again.install_step(Phase::Ready, Event::Begin).unwrap();
    match action {
        Action::WriteFile { path, content } => {
            assert_eq!(path, "/tmp/x/test.desktop");
            assert_eq!(content, written);
        },
        _ => panic!("install must write the desktop entry first"),
    }
}

#[test]
fn linux_install_surfaces_tool_failure_as_error() {
    let installer = linux_installer::new(linux_config());

    let (phase, _) = installer.install_step(Phase::Ready, Event::Begin).unwrap();
    let (phase, _) = installer.install_step(phase, Event::Succeeded).unwrap();
    let result = installer.install_step(
        phase,
        Event::ToolFailed { message: String::from("xdg-mime: not found") },
    );

    match result {
        Err(InstallError::ExternalTool { message }) => {
            assert_eq!(message, "xdg-mime: not found")
        },
        _ => panic!("a tool failure must come back as an external-tool error"),
    }
}

#[test]
fn linux_install_surfaces_write_failure_as_error() {
    let installer = linux_installer::new(linux_config());

    let (phase, _) = installer.install_step(Phase::Ready, Event::Begin).unwrap();
    let result = installer.install_step(
        phase,
        Event::FsFailed { message: String::from("permission denied") },
    );

    match result {
        Err(InstallError::Filesystem { message }) => assert_eq!(message, "permission denied"),
        _ => panic!("a write failure must come back as a filesystem error"),
    }
}

#[test]
fn linux_uninstall_missing_file_is_success() {
    let installer = linux_installer::new(linux_config());

    let (phase, action) = installer.uninstall_step(Phase::Ready, Event::Begin).unwrap();
    assert_eq!(phase, Phase::RemovingArtifact);
    match action {
        Action::RemovePath { path } => assert_eq!(path, "/tmp/x/test.desktop"),
        _ => panic!("uninstall must remove the desktop entry"),
    }

    let (phase, action) = installer.uninstall_step(phase, Event::Missing).unwrap();
    assert_eq!(phase, Phase::Finished);
    match action {
        Action::Done { message } => assert!(message.contains("successfully")),
        _ => panic!("an absent desktop entry must still finish successfully"),
    }
}

#[test]
fn macos_install_compiles_script_and_rewrites_plist() {
    let installer = macos_installer::new(MacOSConfig {
        emacsclient_path: String::from("/usr/local/bin/emacsclient"),
    });

    let (phase, action) = installer.install_step(Phase::Ready, Event::Begin).unwrap();
    assert_eq!(phase, Phase::WritingFile);
    match action {
        Action::WriteTempFile { name_prefix, name_suffix, content } => {
            assert_eq!(name_prefix, "org-protocol-script");
            assert_eq!(name_suffix, ".scpt");
            assert!(content.contains("/usr/local/bin/emacsclient"));
            assert!(content.contains("--no-wait"));
        },
        _ => panic!("install must render the launcher script first"),
    }

    let (phase, action) = installer
        .install_step(phase, Event::CreatedAt { path: String::from("/tmp/script.scpt") })
        .unwrap();
    assert_eq!(phase, Phase::RunningTool);
    match action {
        Action::RunTool { program, args } => {
            assert_eq!(program, "osacompile");
            assert_eq!(
                args,
                vec![
                    String::from("-o"),
                    String::from("/Applications/OrgProtocolClient.app"),
                    String::from("/tmp/script.scpt"),
                ]
            );
        },
        _ => panic!("install must compile the script after writing it"),
    }

    let (phase, action) = installer.install_step(phase, Event::Succeeded).unwrap();
    assert_eq!(phase, Phase::ReadingPlist);
    match action {
        Action::ReadFile { path } => {
            assert_eq!(path, "/Applications/OrgProtocolClient.app/Contents/Info.plist")
        },
        _ => panic!("install must read the bundle's property list"),
    }

    let plist = "<?xml version=\"1.0\"?><plist version=\"1.0\"><dict></dict></plist>";
    let (phase, action) = installer
        .install_step(phase, Event::ReadContent { content: String::from(plist) })
        .unwrap();
    assert_eq!(phase, Phase::ReplacingPlist);
    match action {
        Action::ReplaceFile { path, content } => {
            assert_eq!(path, "/Applications/OrgProtocolClient.app/Contents/Info.plist");
            let expect = format!(
                "<?xml version=\"1.0\"?><plist version=\"1.0\"><dict>{}</dict></plist>",
                url_association_fragment()
            );
            assert_eq!(content, expect);
        },
        _ => panic!("install must replace the property list with the rewritten one"),
    }

    let (phase, action) = installer.install_step(phase, Event::Succeeded).unwrap();
    assert_eq!(phase, Phase::Finished);
    match action {
        Action::Done { message } => assert!(message.contains("by hand")),
        _ => panic!("install must finish by telling the operator what is left to do"),
    }
}

#[test]
fn macos_install_rejects_plist_without_dictionary() {
    let installer = macos_installer::new(MacOSConfig {
        emacsclient_path: String::from("/usr/local/bin/emacsclient"),
    });

    let (phase, _) = installer.install_step(Phase::Ready, Event::Begin).unwrap();
    let (phase, _) = installer
        .install_step(phase, Event::CreatedAt { path: String::from("/tmp/script.scpt") })
        .unwrap();
    let (phase, _) = installer.install_step(phase, Event::Succeeded).unwrap();
    let result = installer.install_step(
        phase,
        Event::ReadContent { content: String::from("<?xml version=\"1.0\"?><plist></plist>") },
    );

    match result {
        Err(InstallError::MalformedInput { message }) => {
            assert_eq!(message, "the property list has no dictionary element")
        },
        _ => panic!("a plist without a dictionary must be rejected"),
    }
}

#[test]
fn macos_install_rejects_plist_with_malformed_tail() {
    let installer = macos_installer::new(MacOSConfig {
        emacsclient_path: String::from("/usr/local/bin/emacsclient"),
    });

    let (phase, _) = installer.install_step(Phase::Ready, Event::Begin).unwrap();
    let (phase, _) = installer
        .install_step(phase, Event::CreatedAt { path: String::from("/tmp/script.scpt") })
        .unwrap();
    let (phase, _) = installer.install_step(phase, Event::Succeeded).unwrap();
    let result = installer.install_step(
        phase,
        Event::ReadContent { content: String::from("</dict><") },
    );

    match result {
        Err(InstallError::MalformedInput { message }) => {
            assert_eq!(message, "the property list is not well-formed XML")
        },
        _ => panic!("a plist with a malformed tail must be rejected before any replacement"),
    }
}

#[test]
fn macos_uninstall_missing_bundle_is_success() {
    let installer = macos_installer::new(MacOSConfig {
        emacsclient_path: String::from("/usr/local/bin/emacsclient"),
    });

    let (phase, action) = installer.uninstall_step(Phase::Ready, Event::Begin).unwrap();
    assert_eq!(phase, Phase::RemovingArtifact);
    match action {
        Action::RemovePath { path } => {
            assert_eq!(path, "/Applications/OrgProtocolClient.app")
        },
        _ => panic!("uninstall must remove the helper bundle"),
    }

    let (phase, action) = installer.uninstall_step(phase, Event::Missing).unwrap();
    assert_eq!(phase, Phase::Finished);
    match action {
        Action::Done { message } => assert!(message.contains("successfully")),
        _ => panic!("an absent bundle must still finish successfully"),
    }
}

#[test]
fn factory_selects_matching_installer() {
    let config = Config {
        target: OsType::Linux,
        mode: ExecutionMode::Install,
        linux_config: Some(linux_config()),
        macos_config: None,
    };
    match make_installer(config) {
        Ok(Installer::Linux(inst)) => {
            assert_eq!(inst.config.desktop_entry_directory, "/tmp/x")
        },
        _ => panic!("a Linux configuration must select the Linux installer"),
    }

    let config = Config {
        target: OsType::Mac,
        mode: ExecutionMode::Uninstall,
        linux_config: None,
        macos_config: Some(MacOSConfig { emacsclient_path: String::from("/usr/bin/emacsclient") }),
    };
    match make_installer(config) {
        Ok(Installer::MacOS(inst)) => {
            assert_eq!(inst.config.emacsclient_path, "/usr/bin/emacsclient")
        },
        _ => panic!("a macOS configuration must select the macOS installer"),
    }
}

#[test]
fn factory_rejects_mismatched_or_incomplete_configuration() {
    let config = Config {
        target: OsType::Linux,
        mode: ExecutionMode::Install,
        linux_config: None,
        macos_config: Some(MacOSConfig { emacsclient_path: String::from("/usr/bin/emacsclient") }),
    };
    match make_installer(config) {
        Err(InstallError::Configuration { message }) => {
            assert_eq!(message, "Can not detect OS type")
        },
        _ => panic!("a mismatched configuration must be rejected"),
    }

    let config = Config {
        target: OsType::Mac,
        mode: ExecutionMode::Install,
        linux_config: None,
        macos_config: Some(MacOSConfig { emacsclient_path: String::from("") }),
    };
    match make_installer(config) {
        Err(InstallError::Configuration { message }) => {
            assert_eq!(message, "The emacsclient path must not be empty")
        },
        _ => panic!("an empty client path must be rejected before an installer exists"),
    }

    let config = Config {
        target: OsType::Linux,
        mode: ExecutionMode::Install,
        linux_config: Some(LinuxConfig {
            desktop_entry_directory: String::from("/tmp/x"),
            desktop_file_name: String::from(""),
        }),
        macos_config: None,
    };
    match make_installer(config) {
        Err(InstallError::Configuration { message }) => {
            assert_eq!(message, "The desktop file name must not be empty")
        },
        _ => panic!("an empty desktop file name must be rejected before an installer exists"),
    }
}
