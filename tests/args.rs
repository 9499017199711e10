use code_cli::args::{
    Cli, CodeServerArgs, DesktopCodeOptions, EditorOptions, EditorTroubleshooting, ExtensionArgs,
    ExtensionSubcommand, GlobalOptions, InstallExtensionArgs, Level, ListExtensionArgs, SyncState,
    TelemetryLevel, UninstallExtensionArgs,
};

fn s(v: &[&str]) -> Vec<String> {
    v.iter().map(|x| x.to_string()).collect()
}

#[test]
fn desktop_options_add_dirs() {
    let o = DesktopCodeOptions {
        extensions_dir: Some("/ext".to_string()),
        user_data_dir: Some("/data".to_string()),
        use_version: Some("stable".to_string()),
    };
    let mut t = s(&["first"]);
    o.add_code_args(&mut t);
    assert_eq!(t, s(&["first", "--extensions-dir=/ext", "--user-data-dir=/data"]));
}

#[test]
fn editor_options_all_fields() {
    let o = EditorOptions {
        diff: s(&["a.txt", "b.txt"]),
        add: Some("folder".to_string()),
        goto: Some("f.rs:3:4".to_string()),
        new_window: true,
        reuse_window: true,
        wait: true,
        locale: Some("en-US".to_string()),
        enable_proposed_api: s(&["x.y", "z.w"]),
        code_options: DesktopCodeOptions {
            extensions_dir: None,
            user_data_dir: Some("/u".to_string()),
            use_version: None,
        },
    };
    let mut t = Vec::new();
    o.add_code_args(&mut t);
    assert_eq!(
        t,
        s(&[
            "--diff",
            "a.txt",
            "b.txt",
            "--add",
            "folder",
            "--goto",
            "f.rs:3:4",
            "--new-window",
            "--reuse-window",
            "--wait",
            "--locale=en-US",
            "--enable-proposed-api=x.y",
            "--enable-proposed-api=z.w",
            "--user-data-dir=/u",
        ])
    );
}

#[test]
fn editor_options_empty_adds_nothing() {
    let o = EditorOptions::default();
    let mut t = s(&["keep"]);
    o.add_code_args(&mut t);
    assert_eq!(t, s(&["keep"]));
}

#[test]
fn global_options_levels() {
    let o = GlobalOptions {
        cli_data_dir: Some("/d".to_string()),
        verbose: true,
        log: Some(Level::Warn),
        disable_telemetry: true,
        telemetry_level: Some(TelemetryLevel::Crash),
    };
    let mut t = Vec::new();
    o.add_code_args(&mut t);
    assert_eq!(
        t,
        s(&["--verbose", "--log=warn", "--disable-telemetry", "--telemetry-level=crash"])
    );
}

#[test]
fn troubleshooting_numbers_in_decimal() {
    let o = EditorTroubleshooting {
        prof_startup: true,
        disable_extensions: true,
        disable_extension: s(&["a.b"]),
        sync: Some(SyncState::Off),
        inspect_extensions: Some(9229),
        inspect_brk_extensions: Some(0),
        disable_gpu: true,
        max_memory: Some(4096),
        telemetry: true,
    };
    let mut t = Vec::new();
    o.add_code_args(&mut t);
    assert_eq!(
        t,
        s(&[
            "--prof-startup",
            "--disable-extensions",
            "--disable-extension=a.b",
            "--sync=off",
            "--inspect-extensions=9229",
            "--inspect-brk-extensions=0",
            "--disable-gpu",
            "--max-memory=4096",
            "--telemetry",
        ])
    );
}

#[test]
fn troubleshooting_largest_port() {
    let o = EditorTroubleshooting {
        inspect_extensions: Some(65535),
        sync: Some(SyncState::On),
        ..Default::default()
    };
    let mut t = Vec::new();
    o.add_code_args(&mut t);
    assert_eq!(t, s(&["--sync=on", "--inspect-extensions=65535"]));
}

#[test]
fn extension_list_args() {
    let a = ExtensionArgs {
        subcommand: ExtensionSubcommand::List(ListExtensionArgs {
            category: Some("themes".to_string()),
            show_versions: true,
        }),
        desktop_code_options: DesktopCodeOptions {
            extensions_dir: Some("/ext".to_string()),
            ..Default::default()
        },
    };
    let mut t = Vec::new();
    a.add_code_args(&mut t);
    assert_eq!(t, s(&["/ext", "--list-extensions", "--show-versions", "--category=themes"]));
}

#[test]
fn extension_install_args() {
    let sub = ExtensionSubcommand::Install(InstallExtensionArgs {
        id_or_path: s(&["vscode.csharp@1.2.3", "x.vsix"]),
        pre_release: true,
        force: true,
    });
    let mut t = Vec::new();
    sub.add_code_args(&mut t);
    assert_eq!(
        t,
        s(&[
            "--install-extension=vscode.csharp@1.2.3",
            "--install-extension=x.vsix",
            "--pre-release",
            "--force",
        ])
    );
}

#[test]
fn extension_uninstall_args() {
    let sub = ExtensionSubcommand::Uninstall(UninstallExtensionArgs { id: s(&["a.b", "c.d"]) });
    let mut t = Vec::new();
    sub.add_code_args(&mut t);
    assert_eq!(t, s(&["--uninstall-extension=a.b", "--uninstall-extension=c.d"]));
}

#[test]
fn base_code_args_in_order() {
    let cli = Cli {
        open_paths: s(&["file.txt", "dir"]),
        editor_options: EditorOptions { wait: true, ..Default::default() },
        troubleshooting: EditorTroubleshooting { disable_gpu: true, ..Default::default() },
        global_options: GlobalOptions { verbose: true, ..Default::default() },
        subcommand: None,
    };
    assert_eq!(
        cli.get_base_code_args(),
        s(&["file.txt", "dir", "--wait", "--disable-gpu", "--verbose"])
    );
}

#[test]
fn server_args_telemetry_disabled_wins() {
    let cli = Cli {
        global_options: GlobalOptions {
            log: Some(Level::Debug),
            verbose: true,
            disable_telemetry: true,
            telemetry_level: Some(TelemetryLevel::All),
            ..Default::default()
        },
        ..Default::default()
    };
    let a = CodeServerArgs::from_cli(&cli);
    assert_eq!(a.log, Some(Level::Debug));
    assert!(a.accept_server_license_terms);
    assert!(a.verbose);
    assert_eq!(a.telemetry_level, Some(TelemetryLevel::Off));
}

#[test]
fn server_args_telemetry_level_kept() {
    let cli = Cli {
        global_options: GlobalOptions {
            telemetry_level: Some(TelemetryLevel::Error),
            ..Default::default()
        },
        ..Default::default()
    };
    let a = CodeServerArgs::from_cli(&cli);
    assert_eq!(a.telemetry_level, Some(TelemetryLevel::Error));
    assert!(!a.verbose);
    assert_eq!(a.log, None);
}
