use editor_extensions::command::Command;
use editor_extensions::extensions::{
    AugmentContextEngineExtension, BioPypeExtension, SotaRustAnalyzer, WebComponentsExtension,
    ZkExtension,
};
use editor_extensions::platform::{ArchiveKind, Architecture, Os, PlatformTag};
use editor_extensions::provisioner::{Action, Event, Status};
use editor_extensions::release::{Asset, Release, ReleaseFilter};

fn strings(list: &[&str]) -> Vec<String> {
    list.iter().map(|s| s.to_string()).collect()
}

#[test]
fn pype_is_launched_from_the_path() {
    let mut ext = BioPypeExtension::new();
    let cmd = ext.language_server_command(Some("/home/u/.local/bin/pype".to_string())).unwrap();
    assert_eq!(
        cmd,
        Command {
            command: "/home/u/.local/bin/pype".to_string(),
            args: strings(&["validate", "lsp", "--stdio"]),
            env: vec![],
        }
    );
}

#[test]
fn missing_pype_tells_how_to_install_it() {
    let mut ext = BioPypeExtension::new();
    assert_eq!(
        ext.language_server_command(None),
        Err("pype not found in PATH. Install with: pip install --user bio-pype".to_string())
    );
}

#[test]
fn rust_analyzer_is_launched_over_stdio() {
    let mut ext = SotaRustAnalyzer::new();
    let cmd = ext.language_server_command().unwrap();
    assert_eq!(cmd.command, "rust-analyzer");
    assert_eq!(cmd.args, strings(&["--stdio"]));
    assert!(cmd.env.is_empty());
}

#[test]
fn custom_server_script_wins() {
    let ext = WebComponentsExtension::new();
    assert_eq!(
        ext.resolve_server_script(Some("/opt/custom.js".to_string()), Err("no cwd".to_string())),
        Ok("/opt/custom.js".to_string())
    );
    assert_eq!(
        ext.resolve_server_script(
            Some("/opt/custom.js".to_string()),
            Ok(("/ext/server/bin/wc-language-server.js".to_string(), true))
        ),
        Ok("/opt/custom.js".to_string())
    );
}

#[test]
fn bundled_server_script_is_used_when_present() {
    let ext = WebComponentsExtension::new();
    assert_eq!(
        ext.resolve_server_script(None, Ok(("/ext/server/bin/wc-language-server.js".to_string(), true))),
        Ok("/ext/server/bin/wc-language-server.js".to_string())
    );
}

#[test]
fn missing_bundled_server_script_is_reported() {
    let ext = WebComponentsExtension::new();
    assert_eq!(
        ext.resolve_server_script(None, Ok(("/ext/server/bin/wc-language-server.js".to_string(), false))),
        Err("missing bundled language server at /ext/server/bin/wc-language-server.js. Run `pnpm dev` (or `pnpm --filter @wc-toolkit/zed run build`) to generate it.".to_string())
    );
}

#[test]
fn unknown_extension_root_is_reported() {
    let ext = WebComponentsExtension::new();
    assert_eq!(
        ext.resolve_server_script(None, Err("No such file or directory".to_string())),
        Err("failed to resolve extension root: No such file or directory".to_string())
    );
}

#[test]
fn web_components_names() {
    assert_eq!(WebComponentsExtension::server_relative_path(), "server/bin/wc-language-server.js");
    assert_eq!(WebComponentsExtension::custom_server_env(), "WC_LANGUAGE_SERVER_BINARY");
}

#[test]
fn web_components_server_runs_under_node() {
    let mut ext = WebComponentsExtension::new();
    let cmd = ext.language_server_command("/bin/node".to_string(), "/ext/s.js".to_string()).unwrap();
    assert_eq!(cmd.command, "/bin/node");
    assert_eq!(cmd.args, strings(&["/ext/s.js", "--stdio"]));
    assert!(cmd.env.is_empty());
}

#[test]
fn context_engine_is_installed_unless_latest() {
    assert!(AugmentContextEngineExtension::needs_install(&None));
    assert!(AugmentContextEngineExtension::needs_install(&Some("1.2.3".to_string())));
    assert!(AugmentContextEngineExtension::needs_install(&Some("Latest".to_string())));
    assert!(!AugmentContextEngineExtension::needs_install(&Some("latest".to_string())));
}

#[test]
fn context_engine_names() {
    assert_eq!(AugmentContextEngineExtension::package_name(), "@augmentcode/auggie");
    assert_eq!(AugmentContextEngineExtension::package_version(), "latest");
    assert_eq!(
        AugmentContextEngineExtension::server_path(),
        "node_modules/@augmentcode/auggie/augment.mjs"
    );
}

#[test]
fn context_engine_runs_under_node() {
    let mut ext = AugmentContextEngineExtension::new();
    let cmd = ext.context_server_command("/bin/node".to_string(), "/ext/augment.mjs".to_string()).unwrap();
    assert_eq!(cmd.command, "/bin/node");
    assert_eq!(cmd.args, strings(&["/ext/augment.mjs", "--mcp", "--mcp-auto-workspace"]));
    assert!(cmd.env.is_empty());
}

#[test]
fn zk_is_launched_as_a_language_server() {
    let ext = ZkExtension::new(PlatformTag::new(Os::Linux, Architecture::X8664));
    let cmd = ext.language_server_command("zk-0.14.1/bin/zk".to_string()).unwrap();
    assert_eq!(cmd.command, "zk-0.14.1/bin/zk");
    assert_eq!(cmd.args, strings(&["lsp"]));
    assert!(cmd.env.is_empty());
}

#[test]
fn zk_prefers_the_path_then_the_feed() {
    let mut ext = ZkExtension::new(PlatformTag::new(Os::Mac, Architecture::X8664));
    assert_eq!(ext.language_server_binary_path(Event::Requested), Action::FindOnPath("zk".to_string()));
    assert_eq!(
        ext.language_server_binary_path(Event::PathSearched(None)),
        Action::ResolveLatest {
            repository: "zk-org/zk".to_string(),
            filter: ReleaseFilter { require_assets: true, pre_release: false },
        }
    );
    let release = Release {
        version: "0.14.1".to_string(),
        assets: vec![Asset {
            name: "zk-0.14.1-macos-x86_64.tar.gz".to_string(),
            download_url: "https://feed.invalid/zk".to_string(),
        }],
    };
    assert_eq!(
        ext.language_server_binary_path(Event::Resolved(release)),
        Action::CheckFile("zk-0.14.1/bin/zk".to_string())
    );
    assert_eq!(
        ext.language_server_binary_path(Event::FileChecked(false)),
        Action::Download {
            url: "https://feed.invalid/zk".to_string(),
            directory: "zk-0.14.1".to_string(),
            archive: ArchiveKind::GzipTar,
        }
    );
    assert_eq!(
        ext.language_server_binary_path(Event::Downloaded),
        Action::MakeExecutable("zk-0.14.1/bin/zk".to_string())
    );
    assert_eq!(ext.language_server_binary_path(Event::MadeExecutable), Action::ListEntries);
    assert_eq!(
        ext.language_server_binary_path(Event::Listed(vec![
            Some("zk-0.13.0".to_string()),
            Some("zk-0.14.1".to_string()),
        ])),
        Action::Remove(vec![0])
    );
    assert_eq!(
        ext.language_server_binary_path(Event::Removed(0)),
        Action::Finish(Ok("zk-0.14.1/bin/zk".to_string()))
    );
}

fn zk_release_1_0_0() -> Release {
    Release {
        version: "1.0.0".to_string(),
        assets: vec![Asset {
            name: "zk-1.0.0-linux-amd64.tar.gz".to_string(),
            download_url: "u1".to_string(),
        }],
    }
}

#[test]
fn installed_zk_is_neither_downloaded_nor_touched() {
    let mut ext = ZkExtension::new(PlatformTag::new(Os::Linux, Architecture::X8664));
    let mut actions = Vec::new();
    actions.push(ext.language_server_binary_path(Event::Requested));
    actions.push(ext.language_server_binary_path(Event::PathSearched(None)));
    actions.push(ext.language_server_binary_path(Event::Resolved(zk_release_1_0_0())));
    assert_eq!(actions[2], Action::CheckFile("zk-1.0.0/bin/zk".to_string()));
    actions.push(ext.language_server_binary_path(Event::FileChecked(true)));
    actions.push(ext.language_server_binary_path(Event::Listed(vec![Some("zk-1.0.0".to_string())])));
    actions.push(ext.language_server_binary_path(Event::Removed(0)));
    let downloads = actions.iter().filter(|a| matches!(a, Action::Download { .. })).count();
    let made_executable = actions.iter().filter(|a| matches!(a, Action::MakeExecutable(_))).count();
    assert_eq!(downloads, 0);
    assert_eq!(made_executable, 0);
    assert!(actions.iter().all(|a| a.status() != Some(Status::Downloading)));
    assert_eq!(actions[3], Action::ListEntries);
    assert_eq!(actions[4], Action::Remove(vec![]));
}

#[test]
fn installed_zk_is_handed_out_and_remembered_under_bin() {
    let mut ext = ZkExtension::new(PlatformTag::new(Os::Linux, Architecture::X8664));
    ext.language_server_binary_path(Event::Requested);
    ext.language_server_binary_path(Event::PathSearched(None));
    ext.language_server_binary_path(Event::Resolved(zk_release_1_0_0()));
    ext.language_server_binary_path(Event::FileChecked(true));
    ext.language_server_binary_path(Event::Listed(vec![Some("zk-1.0.0".to_string())]));
    assert_eq!(
        ext.language_server_binary_path(Event::Removed(0)),
        Action::Finish(Ok("zk-1.0.0/bin/zk".to_string()))
    );
    assert_eq!(
        ext.language_server_binary_path(Event::Requested),
        Action::CheckFile("zk-1.0.0/bin/zk".to_string())
    );
    assert_eq!(
        ext.language_server_binary_path(Event::FileChecked(true)),
        Action::Finish(Ok("zk-1.0.0/bin/zk".to_string()))
    );
}

#[test]
fn zk_on_windows_carries_the_exe_suffix_under_bin() {
    let mut ext = ZkExtension::new(PlatformTag::new(Os::Windows, Architecture::X8664));
    ext.language_server_binary_path(Event::Requested);
    ext.language_server_binary_path(Event::PathSearched(None));
    let release = Release {
        version: "1.0.0".to_string(),
        assets: vec![Asset {
            name: "zk-1.0.0-windows-amd64.tar.gz".to_string(),
            download_url: "u2".to_string(),
        }],
    };
    assert_eq!(
        ext.language_server_binary_path(Event::Resolved(release)),
        Action::CheckFile("zk-1.0.0/bin/zk.exe".to_string())
    );
}

#[test]
fn zk_on_the_path_is_taken_as_it_is() {
    let mut ext = ZkExtension::new(PlatformTag::new(Os::Linux, Architecture::Aarch64));
    ext.language_server_binary_path(Event::Requested);
    assert_eq!(
        ext.language_server_binary_path(Event::PathSearched(Some("/usr/local/bin/zk".to_string()))),
        Action::Finish(Ok("/usr/local/bin/zk".to_string()))
    );
}

#[test]
fn initialization_options_come_from_the_settings() {
    let mut ext = WebComponentsExtension::new();
    assert_eq!(ext.language_server_initialization_options(Some(Some(7))), Ok(Some(7)));
    assert_eq!(ext.language_server_initialization_options::<i32>(Some(None)), Ok(None));
    assert_eq!(ext.language_server_initialization_options::<i32>(None), Ok(None));
}

#[test]
fn workspace_configuration_falls_back_to_the_default() {
    let mut ext = WebComponentsExtension::new();
    assert_eq!(ext.language_server_workspace_configuration(Some(Some(7)), 0), Ok(Some(7)));
    assert_eq!(ext.language_server_workspace_configuration(Some(None), 0), Ok(Some(0)));
    assert_eq!(ext.language_server_workspace_configuration(None, 0), Ok(Some(0)));
}

#[test]
fn context_server_configuration_carries_the_three_texts() {
    let mut ext = AugmentContextEngineExtension::new();
    let configuration = ext
        .context_server_configuration("how".to_string(), "{}".to_string(), Ok("schema".to_string()))
        .unwrap()
        .unwrap();
    assert_eq!(configuration.installation_instructions, "how");
    assert_eq!(configuration.default_settings, "{}");
    assert_eq!(configuration.settings_schema, "schema");
}

#[test]
fn context_server_configuration_fails_without_a_schema() {
    let mut ext = AugmentContextEngineExtension::new();
    assert_eq!(
        ext.context_server_configuration("how".to_string(), "{}".to_string(), Err("bad".to_string())),
        Err("bad".to_string())
    );
}
