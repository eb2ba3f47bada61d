//! The extensions themselves: what each launches, and when it cannot.
use vstd::prelude::*;
use crate::command::{plain_command, Command};
use crate::platform::{binary_extension, Os, PlatformTag};
use crate::provisioner::{
    announced, initial, transition, well_formed, Action, ActionView, Event, EventView, Phase,
    Provisioner, ProvisionerView,
};
use crate::release::{binary_path, ReleaseView, Tool, ToolView};
use crate::text::{join_text, opt_text};

verus! {

/// Runs the `pype` language server, which must be installed on the search
/// path.
#[derive(Clone, Copy, Debug)]
pub struct BioPypeExtension;

/// What is reported when `pype` is not on the search path.
pub open spec fn pype_missing_text() -> Seq<char> {
    "pype not found in PATH. Install with: pip install --user bio-pype"@
}

impl BioPypeExtension {
    pub fn new() -> (r: BioPypeExtension) {
        BioPypeExtension
    }

    /// The launch command, given where `pype` was found on the search path:
    /// `<pype> validate lsp --stdio`, or an error that tells how to install
    /// it when it was not found.
    pub fn language_server_command(&mut self, pype_path: Option<String>) -> (r: Result<
        Command,
        String,
    >)
        ensures
            match pype_path {
                Some(path) => r is Ok && r->Ok_0@ == plain_command(
                    path@,
                    seq!["validate"@, "lsp"@, "--stdio"@],
                ),
                None => r is Err && r->Err_0@ == pype_missing_text(),
            },
    {
        match pype_path {
            Some(path) => Ok(
                Command::with_three_args(path, String::from_str("validate"), "lsp", "--stdio"),
            ),
            None => Err(
                String::from_str("pype not found in PATH. Install with: pip install --user bio-pype"),
            ),
        }
    }
}

/// Runs `rust-analyzer` from the search path.
#[derive(Clone, Copy, Debug)]
pub struct SotaRustAnalyzer;

impl SotaRustAnalyzer {
    pub fn new() -> (r: SotaRustAnalyzer) {
        SotaRustAnalyzer
    }

    /// The launch command: always `rust-analyzer --stdio`.
    pub fn language_server_command(&mut self) -> (r: Result<Command, String>)
        ensures
            r is Ok,
            r->Ok_0@ == plain_command("rust-analyzer"@, seq!["--stdio"@]),
    {
        Ok(Command::with_one_arg(String::from_str("rust-analyzer"), "--stdio"))
    }
}

/// Runs the web components language server, a script bundled with the
/// extension, under the host's `node`.
#[derive(Clone, Copy, Debug)]
pub struct WebComponentsExtension;

/// What is reported when the extension's own directory is unknown.
pub open spec fn root_failure_text(cause: Seq<char>) -> Seq<char> {
    "failed to resolve extension root: "@ + cause
}

/// What is reported when the bundled script is not where it belongs.
pub open spec fn missing_script_text(script: Seq<char>) -> Seq<char> {
    "missing bundled language server at "@ + script
        + ". Run `pnpm dev` (or `pnpm --filter @wc-toolkit/zed run build`) to generate it."@
}

/// Which script to run: the override if there is one; else the bundled script
/// if the extension's directory is known and the script exists.
pub open spec fn server_script(
    custom: Option<Seq<char>>,
    bundled: Result<(Seq<char>, bool), Seq<char>>,
) -> Result<Seq<char>, Seq<char>> {
    match custom {
        Some(path) => Ok(path),
        None => match bundled {
            Ok((script, exists)) => if exists {
                Ok(script)
            } else {
                Err(missing_script_text(script))
            },
            Err(cause) => Err(root_failure_text(cause)),
        },
    }
}

/// A result over strings as a result over character sequences.
pub open spec fn result_text(r: Result<String, String>) -> Result<Seq<char>, Seq<char>> {
    match r {
        Ok(s) => Ok(s@),
        Err(e) => Err(e@),
    }
}

/// The bundled lookup as character sequences.
pub open spec fn bundled_text(b: Result<(String, bool), String>) -> Result<(Seq<char>, bool), Seq<char>> {
    match b {
        Ok((script, exists)) => Ok((script@, exists)),
        Err(cause) => Err(cause@),
    }
}

impl WebComponentsExtension {
    pub fn new() -> (r: WebComponentsExtension) {
        WebComponentsExtension
    }

    /// Path of the bundled script below the extension's own directory.
    pub fn server_relative_path() -> (r: &'static str)
        ensures
            r@ == "server/bin/wc-language-server.js"@,
    {
        "server/bin/wc-language-server.js"
    }

    /// Name of the environment variable that overrides the bundled script.
    pub fn custom_server_env() -> (r: &'static str)
        ensures
            r@ == "WC_LANGUAGE_SERVER_BINARY"@,
    {
        "WC_LANGUAGE_SERVER_BINARY"
    }

    /// Which script to run. `custom` is the value of the override variable
    /// if it is set; `bundled` is the bundled script's path with whether it
    /// exists, or why the extension's own directory could not be told.
    pub fn resolve_server_script(
        &self,
        custom: Option<String>,
        bundled: Result<(String, bool), String>,
    ) -> (r: Result<String, String>)
        ensures
            result_text(r) == server_script(opt_text(custom), bundled_text(bundled)),
    {
        match custom {
            Some(path) => Ok(path),
            None => match bundled {
                Ok((script, exists)) => {
                    if exists {
                        Ok(script)
                    } else {
                        let mut text = join_text("missing bundled language server at ", script.as_str());
                        text.append(
                            ". Run `pnpm dev` (or `pnpm --filter @wc-toolkit/zed run build`) to generate it.",
                        );
                        Err(text)
                    }
                },
                Err(cause) => Err(join_text("failed to resolve extension root: ", cause.as_str())),
            },
        }
    }

    /// The initialization options for the server: those of the server's
    /// settings. `settings` holds the options found in the settings, or
    /// nothing if the settings could not be read.
    pub fn language_server_initialization_options<V>(&mut self, settings: Option<Option<V>>) -> (r:
        Result<Option<V>, String>)
        ensures
            r == Ok::<Option<V>, String>(
                match settings {
                    Some(options) => options,
                    None => None,
                },
            ),
    {
        match settings {
            Some(options) => Ok(options),
            None => Ok(None),
        }
    }

    /// The workspace configuration for the server: that of the server's
    /// settings, and `fallback` where the settings hold none or could not be
    /// read.
    pub fn language_server_workspace_configuration<V>(
        &mut self,
        settings: Option<Option<V>>,
        fallback: V,
    ) -> (r: Result<Option<V>, String>)
        ensures
            r == Ok::<Option<V>, String>(
                Some(
                    match settings {
                        Some(Some(configuration)) => configuration,
                        _ => fallback,
                    },
                ),
            ),
    {
        match settings {
            Some(Some(configuration)) => Ok(Some(configuration)),
            _ => Ok(Some(fallback)),
        }
    }

    /// The launch command: `<node> <script> --stdio`.
    pub fn language_server_command(&mut self, node: String, script: String) -> (r: Result<
        Command,
        String,
    >)
        ensures
            r is Ok,
            r->Ok_0@ == plain_command(node@, seq![script@, "--stdio"@]),
    {
        Ok(Command::with_two_args(node, script, "--stdio"))
    }
}

/// What the host shows and checks when the user configures a context server.
#[derive(Clone, Debug, PartialEq, Eq)]
pub struct ContextServerConfiguration {
    pub installation_instructions: String,
    pub default_settings: String,
    pub settings_schema: String,
}

pub struct ContextServerConfigurationView {
    pub installation_instructions: Seq<char>,
    pub default_settings: Seq<char>,
    pub settings_schema: Seq<char>,
}

impl View for ContextServerConfiguration {
    type V = ContextServerConfigurationView;

    open spec fn view(&self) -> ContextServerConfigurationView {
        ContextServerConfigurationView {
            installation_instructions: self.installation_instructions@,
            default_settings: self.default_settings@,
            settings_schema: self.settings_schema@,
        }
    }
}

/// Runs the context engine, an npm package, under the host's `node`.
#[derive(Clone, Copy, Debug)]
pub struct AugmentContextEngineExtension;

impl AugmentContextEngineExtension {
    pub fn new() -> (r: AugmentContextEngineExtension) {
        AugmentContextEngineExtension
    }

    /// Name of the npm package.
    pub fn package_name() -> (r: &'static str)
        ensures
            r@ == "@augmentcode/auggie"@,
    {
        "@augmentcode/auggie"
    }

    /// The version of the package to have installed.
    pub fn package_version() -> (r: &'static str)
        ensures
            r@ == "latest"@,
    {
        "latest"
    }

    /// Path of the server's entry script below the extension's own directory.
    pub fn server_path() -> (r: &'static str)
        ensures
            r@ == "node_modules/@augmentcode/auggie/augment.mjs"@,
    {
        "node_modules/@augmentcode/auggie/augment.mjs"
    }

    /// Whether the package has to be installed: always, unless the installed
    /// version is reported as exactly the wanted one.
    pub fn needs_install(installed: &Option<String>) -> (r: bool)
        ensures
            r == (opt_text(*installed) != Some("latest"@)),
    {
        match installed {
            Some(version) => {
                let wanted = String::from_str("latest");
                !(*version == wanted)
            },
            None => true,
        }
    }

    /// The configuration of the context server, given the schema of its
    /// settings as text, or why the schema could not be written out: the
    /// three texts together, or that reason.
    pub fn context_server_configuration(
        &mut self,
        installation_instructions: String,
        default_settings: String,
        settings_schema: Result<String, String>,
    ) -> (r: Result<Option<ContextServerConfiguration>, String>)
        ensures
            match settings_schema {
                Ok(schema) => r is Ok && r->Ok_0 is Some && r->Ok_0->Some_0@ == (
                ContextServerConfigurationView {
                    installation_instructions: installation_instructions@,
                    default_settings: default_settings@,
                    settings_schema: schema@,
                }),
                Err(cause) => r is Err && r->Err_0@ == cause@,
            },
    {
        match settings_schema {
            Ok(schema) => Ok(
                Some(
                    ContextServerConfiguration {
                        installation_instructions,
                        default_settings,
                        settings_schema: schema,
                    },
                ),
            ),
            Err(cause) => Err(cause),
        }
    }

    /// The launch command: `<node> <script> --mcp --mcp-auto-workspace`.
    pub fn context_server_command(&mut self, node: String, script: String) -> (r: Result<
        Command,
        String,
    >)
        ensures
            r is Ok,
            r->Ok_0@ == plain_command(node@, seq![script@, "--mcp"@, "--mcp-auto-workspace"@]),
    {
        Ok(Command::with_three_args(node, script, "--mcp", "--mcp-auto-workspace"))
    }
}

/// Runs the `zk` language server: the one on the search path if there is
/// one, else the latest release, which it keeps installed in the working
/// directory.
#[derive(Debug)]
pub struct ZkExtension {
    provisioner: Provisioner,
}

/// The tool that [`ZkExtension`] provisions: its executable lies in the
/// `bin` directory of each installed version.
pub open spec fn zk_tool() -> ToolView {
    ToolView { name: "zk"@, repository: "zk-org/zk"@, binary_dir: "bin/"@ }
}

/// The executable of an installed version of `zk` is
/// `zk-<version>/bin/zk`, with `.exe` behind it on Windows. This is the path
/// that is checked, made executable, handed out and remembered.
pub proof fn lemma_zk_binary_path(version: Seq<char>, os: Os)
    ensures
        binary_path(zk_tool(), version, os) == "zk-"@ + version + "/bin/zk"@ + binary_extension(os),
{
    reveal_strlit("zk");
    reveal_strlit("-");
    reveal_strlit("/");
    reveal_strlit("bin/");
    reveal_strlit("zk-");
    reveal_strlit("/bin/zk");
    assert("zk"@ + "-"@ =~= "zk-"@);
    assert("/"@ + "bin/"@ + "zk"@ =~= "/bin/zk"@);
    assert(binary_path(zk_tool(), version, os) =~= "zk-"@ + version + "/bin/zk"@ + binary_extension(os));
}

/// When the resolved version of `zk` is already installed, no step of the
/// request downloads anything, makes anything executable or announces a
/// download, and the request ends with `zk-<version>/bin/zk` (with `.exe`
/// behind it on Windows), which is then remembered.
pub proof fn lemma_installed_zk_is_reused(
    s: ProvisionerView,
    release: ReleaseView,
    names: Seq<Option<Seq<char>>>,
    failed: nat,
)
    requires
        s.tool == zk_tool(),
        s.phase == Phase::CheckingInstalled,
        s.release == Some(release),
    ensures
        ({
            let path = "zk-"@ + release.version + "/bin/zk"@ + binary_extension(s.platform.os);
            let (s1, a1) = transition(s, EventView::FileChecked(true));
            let (s2, a2) = transition(s1, EventView::Listed(names));
            let (s3, a3) = transition(s2, EventView::Removed(failed));
            &&& a1 == ActionView::ListEntries
            &&& a2 is Remove
            &&& a3 == ActionView::Finish(Ok(path))
            &&& s3.cache == Some(path)
            &&& announced(a1) is None && announced(a2) is None && announced(a3) is None
        }),
{
    lemma_zk_binary_path(release.version, s.platform.os);
}

impl View for ZkExtension {
    type V = ProvisionerView;

    closed spec fn view(&self) -> ProvisionerView {
        self.provisioner@
    }
}

impl ZkExtension {
    /// An extension that was asked nothing yet and remembers nothing.
    pub fn new(platform: PlatformTag) -> (r: ZkExtension)
        ensures
            r@ == initial(zk_tool(), platform),
    {
        let tool = Tool::new(
            String::from_str("zk"),
            String::from_str("zk-org/zk"),
            String::from_str("bin/"),
        );
        ZkExtension { provisioner: Provisioner::new(tool, platform) }
    }

    /// One step towards the path of a runnable `zk`: takes in what happened
    /// since the last step and answers with what to do next.
    pub fn language_server_binary_path(&mut self, event: Event) -> (action: Action)
        ensures
            (final(self)@, action@) == transition(old(self)@, event@),
            well_formed(old(self)@) ==> well_formed(final(self)@),
    {
        self.provisioner.step(event)
    }

    /// The launch command for the binary at `binary_path`: `<binary> lsp`.
    pub fn language_server_command(&self, binary_path: String) -> (r: Result<Command, String>)
        ensures
            r is Ok,
            r->Ok_0@ == plain_command(binary_path@, seq!["lsp"@]),
    {
        Ok(Command::with_one_arg(binary_path, "lsp"))
    }
}

} // verus!
