use vstd::prelude::*;
use vstd::seq_lib::lemma_concat_associative;
use vstd::string::*;
use crate::text::{
    each_joined, flag, joined, lemma_strs_push, opt_joined, opt_number, opt_pair, opt_plain, push_all, push_opt_pair,
    push_each_joined, push_flag, push_opt_joined, push_opt_number, strs,
};

verus! {

/// Log level of the launcher's own log output.
#[derive(Clone, Copy, Debug, PartialEq, Eq, Structural)]
pub enum Level {
    Trace,
    Debug,
    Info,
    Warn,
    Error,
    Critical,
    Off,
}

impl Level {
    pub open spec fn name(self) -> Seq<char> {
        match self {
            Level::Trace => "trace"@,
            Level::Debug => "debug"@,
            Level::Info => "info"@,
            Level::Warn => "warn"@,
            Level::Error => "error"@,
            Level::Critical => "critical"@,
            Level::Off => "off"@,
        }
    }

    /// The level's name as written on the command line.
    pub fn as_str(&self) -> (r: &'static str)
        ensures
            r@ == self.name(),
    {
        match self {
            Level::Trace => "trace",
            Level::Debug => "debug",
            Level::Info => "info",
            Level::Warn => "warn",
            Level::Error => "error",
            Level::Critical => "critical",
            Level::Off => "off",
        }
    }
}

/// How much telemetry the editor may send.
#[derive(Clone, Copy, Debug, PartialEq, Eq, Structural)]
pub enum TelemetryLevel {
    Off,
    Crash,
    Error,
    All,
}

impl TelemetryLevel {
    pub open spec fn name(self) -> Seq<char> {
        match self {
            TelemetryLevel::Off => "off"@,
            TelemetryLevel::Crash => "crash"@,
            TelemetryLevel::Error => "error"@,
            TelemetryLevel::All => "all"@,
        }
    }

    /// The level's name as written on the command line.
    pub fn as_str(&self) -> (r: &'static str)
        ensures
            r@ == self.name(),
    {
        match self {
            TelemetryLevel::Off => "off",
            TelemetryLevel::Crash => "crash",
            TelemetryLevel::Error => "error",
            TelemetryLevel::All => "all",
        }
    }
}

#[derive(Clone, Copy, Debug, PartialEq, Eq, Structural)]
pub enum SyncState {
    On,
    Off,
}

impl SyncState {
    pub open spec fn name(self) -> Seq<char> {
        match self {
            SyncState::On => "on"@,
            SyncState::Off => "off"@,
        }
    }

    /// `on` or `off`, as the editor expects it.
    pub fn as_str(&self) -> (r: &'static str)
        ensures
            r@ == self.name(),
    {
        match self {
            SyncState::On => "on",
            SyncState::Off => "off",
        }
    }
}

#[derive(Clone, Copy, Debug, PartialEq, Eq, Structural)]
pub enum OutputFormat {
    Json,
    Text,
}

#[derive(Clone, Copy, Debug, PartialEq, Eq, Structural)]
pub enum AuthProvider {
    Microsoft,
    Github,
}

/// Arguments applicable whenever the desktop editor is launched.
#[derive(Clone, Debug, Default)]
pub struct DesktopCodeOptions {
    pub extensions_dir: Option<String>,
    pub user_data_dir: Option<String>,
    pub use_version: Option<String>,
}

impl DesktopCodeOptions {
    pub open spec fn code_args(self) -> Seq<Seq<char>> {
        opt_joined("--extensions-dir="@, self.extensions_dir)
            + opt_joined("--user-data-dir="@, self.user_data_dir)
    }

    pub fn add_code_args(&self, target: &mut Vec<String>)
        ensures
            strs(final(target)@) == strs(old(target)@) + self.code_args(),
    {
        push_opt_joined(target, "--extensions-dir=", &self.extensions_dir);
        push_opt_joined(target, "--user-data-dir=", &self.user_data_dir);
        assert(strs(target@) =~= strs(old(target)@) + self.code_args());
    }
}

#[derive(Clone, Debug, Default)]
pub struct EditorOptions {
    pub diff: Vec<String>,
    pub add: Option<String>,
    pub goto: Option<String>,
    pub new_window: bool,
    pub reuse_window: bool,
    pub wait: bool,
    pub locale: Option<String>,
    pub enable_proposed_api: Vec<String>,
    pub code_options: DesktopCodeOptions,
}

impl EditorOptions {
    pub open spec fn code_args(self) -> Seq<Seq<char>> {
        (if self.diff@.len() > 0 { seq!["--diff"@] + strs(self.diff@) } else { seq![] })
            + opt_pair("--add"@, self.add)
            + opt_pair("--goto"@, self.goto)
            + flag(self.new_window, "--new-window"@)
            + flag(self.reuse_window, "--reuse-window"@)
            + flag(self.wait, "--wait"@)
            + opt_joined("--locale="@, self.locale)
            + each_joined("--enable-proposed-api="@, self.enable_proposed_api@)
            + self.code_options.code_args()
    }

    pub fn add_code_args(&self, target: &mut Vec<String>)
        ensures
            strs(final(target)@) == strs(old(target)@) + self.code_args(),
    {
        let ghost start = strs(target@);
        let ghost diff_args = if self.diff@.len() > 0 { seq!["--diff"@] + strs(self.diff@) } else { seq![] };
        if self.diff.len() > 0 {
            push_flag(target, true, "--diff");
            push_all(target, &self.diff);
        }
        assert(strs(target@) =~= start + diff_args);
        let ghost p = diff_args;
        push_opt_pair(target, "--add", &self.add);
        proof { lemma_concat_associative(start, p, opt_pair("--add"@, self.add)); }
        assert(strs(target@) == start + (p + opt_pair("--add"@, self.add)));
        let ghost p = p + opt_pair("--add"@, self.add);
        push_opt_pair(target, "--goto", &self.goto);
        proof { lemma_concat_associative(start, p, opt_pair("--goto"@, self.goto)); }
        assert(strs(target@) == start + (p + opt_pair("--goto"@, self.goto)));
        let ghost p = p + opt_pair("--goto"@, self.goto);
        push_flag(target, self.new_window, "--new-window");
        proof { lemma_concat_associative(start, p, flag(self.new_window, "--new-window"@)); }
        assert(strs(target@) == start + (p + flag(self.new_window, "--new-window"@)));
        let ghost p = p + flag(self.new_window, "--new-window"@);
        push_flag(target, self.reuse_window, "--reuse-window");
        proof { lemma_concat_associative(start, p, flag(self.reuse_window, "--reuse-window"@)); }
        assert(strs(target@) == start + (p + flag(self.reuse_window, "--reuse-window"@)));
        let ghost p = p + flag(self.reuse_window, "--reuse-window"@);
        push_flag(target, self.wait, "--wait");
        proof { lemma_concat_associative(start, p, flag(self.wait, "--wait"@)); }
        assert(strs(target@) == start + (p + flag(self.wait, "--wait"@)));
        let ghost p = p + flag(self.wait, "--wait"@);
        push_opt_joined(target, "--locale=", &self.locale);
        proof { lemma_concat_associative(start, p, opt_joined("--locale="@, self.locale)); }
        assert(strs(target@) == start + (p + opt_joined("--locale="@, self.locale)));
        let ghost p = p + opt_joined("--locale="@, self.locale);
        push_each_joined(target, "--enable-proposed-api=", &self.enable_proposed_api);
        proof { lemma_concat_associative(start, p, each_joined("--enable-proposed-api="@, self.enable_proposed_api@)); }
        assert(strs(target@) == start + (p + each_joined("--enable-proposed-api="@, self.enable_proposed_api@)));
        let ghost p = p + each_joined("--enable-proposed-api="@, self.enable_proposed_api@);
        self.code_options.add_code_args(target);
        proof { lemma_concat_associative(start, p, self.code_options.code_args()); }
        assert(strs(target@) == start + (p + self.code_options.code_args()));
    }
}

#[derive(Clone, Debug, Default)]
pub struct GlobalOptions {
    pub cli_data_dir: Option<String>,
    pub verbose: bool,
    pub log: Option<Level>,
    pub disable_telemetry: bool,
    pub telemetry_level: Option<TelemetryLevel>,
}

impl GlobalOptions {
    pub open spec fn code_args(self) -> Seq<Seq<char>> {
        flag(self.verbose, "--verbose"@)
            + (match self.log { Some(l) => seq!["--log="@ + l.name()], None => seq![] })
            + flag(self.disable_telemetry, "--disable-telemetry"@)
            + (match self.telemetry_level {
                Some(t) => seq!["--telemetry-level="@ + t.name()],
                None => seq![],
            })
    }

    pub fn add_code_args(&self, target: &mut Vec<String>)
        ensures
            strs(final(target)@) == strs(old(target)@) + self.code_args(),
    {
        let ghost start = strs(target@);
        push_flag(target, self.verbose, "--verbose");
        match self.log {
            Some(l) => {
                let ghost cur = target@;
                let a = joined("--log=", l.as_str());
                target.push(a);
                proof { lemma_strs_push(cur, a); }
            },
            None => {},
        }
        push_flag(target, self.disable_telemetry, "--disable-telemetry");
        match self.telemetry_level {
            Some(t) => {
                let ghost cur = target@;
                let a = joined("--telemetry-level=", t.as_str());
                target.push(a);
                proof { lemma_strs_push(cur, a); }
            },
            None => {},
        }
        assert(strs(target@) =~= start + self.code_args());
    }
}

#[derive(Clone, Debug, Default)]
pub struct EditorTroubleshooting {
    pub prof_startup: bool,
    pub disable_extensions: bool,
    pub disable_extension: Vec<String>,
    pub sync: Option<SyncState>,
    pub inspect_extensions: Option<u16>,
    pub inspect_brk_extensions: Option<u16>,
    pub disable_gpu: bool,
    pub max_memory: Option<usize>,
    pub telemetry: bool,
}

pub open spec fn port_number(o: Option<u16>) -> Option<u64> {
    match o {
        Some(p) => Some(p as u64),
        None => None,
    }
}

pub open spec fn size_number(o: Option<usize>) -> Option<u64> {
    match o {
        Some(m) => Some(m as u64),
        None => None,
    }
}

impl EditorTroubleshooting {
    pub open spec fn code_args(self) -> Seq<Seq<char>> {
        flag(self.prof_startup, "--prof-startup"@)
            + flag(self.disable_extensions, "--disable-extensions"@)
            + each_joined("--disable-extension="@, self.disable_extension@)
            + (match self.sync { Some(s) => seq!["--sync="@ + s.name()], None => seq![] })
            + opt_number("--inspect-extensions="@, port_number(self.inspect_extensions))
            + opt_number("--inspect-brk-extensions="@, port_number(self.inspect_brk_extensions))
            + flag(self.disable_gpu, "--disable-gpu"@)
            + opt_number("--max-memory="@, size_number(self.max_memory))
            + flag(self.telemetry, "--telemetry"@)
    }

    pub fn add_code_args(&self, target: &mut Vec<String>)
        ensures
            strs(final(target)@) == strs(old(target)@) + self.code_args(),
    {
        let ghost start = strs(target@);
        push_flag(target, self.prof_startup, "--prof-startup");
        let ghost p = flag(self.prof_startup, "--prof-startup"@);
        push_flag(target, self.disable_extensions, "--disable-extensions");
        proof { lemma_concat_associative(start, p, flag(self.disable_extensions, "--disable-extensions"@)); }
        assert(strs(target@) == start + (p + flag(self.disable_extensions, "--disable-extensions"@)));
        let ghost p = p + flag(self.disable_extensions, "--disable-extensions"@);
        push_each_joined(target, "--disable-extension=", &self.disable_extension);
        proof { lemma_concat_associative(start, p, each_joined("--disable-extension="@, self.disable_extension@)); }
        assert(strs(target@) == start + (p + each_joined("--disable-extension="@, self.disable_extension@)));
        let ghost p = p + each_joined("--disable-extension="@, self.disable_extension@);
        let ghost sync_args = match self.sync { Some(s) => seq!["--sync="@ + s.name()], None => seq![] };
        match self.sync {
            Some(s) => {
                let ghost cur = target@;
                let a = joined("--sync=", s.as_str());
                target.push(a);
                proof { lemma_strs_push(cur, a); }
            },
            None => {},
        }
        proof { lemma_concat_associative(start, p, sync_args); }
        assert(strs(target@) == start + (p + sync_args));
        let ghost p = p + sync_args;
        let inspect: Option<u64> = match self.inspect_extensions {
            Some(n) => Some(n as u64),
            None => None,
        };
        push_opt_number(target, "--inspect-extensions=", inspect);
        proof { lemma_concat_associative(start, p, opt_number("--inspect-extensions="@, port_number(self.inspect_extensions))); }
        assert(strs(target@) == start + (p + opt_number("--inspect-extensions="@, port_number(self.inspect_extensions))));
        let ghost p = p + opt_number("--inspect-extensions="@, port_number(self.inspect_extensions));
        let inspect_brk: Option<u64> = match self.inspect_brk_extensions {
            Some(n) => Some(n as u64),
            None => None,
        };
        push_opt_number(target, "--inspect-brk-extensions=", inspect_brk);
        proof { lemma_concat_associative(start, p, opt_number("--inspect-brk-extensions="@, port_number(self.inspect_brk_extensions))); }
        assert(strs(target@) == start + (p + opt_number("--inspect-brk-extensions="@, port_number(self.inspect_brk_extensions))));
        let ghost p = p + opt_number("--inspect-brk-extensions="@, port_number(self.inspect_brk_extensions));
        push_flag(target, self.disable_gpu, "--disable-gpu");
        proof { lemma_concat_associative(start, p, flag(self.disable_gpu, "--disable-gpu"@)); }
        assert(strs(target@) == start + (p + flag(self.disable_gpu, "--disable-gpu"@)));
        let ghost p = p + flag(self.disable_gpu, "--disable-gpu"@);
        let memory: Option<u64> = match self.max_memory {
            Some(m) => Some(m as u64),
            None => None,
        };
        push_opt_number(target, "--max-memory=", memory);
        proof { lemma_concat_associative(start, p, opt_number("--max-memory="@, size_number(self.max_memory))); }
        assert(strs(target@) == start + (p + opt_number("--max-memory="@, size_number(self.max_memory))));
        let ghost p = p + opt_number("--max-memory="@, size_number(self.max_memory));
        push_flag(target, self.telemetry, "--telemetry");
        proof { lemma_concat_associative(start, p, flag(self.telemetry, "--telemetry"@)); }
        assert(strs(target@) == start + (p + flag(self.telemetry, "--telemetry"@)));
    }
}

#[derive(Clone, Debug, Default)]
pub struct ListExtensionArgs {
    pub category: Option<String>,
    pub show_versions: bool,
}

#[derive(Clone, Debug, Default)]
pub struct InstallExtensionArgs {
    pub id_or_path: Vec<String>,
    pub pre_release: bool,
    pub force: bool,
}

#[derive(Clone, Debug, Default)]
pub struct UninstallExtensionArgs {
    pub id: Vec<String>,
}

#[derive(Clone, Debug)]
pub enum ExtensionSubcommand {
    List(ListExtensionArgs),
    Install(InstallExtensionArgs),
    Uninstall(UninstallExtensionArgs),
}

impl ExtensionSubcommand {
    pub open spec fn code_args(self) -> Seq<Seq<char>> {
        match self {
            ExtensionSubcommand::List(a) => seq!["--list-extensions"@]
                + flag(a.show_versions, "--show-versions"@)
                + opt_joined("--category="@, a.category),
            ExtensionSubcommand::Install(a) => each_joined("--install-extension="@, a.id_or_path@)
                + flag(a.pre_release, "--pre-release"@)
                + flag(a.force, "--force"@),
            ExtensionSubcommand::Uninstall(a) => each_joined("--uninstall-extension="@, a.id@),
        }
    }

    pub fn add_code_args(&self, target: &mut Vec<String>)
        ensures
            strs(final(target)@) == strs(old(target)@) + self.code_args(),
    {
        let ghost start = strs(target@);
        match self {
            ExtensionSubcommand::List(a) => {
                push_flag(target, true, "--list-extensions");
                let ghost p = seq!["--list-extensions"@];
                assert(flag(true, "--list-extensions"@) == p);
                push_flag(target, a.show_versions, "--show-versions");
                proof { lemma_concat_associative(start, p, flag(a.show_versions, "--show-versions"@)); }
                let ghost p = p + flag(a.show_versions, "--show-versions"@);
                push_opt_joined(target, "--category=", &a.category);
                proof { lemma_concat_associative(start, p, opt_joined("--category="@, a.category)); }
            },
            ExtensionSubcommand::Install(a) => {
                push_each_joined(target, "--install-extension=", &a.id_or_path);
                let ghost p = each_joined("--install-extension="@, a.id_or_path@);
                push_flag(target, a.pre_release, "--pre-release");
                proof { lemma_concat_associative(start, p, flag(a.pre_release, "--pre-release"@)); }
                let ghost p = p + flag(a.pre_release, "--pre-release"@);
                push_flag(target, a.force, "--force");
                proof { lemma_concat_associative(start, p, flag(a.force, "--force"@)); }
            },
            ExtensionSubcommand::Uninstall(a) => {
                push_each_joined(target, "--uninstall-extension=", &a.id);
            },
        }
    }
}

#[derive(Clone, Debug)]
pub struct ExtensionArgs {
    pub subcommand: ExtensionSubcommand,
    pub desktop_code_options: DesktopCodeOptions,
}

impl ExtensionArgs {
    pub open spec fn code_args(self) -> Seq<Seq<char>> {
        opt_plain(self.desktop_code_options.extensions_dir) + self.subcommand.code_args()
    }

    pub fn add_code_args(&self, target: &mut Vec<String>)
        ensures
            strs(final(target)@) == strs(old(target)@) + self.code_args(),
    {
        let ghost start = strs(target@);
        let ghost p = opt_plain(self.desktop_code_options.extensions_dir);
        match &self.desktop_code_options.extensions_dir {
            Some(d) => {
                let ghost cur = target@;
                let a = d.clone();
                target.push(a);
                proof { lemma_strs_push(cur, a); }
            },
            None => {},
        }
        assert(strs(target@) =~= start + p);
        self.subcommand.add_code_args(target);
        proof { lemma_concat_associative(start, p, self.subcommand.code_args()); }
    }
}

#[derive(Clone, Debug)]
pub struct OutputFormatOptions {
    pub format: OutputFormat,
}

#[derive(Clone, Debug)]
pub struct UseVersionArgs {
    pub name: String,
    pub install_dir: Option<String>,
    pub reinstall: bool,
}

#[derive(Clone, Debug)]
pub struct UninstallVersionArgs {
    pub name: String,
}

#[derive(Clone, Debug)]
pub enum VersionSubcommand {
    Use(UseVersionArgs),
    Uninstall(UninstallVersionArgs),
    List(OutputFormatOptions),
}

#[derive(Clone, Debug)]
pub struct VersionArgs {
    pub subcommand: VersionSubcommand,
}

/// Details of a tunnel that already exists, as given on the command line.
#[derive(Clone, Debug, Default)]
pub struct ExistingTunnelArgs {
    pub tunnel_name: Option<String>,
    pub host_token: Option<String>,
    pub tunnel_id: Option<String>,
    pub cluster: Option<String>,
}

#[derive(Clone, Debug, Default)]
pub struct TunnelServeArgs {
    pub tunnel: ExistingTunnelArgs,
    pub random_name: bool,
}

#[derive(Clone, Debug)]
pub struct TunnelRenameArgs {
    pub name: String,
}

#[derive(Clone, Debug)]
pub struct LoginArgs {
    pub access_token: Option<String>,
    pub provider: Option<AuthProvider>,
}

#[derive(Clone, Debug)]
pub enum TunnelUserSubCommands {
    Login(LoginArgs),
    Logout,
    Show,
}

#[derive(Clone, Debug, PartialEq, Eq, Structural)]
pub enum TunnelServiceSubCommands {
    Install,
    Uninstall,
    InternalRun,
}

#[derive(Clone, Debug)]
pub enum TunnelSubcommand {
    Prune,
    Rename(TunnelRenameArgs),
    Unregister,
    User(TunnelUserSubCommands),
    Service(TunnelServiceSubCommands),
}

#[derive(Clone, Debug, Default)]
pub struct TunnelArgs {
    pub subcommand: Option<TunnelSubcommand>,
    pub serve_args: TunnelServeArgs,
}

#[derive(Clone, Debug)]
pub enum Commands {
    Tunnel(TunnelArgs),
    Extension(ExtensionArgs),
    Status,
    Version(VersionArgs),
}

/// The parsed command line of the launcher.
#[derive(Clone, Debug, Default)]
pub struct Cli {
    pub open_paths: Vec<String>,
    pub editor_options: EditorOptions,
    pub troubleshooting: EditorTroubleshooting,
    pub global_options: GlobalOptions,
    pub subcommand: Option<Commands>,
}

impl Cli {
    /// The arguments handed to the desktop editor for any command.
    pub open spec fn base_code_args(self) -> Seq<Seq<char>> {
        strs(self.open_paths@)
            + self.editor_options.code_args()
            + self.troubleshooting.code_args()
            + self.global_options.code_args()
    }

    pub fn get_base_code_args(&self) -> (r: Vec<String>)
        ensures
            strs(r@) == self.base_code_args(),
    {
        let mut args: Vec<String> = Vec::new();
        push_all(&mut args, &self.open_paths);
        assert(strs(Seq::<String>::empty()) =~= Seq::<Seq<char>>::empty());
        assert(strs(args@) =~= strs(self.open_paths@));
        let ghost p = strs(self.open_paths@);
        self.editor_options.add_code_args(&mut args);
        let ghost p = p + self.editor_options.code_args();
        self.troubleshooting.add_code_args(&mut args);
        let ghost p = p + self.troubleshooting.code_args();
        self.global_options.add_code_args(&mut args);
        args
    }
}

/// Settings handed to the editor server that a tunnel runs.
#[derive(Clone, Debug, Default)]
pub struct CodeServerArgs {
    pub log: Option<Level>,
    pub accept_server_license_terms: bool,
    pub verbose: bool,
    pub telemetry_level: Option<TelemetryLevel>,
}

impl CodeServerArgs {
    pub open spec fn spec_from_cli(cli: Cli) -> CodeServerArgs {
        CodeServerArgs {
            log: cli.global_options.log,
            accept_server_license_terms: true,
            verbose: cli.global_options.verbose,
            telemetry_level: if cli.global_options.disable_telemetry {
                Some(TelemetryLevel::Off)
            } else {
                cli.global_options.telemetry_level
            },
        }
    }

    /// The server settings that follow from the global options: license terms
    /// accepted, log level and verbosity carried over, and telemetry off when it
    /// was disabled, else at the requested level.
    pub fn from_cli(cli: &Cli) -> (r: CodeServerArgs)
        ensures
            r == CodeServerArgs::spec_from_cli(*cli),
    {
        let g = &cli.global_options;
        let telemetry_level = if g.disable_telemetry {
            Some(TelemetryLevel::Off)
        } else {
            g.telemetry_level
        };
        CodeServerArgs {
            log: g.log,
            accept_server_license_terms: true,
            verbose: g.verbose,
            telemetry_level,
        }
    }
}

} // verus!
