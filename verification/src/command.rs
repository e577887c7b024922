//! Builder for Nix invocations.
//!
//! It renders one set of [`NixFlags`] per executable and omits the flags
//! that executable rejects.

use vstd::prelude::*;

use crate::flags;
use crate::flags::{FlagsModel, NixFlags};
use crate::list;
use crate::path;
use crate::text;

verus! {

broadcast use list::lemma_texts_push;

/// A command to spawn locally.
#[derive(Debug)]
pub struct Command {
    pub program: String,
    pub args: Vec<String>,
    /// Environment variables to set.
    pub env: Vec<(String, String)>,
}

/// What a command holds.
#[verifier::ext_equal]
pub struct CommandModel {
    pub program: Seq<char>,
    pub args: Seq<Seq<char>>,
    pub env: Seq<(Seq<char>, Seq<char>)>,
}

impl View for Command {
    type V = CommandModel;

    open spec fn view(&self) -> CommandModel {
        CommandModel {
            program: self.program@,
            args: list::texts(self.args@),
            env: flags::settings(self.env@),
        }
    }
}

impl Command {
    /// Sets an environment variable of the command.
    pub fn env(&mut self, name: &str, value: &str)
        ensures
            final(self)@ == (CommandModel {
                env: old(self)@.env.push((name@, value@)),
                ..old(self)@
            }),
    {
        let ghost before = self.env@;
        self.env.push((name.to_owned(), value.to_owned()));
        assert(flags::settings(self.env@) =~= flags::settings(before).push((name@, value@)));
    }
}

/// A Nix executable.
#[derive(Debug)]
pub enum NixExe {
    /// The nix3 CLI (`nix eval`, `nix copy`, `nix flake`, `nix repl`, ...).
    Nix,
    NixInstantiate,
    NixStore,
    NixEnv,
    NixCopyClosure,
    /// `nix-eval-jobs` at the given path.
    NixEvalJobs(String),
}

/// Which Nix executable a command runs.
pub enum ExeModel {
    Nix,
    NixInstantiate,
    NixStore,
    NixEnv,
    NixCopyClosure,
    NixEvalJobs(Seq<char>),
}

impl View for NixExe {
    type V = ExeModel;

    open spec fn view(&self) -> ExeModel {
        match self {
            NixExe::Nix => ExeModel::Nix,
            NixExe::NixInstantiate => ExeModel::NixInstantiate,
            NixExe::NixStore => ExeModel::NixStore,
            NixExe::NixEnv => ExeModel::NixEnv,
            NixExe::NixCopyClosure => ExeModel::NixCopyClosure,
            NixExe::NixEvalJobs(path) => ExeModel::NixEvalJobs(path@),
        }
    }
}

impl Clone for NixExe {
    fn clone(&self) -> (r: Self)
        ensures
            r == *self,
    {
        match self {
            NixExe::Nix => NixExe::Nix,
            NixExe::NixInstantiate => NixExe::NixInstantiate,
            NixExe::NixStore => NixExe::NixStore,
            NixExe::NixEnv => NixExe::NixEnv,
            NixExe::NixCopyClosure => NixExe::NixCopyClosure,
            NixExe::NixEvalJobs(path) => NixExe::NixEvalJobs(path.clone()),
        }
    }
}

/// The flags a Nix executable accepts beyond the settings flags, which
/// every executable accepts.
pub struct Caps {
    /// Whether `--impure` is accepted.
    ///
    /// `--impure` is an evaluator flag. `nix-store` rejects it and
    /// `nix-copy-closure` reads it as the host argument. `nix-env --set`
    /// evaluates nothing, so it is omitted there too.
    pub impure: bool,
    /// Experimental features to enable by default via
    /// `--extra-experimental-features`.
    pub features: Vec<String>,
}

impl ExeModel {
    /// The name of the executable in a directory of Nix executables.
    pub open spec fn name(self) -> Seq<char> {
        match self {
            ExeModel::Nix => "nix"@,
            ExeModel::NixInstantiate => "nix-instantiate"@,
            ExeModel::NixStore => "nix-store"@,
            ExeModel::NixEnv => "nix-env"@,
            ExeModel::NixCopyClosure => "nix-copy-closure"@,
            ExeModel::NixEvalJobs(path) => path,
        }
    }

    /// The executable, resolved in `bin_dir` if given. A pinned
    /// `nix-eval-jobs` is left untouched.
    pub open spec fn executable(self, bin_dir: Option<Seq<char>>) -> Seq<char> {
        match bin_dir {
            Some(dir) => if self is NixEvalJobs {
                self.name()
            } else {
                path::below(dir, self.name())
            },
            None => self.name(),
        }
    }

    /// Whether the executable evaluates Nix expressions, and so accepts
    /// `--impure`.
    pub open spec fn evaluates(self) -> bool {
        self is Nix || self is NixInstantiate || self is NixEvalJobs
    }

    /// The experimental features the executable needs.
    pub open spec fn features(self) -> Seq<Seq<char>> {
        if self is Nix {
            seq!["nix-command"@, "flakes"@]
        } else {
            Seq::empty()
        }
    }
}

impl NixExe {
    /// Returns the executable, resolved in `bin_dir` if given.
    ///
    /// A pinned `nix-eval-jobs` is already an absolute path and is
    /// left untouched.
    pub fn executable(&self, bin_dir: &Option<String>) -> (r: String)
        ensures
            r@ == self@.executable(list::opt_text(*bin_dir)),
    {
        let name: &str = match self {
            NixExe::Nix => "nix",
            NixExe::NixInstantiate => "nix-instantiate",
            NixExe::NixStore => "nix-store",
            NixExe::NixEnv => "nix-env",
            NixExe::NixCopyClosure => "nix-copy-closure",
            NixExe::NixEvalJobs(path) => {
                return path.clone();
            },
        };
        match bin_dir {
            Some(dir) => path::join(dir.as_str(), name),
            None => name.to_owned(),
        }
    }

    /// Returns the flags the executable accepts.
    pub fn caps(&self) -> (r: Caps)
        ensures
            r.impure == self@.evaluates(),
            list::texts(r.features@) == self@.features(),
    {
        match self {
            NixExe::Nix => Caps {
                impure: true,
                features: list::owned(&["nix-command", "flakes"]),
            },
            // only builtins.getFlake needs flakes, call sites enable it per hive
            NixExe::NixInstantiate | NixExe::NixEvalJobs(_) => Caps {
                impure: true,
                features: list::owned(&[]),
            },
            NixExe::NixStore | NixExe::NixEnv | NixExe::NixCopyClosure => Caps {
                impure: false,
                features: list::owned(&[]),
            },
        }
    }
}

/// A builder for a Nix command invocation.
///
/// The builder holds a shared set of [`NixFlags`] and only emits the
/// flags the target executable accepts, so the same flags can be
/// threaded into every Nix invocation regardless of CLI dialect.
#[derive(Debug)]
#[must_use]
pub struct NixCommand {
    exe: NixExe,
    bin_dir: Option<String>,
    flags: NixFlags,
    extra_features: Vec<String>,
    args: Vec<String>,
}

/// What an invocation holds.
#[verifier::ext_equal]
pub struct InvocationModel {
    pub exe: ExeModel,
    pub bin_dir: Option<Seq<char>>,
    pub flags: FlagsModel,
    pub extra_features: Seq<Seq<char>>,
    pub args: Seq<Seq<char>>,
}

impl View for NixCommand {
    type V = InvocationModel;

    closed spec fn view(&self) -> InvocationModel {
        InvocationModel {
            exe: self.exe@,
            bin_dir: list::opt_text(self.bin_dir),
            flags: self.flags@,
            extra_features: list::texts(self.extra_features@),
            args: list::texts(self.args@),
        }
    }
}

impl Clone for NixCommand {
    fn clone(&self) -> (r: Self)
        ensures
            r@ == self@,
    {
        NixCommand {
            exe: self.exe.clone(),
            bin_dir: match &self.bin_dir {
                Some(dir) => Some(dir.clone()),
                None => None,
            },
            flags: self.flags.clone(),
            extra_features: list::copied(&self.extra_features),
            args: list::copied(&self.args),
        }
    }
}

/// An argument that is there or not.
pub open spec fn when(condition: bool, arg: Seq<char>) -> Seq<Seq<char>> {
    if condition {
        seq![arg]
    } else {
        Seq::empty()
    }
}

/// The arguments for a list of settings.
pub open spec fn option_args(options: Seq<(Seq<char>, Seq<char>)>) -> Seq<Seq<char>>
    decreases options.len(),
{
    if options.len() == 0 {
        Seq::empty()
    } else {
        option_args(options.drop_last()) + seq!["--option"@, options.last().0, options.last().1]
    }
}

/// The arguments for a list of experimental features.
pub open spec fn feature_args(features: Seq<Seq<char>>) -> Seq<Seq<char>> {
    if features.len() == 0 {
        Seq::empty()
    } else {
        seq!["--extra-experimental-features"@, text::joined(features, " "@)]
    }
}

impl InvocationModel {
    /// A new invocation.
    pub open spec fn new(exe: ExeModel, flags: FlagsModel) -> Self {
        InvocationModel {
            exe,
            bin_dir: None,
            flags,
            extra_features: Seq::empty(),
            args: Seq::empty(),
        }
    }

    /// The invocation with more arguments.
    pub open spec fn with_args(self, args: Seq<Seq<char>>) -> Self {
        InvocationModel { args: self.args + args, ..self }
    }

    /// The invocation with one more argument.
    pub open spec fn with_arg(self, arg: Seq<char>) -> Self {
        InvocationModel { args: self.args.push(arg), ..self }
    }

    /// The flags the executable accepts, followed by the experimental
    /// features.
    pub open spec fn flag_args(self) -> Seq<Seq<char>> {
        when(self.flags.show_trace, "--show-trace"@) + when(self.flags.pure_eval, "--pure-eval"@)
            + when(self.exe.evaluates() && self.flags.impure, "--impure"@) + option_args(
            self.flags.options,
        ) + feature_args(self.exe.features() + self.extra_features)
    }

    /// What the executable is called as.
    pub open spec fn executable(self) -> Seq<char> {
        self.exe.executable(self.bin_dir)
    }

    /// The arguments the executable gets.
    pub open spec fn all_args(self) -> Seq<Seq<char>> {
        self.args + self.flag_args()
    }

    /// The full argv.
    pub open spec fn argv(self) -> Seq<Seq<char>> {
        seq![self.executable()] + self.all_args()
    }
}

impl NixCommand {
    /// Creates an invocation of the nix3 CLI (`nix`).
    pub fn nix(flags: NixFlags) -> (r: Self)
        ensures
            r@ == InvocationModel::new(ExeModel::Nix, flags@),
    {
        Self::new(NixExe::Nix, flags)
    }

    /// Creates an invocation of `nix-instantiate`.
    pub fn nix_instantiate(flags: NixFlags) -> (r: Self)
        ensures
            r@ == InvocationModel::new(ExeModel::NixInstantiate, flags@),
    {
        Self::new(NixExe::NixInstantiate, flags)
    }

    /// Creates an invocation of `nix-store`.
    pub fn nix_store(flags: NixFlags) -> (r: Self)
        ensures
            r@ == InvocationModel::new(ExeModel::NixStore, flags@),
    {
        Self::new(NixExe::NixStore, flags)
    }

    /// Creates an invocation of `nix-env`.
    pub fn nix_env(flags: NixFlags) -> (r: Self)
        ensures
            r@ == InvocationModel::new(ExeModel::NixEnv, flags@),
    {
        Self::new(NixExe::NixEnv, flags)
    }

    /// Creates an invocation of `nix-copy-closure`.
    pub fn nix_copy_closure(flags: NixFlags) -> (r: Self)
        ensures
            r@ == InvocationModel::new(ExeModel::NixCopyClosure, flags@),
    {
        Self::new(NixExe::NixCopyClosure, flags)
    }

    /// Creates an invocation of `nix-eval-jobs` at the given path.
    pub fn nix_eval_jobs(executable: String, flags: NixFlags) -> (r: Self)
        ensures
            r@ == InvocationModel::new(ExeModel::NixEvalJobs(executable@), flags@),
    {
        Self::new(NixExe::NixEvalJobs(executable), flags)
    }

    fn new(exe: NixExe, flags: NixFlags) -> (r: Self)
        ensures
            r@ == InvocationModel::new(exe@, flags@),
    {
        let r = NixCommand {
            exe,
            bin_dir: None,
            flags,
            extra_features: Vec::new(),
            args: Vec::new(),
        };
        assert(r@ =~= InvocationModel::new(exe@, flags@));
        r
    }

    /// Adds an argument.
    pub fn arg(self, arg: &str) -> (r: Self)
        ensures
            r@ == self@.with_arg(arg@),
    {
        let mut r = self;
        r.args.push(arg.to_owned());
        r
    }

    /// Adds arguments.
    pub fn args(self, args: &[&str]) -> (r: Self)
        ensures
            r@ == self@.with_args(list::strs(args@)),
    {
        let more: Vec<String> = list::owned(args);
        let mut r = self;
        list::extend(&mut r.args, &more);
        r
    }

    /// Enables additional experimental features.
    pub fn extra_features(self, features: &[&str]) -> (r: Self)
        ensures
            r@ == (InvocationModel {
                extra_features: self@.extra_features + list::strs(features@),
                ..self@
            }),
    {
        let more: Vec<String> = list::owned(features);
        let mut r = self;
        list::extend(&mut r.extra_features, &more);
        r
    }

    /// Resolves the executable in `dir` instead of through PATH.
    pub fn bin_dir(self, dir: &str) -> (r: Self)
        ensures
            r@ == (InvocationModel { bin_dir: Some(dir@), ..self@ }),
    {
        let mut r = self;
        r.bin_dir = Some(dir.to_owned());
        r
    }

    /// Builds a [`Command`] ready to be spawned locally.
    pub fn build(self) -> (r: Command)
        ensures
            r@ == (CommandModel {
                program: self@.executable(),
                args: self@.all_args(),
                env: Seq::empty(),
            }),
            seq![r@.program] + r@.args == self@.argv(),
    {
        let flags: Vec<String> = self.render_flags();
        let program: String = self.exe.executable(&self.bin_dir);
        let mut args: Vec<String> = self.args;
        list::extend(&mut args, &flags);
        let r = Command { program, args, env: Vec::new() };
        assert(flags::settings(r.env@) =~= Seq::empty());
        r
    }

    /// Returns the full argv, for wrapping in another command such as ssh or sudo.
    ///
    /// The argv is unquoted: transports that pass through a shell (like ssh)
    /// must escape each element.
    pub fn into_argv(self) -> (r: Vec<String>)
        ensures
            list::texts(r@) == self@.argv(),
    {
        let flags: Vec<String> = self.render_flags();
        let executable: String = self.exe.executable(&self.bin_dir);
        let mut argv: Vec<String> = Vec::new();
        argv.push(executable);
        assert(list::texts(argv@) =~= seq![self@.executable()]);
        list::extend(&mut argv, &self.args);
        list::extend(&mut argv, &flags);
        assert(list::texts(argv@) =~= self@.argv());
        argv
    }

    /// Renders the [`NixFlags`] the executable accepts, followed by
    /// the experimental features.
    pub fn render_flags(&self) -> (r: Vec<String>)
        ensures
            list::texts(r@) == self@.flag_args(),
    {
        let caps: Caps = self.exe.caps();
        let mut out: Vec<String> = Vec::new();
        let flags = &self.flags;

        if flags.show_trace() {
            out.push("--show-trace".to_string());
        }
        assert(list::texts(out@) =~= when(self@.flags.show_trace, "--show-trace"@));
        if flags.pure_eval() {
            out.push("--pure-eval".to_string());
        }
        if caps.impure && flags.impure() {
            out.push("--impure".to_string());
        }
        let ghost switches = when(self@.flags.show_trace, "--show-trace"@) + when(
            self@.flags.pure_eval,
            "--pure-eval"@,
        ) + when(self@.exe.evaluates() && self@.flags.impure, "--impure"@);
        assert(list::texts(out@) =~= switches);

        let options = flags.options();
        let ghost all = self@.flags.options;
        let mut i: usize = 0;
        assert(option_args(all.take(0)) =~= Seq::empty());
        while i < options.len()
            invariant
                i <= options.len(),
                flags::settings(options@) == all,
                list::texts(out@) =~= switches + option_args(all.take(i as int)),
            decreases options.len() - i,
        {
            let (name, value) = &options[i];
            out.push("--option".to_string());
            out.push(name.clone());
            out.push(value.clone());
            i = i + 1;
            assert(all[i - 1] == (name@, value@));
            assert(all.take(i as int).drop_last() =~= all.take(i - 1));
            assert(all.take(i as int).last() == all[i - 1]);
        }
        assert(all.take(i as int) =~= all);

        // --option experimental-features replaces the setting
        // --extra-experimental-features appends to it
        // nix applies flags left to right, so the features go last
        let mut features: Vec<String> = caps.features;
        list::extend(&mut features, &self.extra_features);
        assert(list::texts(features@) == self@.exe.features() + self@.extra_features);
        if features.len() > 0 {
            out.push("--extra-experimental-features".to_string());
            out.push(text::join(&features, " "));
        }
        assert(list::texts(out@) =~= self@.flag_args());
        out
    }
}

/// A legacy executable gets the same argv whether or not evaluation is
/// impure.
pub proof fn law_legacy_executables_drop_impure(command: InvocationModel, impure: bool)
    requires
        !command.exe.evaluates(),
    ensures
        (InvocationModel { flags: FlagsModel { impure, ..command.flags }, ..command }).argv()
            == command.argv(),
{
}

/// A pinned `nix-eval-jobs` runs from its path, whatever directory other
/// executables are resolved in.
pub proof fn law_pinned_eval_jobs_stays(path: Seq<char>, bin_dir: Option<Seq<char>>)
    ensures
        ExeModel::NixEvalJobs(path).executable(bin_dir) == path,
{
}

/// The arguments of a command come right after its executable, and all
/// flags follow them.
pub proof fn law_arguments_precede_flags(command: InvocationModel)
    ensures
        command.argv() == seq![command.executable()] + command.args + command.flag_args(),
{
    assert(command.argv() =~= seq![command.executable()] + command.args + command.flag_args());
}

proof fn lemma_option_args(options: Seq<(Seq<char>, Seq<char>)>, i: int)
    requires
        0 <= i < options.len(),
    ensures
        option_args(options).len() == 3 * options.len(),
        option_args(options).subrange(3 * i, 3 * i + 3) == seq![
            "--option"@,
            options[i].0,
            options[i].1,
        ],
    decreases options.len(),
{
    let front = options.drop_last();
    let args = option_args(options);
    if front.len() > 0 {
        let j = if i < front.len() {
            i
        } else {
            0
        };
        lemma_option_args(front, j);
        if i < front.len() {
            assert(args.subrange(3 * i, 3 * i + 3) =~= option_args(front).subrange(
                3 * i,
                3 * i + 3,
            ));
        }
    } else {
        assert(option_args(front).len() == 0);
    }
    if i == front.len() {
        assert(args.subrange(3 * i, 3 * i + 3) =~= seq!["--option"@, options[i].0, options[i].1]);
    }
}

/// Every executable gets every setting, in the order the settings were added:
/// three arguments each, without a gap between two settings.
pub proof fn law_settings_are_passed_in_order(command: InvocationModel, i: int)
    requires
        0 <= i < command.flags.options.len(),
    ensures
        ({
            let options = command.flags.options;
            let argv = command.argv();
            let features = feature_args(command.exe.features() + command.extra_features);
            let first = argv.len() - features.len() - 3 * options.len();
            &&& first > command.args.len()
            &&& argv.subrange(first + 3 * i, first + 3 * i + 3) == seq![
                "--option"@,
                options[i].0,
                options[i].1,
            ]
        }),
{
    let options = command.flags.options;
    let features = feature_args(command.exe.features() + command.extra_features);
    lemma_option_args(options, i);
    let argv = command.argv();
    let first = argv.len() - features.len() - 3 * options.len();
    assert(argv.subrange(first + 3 * i, first + 3 * i + 3) =~= option_args(options).subrange(
        3 * i,
        3 * i + 3,
    ));
}

/// The experimental features a command needs come after every other flag, so
/// that no setting of the user can replace them.
pub proof fn law_features_come_last(command: InvocationModel)
    requires
        command.exe is Nix || command.extra_features.len() > 0,
    ensures
        command.argv().len() > command.args.len() + 2,
        command.argv()[command.argv().len() - 2] == "--extra-experimental-features"@,
        command.argv().last() == text::joined(
            command.exe.features() + command.extra_features,
            " "@,
        ),
{
}

/// The experimental features that end the arguments of a command, if there
/// are any: those that nix3 needs, then those that were added.
pub open spec fn wanted_features(command: InvocationModel) -> Seq<Seq<char>> {
    match command.exe {
        ExeModel::Nix => seq!["nix-command"@, "flakes"@] + command.extra_features,
        _ => command.extra_features,
    }
}

/// How many arguments the experimental features of a command take.
pub open spec fn features_len(command: InvocationModel) -> int {
    if wanted_features(command).len() > 0 {
        2
    } else {
        0
    }
}

/// A command without flags consists of its executable, its arguments and the
/// experimental features.
pub proof fn law_a_bare_command_has_its_arguments(command: InvocationModel)
    requires
        !command.flags.show_trace,
        !command.flags.pure_eval,
        !command.flags.impure,
        command.flags.options.len() == 0,
    ensures
        command.argv() == seq![command.executable()] + command.args + if wanted_features(
            command,
        ).len() > 0 {
            seq!["--extra-experimental-features"@, text::joined(wanted_features(command), " "@)]
        } else {
            Seq::empty()
        },
{
    assert(Seq::<Seq<char>>::empty() + command.extra_features =~= command.extra_features);
    assert(command.argv() =~= seq![command.executable()] + command.args + if wanted_features(
        command,
    ).len() > 0 {
        seq!["--extra-experimental-features"@, text::joined(wanted_features(command), " "@)]
    } else {
        Seq::empty()
    });
}

/// `--show-trace` comes right after the arguments of the command. Asking for
/// it changes nothing else, and every executable gets it.
pub proof fn law_show_trace_adds_one_argument(command: InvocationModel)
    ensures
        ({
            let on = FlagsModel { show_trace: true, ..command.flags };
            let off = FlagsModel { show_trace: false, ..command.flags };
            (InvocationModel { flags: on, ..command }).argv() == (InvocationModel {
                flags: off,
                ..command
            }).argv().insert(1 + command.args.len() as int, "--show-trace"@)
        }),
{
    let on = FlagsModel { show_trace: true, ..command.flags };
    let off = FlagsModel { show_trace: false, ..command.flags };
    assert((InvocationModel { flags: on, ..command }).argv() =~= (InvocationModel {
        flags: off,
        ..command
    }).argv().insert(1 + command.args.len() as int, "--show-trace"@));
}

/// `--pure-eval` comes before the other flags but for `--show-trace`. Asking
/// for it changes nothing else, and every executable gets it.
pub proof fn law_pure_eval_adds_one_argument(command: InvocationModel)
    ensures
        ({
            let on = FlagsModel { pure_eval: true, ..command.flags };
            let off = FlagsModel { pure_eval: false, ..command.flags };
            let at: int = 1 + command.args.len() + if command.flags.show_trace {
                1int
            } else {
                0
            };
            (InvocationModel { flags: on, ..command }).argv() == (InvocationModel {
                flags: off,
                ..command
            }).argv().insert(at, "--pure-eval"@)
        }),
{
    let on = FlagsModel { pure_eval: true, ..command.flags };
    let off = FlagsModel { pure_eval: false, ..command.flags };
    let at: int = 1 + command.args.len() + if command.flags.show_trace {
        1int
    } else {
        0
    };
    assert((InvocationModel { flags: on, ..command }).argv() =~= (InvocationModel {
        flags: off,
        ..command
    }).argv().insert(at, "--pure-eval"@));
}

/// `--impure` goes to the executables that evaluate, before their settings,
/// and to no other. Asking for it changes nothing else.
pub proof fn law_impure_adds_one_argument_to_evaluators(command: InvocationModel)
    ensures
        ({
            let on = FlagsModel { impure: true, ..command.flags };
            let off = FlagsModel { impure: false, ..command.flags };
            let impure = (InvocationModel { flags: on, ..command }).argv();
            let plain = (InvocationModel { flags: off, ..command }).argv();
            let at: int = 1 + command.args.len() + if command.flags.show_trace {
                1int
            } else {
                0
            } + if command.flags.pure_eval {
                1int
            } else {
                0
            };
            match command.exe {
                ExeModel::Nix => impure == plain.insert(at, "--impure"@),
                ExeModel::NixInstantiate => impure == plain.insert(at, "--impure"@),
                ExeModel::NixEvalJobs(_) => impure == plain.insert(at, "--impure"@),
                ExeModel::NixStore => impure == plain,
                ExeModel::NixEnv => impure == plain,
                ExeModel::NixCopyClosure => impure == plain,
            }
        }),
{
    let on = FlagsModel { impure: true, ..command.flags };
    let off = FlagsModel { impure: false, ..command.flags };
    let impure = (InvocationModel { flags: on, ..command }).argv();
    let plain = (InvocationModel { flags: off, ..command }).argv();
    let at: int = 1 + command.args.len() + if command.flags.show_trace {
        1int
    } else {
        0
    } + if command.flags.pure_eval {
        1int
    } else {
        0
    };
    if command.exe is Nix || command.exe is NixInstantiate || command.exe is NixEvalJobs {
        assert(impure =~= plain.insert(at, "--impure"@));
    } else {
        assert(impure =~= plain);
    }
}

/// One more setting adds three arguments, right before the experimental
/// features, and changes nothing else. Every executable gets it.
pub proof fn law_a_setting_adds_three_arguments(
    command: InvocationModel,
    name: Seq<char>,
    value: Seq<char>,
)
    ensures
        ({
            let options = command.flags.options.push((name, value));
            let more = InvocationModel { flags: FlagsModel { options, ..command.flags }, ..command };
            let argv = command.argv();
            let at = argv.len() - features_len(command);
            more.argv() == argv.take(at) + seq!["--option"@, name, value] + argv.skip(at)
        }),
{
    let options = command.flags.options.push((name, value));
    let more = InvocationModel { flags: FlagsModel { options, ..command.flags }, ..command };
    assert(options.drop_last() =~= command.flags.options);
    assert(options.last() == (name, value));
    let front = seq![command.executable()] + command.args + (when(
        command.flags.show_trace,
        "--show-trace"@,
    ) + when(command.flags.pure_eval, "--pure-eval"@) + when(
        command.exe.evaluates() && command.flags.impure,
        "--impure"@,
    ));
    let given = option_args(command.flags.options);
    let end = feature_args(command.exe.features() + command.extra_features);
    lemma_regroup(command, front, given, end);
    lemma_regroup(more, front, given + seq!["--option"@, name, value], end);
    lemma_insert_before_end(front, given, seq!["--option"@, name, value], end);
}

proof fn lemma_regroup(
    command: InvocationModel,
    front: Seq<Seq<char>>,
    given: Seq<Seq<char>>,
    end: Seq<Seq<char>>,
)
    requires
        front == seq![command.executable()] + command.args + (when(
            command.flags.show_trace,
            "--show-trace"@,
        ) + when(command.flags.pure_eval, "--pure-eval"@) + when(
            command.exe.evaluates() && command.flags.impure,
            "--impure"@,
        )),
        given == option_args(command.flags.options),
        end == feature_args(command.exe.features() + command.extra_features),
    ensures
        command.argv() == front + given + end,
        end.len() == features_len(command),
{
    let switches = when(command.flags.show_trace, "--show-trace"@) + when(
        command.flags.pure_eval,
        "--pure-eval"@,
    ) + when(command.exe.evaluates() && command.flags.impure, "--impure"@);
    lemma_associate(command.executable(), command.args, switches, given, end);
}

proof fn lemma_associate(
    first: Seq<char>,
    args: Seq<Seq<char>>,
    switches: Seq<Seq<char>>,
    given: Seq<Seq<char>>,
    end: Seq<Seq<char>>,
)
    ensures
        seq![first] + (args + (switches + given + end)) == seq![first] + args + switches + given
            + end,
{
    assert(seq![first] + (args + (switches + given + end)) =~= seq![first] + args + switches + given
        + end);
}

proof fn lemma_insert_before_end(
    front: Seq<Seq<char>>,
    given: Seq<Seq<char>>,
    new: Seq<Seq<char>>,
    end: Seq<Seq<char>>,
)
    ensures
        ({
            let all = front + given + end;
            let at = all.len() - end.len();
            front + (given + new) + end == all.take(at) + new + all.skip(at)
        }),
{
    let all = front + given + end;
    let at = all.len() - end.len();
    assert(all.take(at) =~= front + given);
    assert(all.skip(at) =~= end);
    assert(front + (given + new) + end =~= front + given + new + end);
}

/// Experimental features change the end of the arguments only, where they
/// stand in one list. nix3 always gets those it needs, and no other executable
/// gets any that were not asked for.
pub proof fn law_features_end_the_arguments(command: InvocationModel)
    ensures
        ({
            let argv = command.argv();
            let none = InvocationModel { extra_features: Seq::empty(), ..command };
            let front = none.argv().len() - features_len(none);
            &&& argv.take(front) == none.argv().take(front)
            &&& argv.skip(front) == if wanted_features(command).len() > 0 {
                seq!["--extra-experimental-features"@, text::joined(wanted_features(command), " "@)]
            } else {
                Seq::empty()
            }
        }),
{
    let argv = command.argv();
    let none = InvocationModel { extra_features: Seq::empty(), ..command };
    let front = none.argv().len() - features_len(none);
    assert(Seq::<Seq<char>>::empty() + command.extra_features =~= command.extra_features);
    assert(Seq::<Seq<char>>::empty() + none.extra_features =~= none.extra_features);
    assert(argv.take(front) =~= none.argv().take(front));
    assert(argv.skip(front) =~= if wanted_features(command).len() > 0 {
        seq!["--extra-experimental-features"@, text::joined(wanted_features(command), " "@)]
    } else {
        Seq::empty()
    });
}

/// Each executable has its name, and is taken from the directory that is
/// given, if one is.
pub proof fn law_executables_have_their_names(dir: Seq<char>)
    requires
        dir.len() > 0,
        dir.last() != '/',
    ensures
        ExeModel::Nix.executable(None) == "nix"@,
        ExeModel::NixInstantiate.executable(None) == "nix-instantiate"@,
        ExeModel::NixStore.executable(None) == "nix-store"@,
        ExeModel::NixEnv.executable(None) == "nix-env"@,
        ExeModel::NixCopyClosure.executable(None) == "nix-copy-closure"@,
        forall|exe: ExeModel|
            !(exe is NixEvalJobs) ==> #[trigger] exe.executable(Some(dir)) == dir + seq!['/']
                + exe.executable(None),
{
    reveal_strlit("nix");
    reveal_strlit("nix-instantiate");
    reveal_strlit("nix-store");
    reveal_strlit("nix-env");
    reveal_strlit("nix-copy-closure");
    assert forall|exe: ExeModel| !(exe is NixEvalJobs) implies #[trigger] exe.executable(Some(dir))
        == dir + seq!['/'] + exe.executable(None) by {
        path::law_relative_paths_go_below(dir, exe.executable(None));
    }
}

/// Arguments are kept in the order they were added, and adding them changes
/// nothing else.
pub proof fn law_arguments_are_kept_in_order(
    exe: ExeModel,
    flags: FlagsModel,
    first: Seq<Seq<char>>,
    second: Seq<char>,
)
    ensures
        ({
            let command = InvocationModel::new(exe, flags).with_args(first).with_arg(second);
            &&& command.args == first.push(second)
            &&& command.exe == exe
            &&& command.flags == flags
            &&& command.bin_dir is None
            &&& command.extra_features.len() == 0
        }),
{
    let command = InvocationModel::new(exe, flags).with_args(first).with_arg(second);
    assert(command.args =~= first.push(second));
}

} // verus!
