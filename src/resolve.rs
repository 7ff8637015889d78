use vstd::prelude::*;
use vstd::string::*;
use crate::concretize::str_eq;
use crate::help::{CommandSpec, spec_label, spec_tokens, lemma_tokens_push};

verus! {

/// The top-level verbs.
#[derive(Clone, Copy, Debug, PartialEq, Eq, Structural)]
pub enum TopVerb {
    Move,
    Version,
    Help,
    Info,
}

/// The verbs under `move`.
#[derive(Clone, Copy, Debug, PartialEq, Eq, Structural)]
pub enum MoveVerb {
    Build,
    Coverage,
    Disassemble,
    Docgen,
    Errmap,
    Info,
    New,
    Test,
    Prove,
}

pub open spec fn spec_top_verb(t: Seq<char>) -> Option<TopVerb> {
    if t == "move"@ {
        Some(TopVerb::Move)
    } else if t == "version"@ || t == "--V"@ {
        Some(TopVerb::Version)
    } else if t == "help"@ || t == "-h"@ {
        Some(TopVerb::Help)
    } else if t == "info"@ || t == "--i"@ {
        Some(TopVerb::Info)
    } else {
        None
    }
}

pub open spec fn spec_move_verb(t: Seq<char>) -> Option<MoveVerb> {
    if t == "build"@ {
        Some(MoveVerb::Build)
    } else if t == "coverage"@ {
        Some(MoveVerb::Coverage)
    } else if t == "disassemble"@ {
        Some(MoveVerb::Disassemble)
    } else if t == "docgen"@ {
        Some(MoveVerb::Docgen)
    } else if t == "errmap"@ {
        Some(MoveVerb::Errmap)
    } else if t == "info"@ {
        Some(MoveVerb::Info)
    } else if t == "new"@ {
        Some(MoveVerb::New)
    } else if t == "test"@ {
        Some(MoveVerb::Test)
    } else if t == "prove"@ {
        Some(MoveVerb::Prove)
    } else {
        None
    }
}

pub fn parse_top_verb(t: &str) -> (r: Option<TopVerb>)
    ensures
        r == spec_top_verb(t@),
{
    if str_eq(t, "move") {
        Some(TopVerb::Move)
    } else if str_eq(t, "version") || str_eq(t, "--V") {
        Some(TopVerb::Version)
    } else if str_eq(t, "help") || str_eq(t, "-h") {
        Some(TopVerb::Help)
    } else if str_eq(t, "info") || str_eq(t, "--i") {
        Some(TopVerb::Info)
    } else {
        None
    }
}

pub fn parse_move_verb(t: &str) -> (r: Option<MoveVerb>)
    ensures
        r == spec_move_verb(t@),
{
    if str_eq(t, "build") {
        Some(MoveVerb::Build)
    } else if str_eq(t, "coverage") {
        Some(MoveVerb::Coverage)
    } else if str_eq(t, "disassemble") {
        Some(MoveVerb::Disassemble)
    } else if str_eq(t, "docgen") {
        Some(MoveVerb::Docgen)
    } else if str_eq(t, "errmap") {
        Some(MoveVerb::Errmap)
    } else if str_eq(t, "info") {
        Some(MoveVerb::Info)
    } else if str_eq(t, "new") {
        Some(MoveVerb::New)
    } else if str_eq(t, "test") {
        Some(MoveVerb::Test)
    } else if str_eq(t, "prove") {
        Some(MoveVerb::Prove)
    } else {
        None
    }
}

/// Parameters of `build`.
#[derive(Clone, Debug)]
pub struct Build {}

/// Parameters of `info`.
#[derive(Clone, Debug)]
pub struct Info {}

/// Parameters of `coverage`, in summary mode.
#[derive(Clone, Debug)]
pub struct Coverage {
    pub functions: bool,
    pub output_csv: bool,
}

/// Parameters of `disassemble`.
#[derive(Clone, Debug)]
pub struct Disassemble {
    pub interactive: bool,
    pub package_name: Option<String>,
    pub module_or_script_name: String,
}

/// Parameters of `docgen`.
#[derive(Clone, Debug)]
pub struct Docgen {
    pub section_level_start: Option<usize>,
    pub exclude_private_fun: bool,
    pub exclude_specs: bool,
    pub independent_specs: bool,
    pub exclude_impl: bool,
    pub toc_depth: Option<usize>,
    pub no_collapsed_sections: bool,
    pub output_directory: Option<String>,
    pub compile_relative_to_output_dir: bool,
    pub references_file: Option<String>,
    pub template: Vec<String>,
    pub include_dep_diagrams: bool,
    pub include_call_diagrams: bool,
}

/// Parameters of `errmap`.
#[derive(Clone, Debug)]
pub struct Errmap {
    pub error_prefix: Option<String>,
    pub output_file: String,
}

/// Parameters of `new`: the name of the package to create.
#[derive(Clone, Debug)]
pub struct New {
    pub name: String,
}

/// Parameters of `test`.
#[derive(Clone, Debug)]
pub struct Test {
    pub gas_limit: Option<u64>,
    pub filter: Option<String>,
    pub list: bool,
    pub num_threads: usize,
    pub report_statistics: bool,
    pub report_storage_on_error: bool,
    pub ignore_compile_warnings: bool,
    pub check_stackless_vm: bool,
    pub verbose_mode: bool,
    pub compute_coverage: bool,
}

/// Parameters of `prove`.
#[derive(Clone, Debug)]
pub struct Prove {
    pub target_filter: Option<String>,
    pub for_test: bool,
    pub options: Option<Vec<String>>,
}

/// A resolved `move` sub-command with its parameters.
#[derive(Clone, Debug)]
pub enum MoveCommand {
    Build(Build),
    Coverage(Coverage),
    Disassemble(Disassemble),
    Docgen(Docgen),
    Errmap(Errmap),
    Info(Info),
    New(New),
    Test(Test),
    Prove(Prove),
}

/// What the `move` arguments resolve to.
#[derive(Clone, Debug)]
pub enum MoveOutcome {
    /// Show the `move` help table, with the error line or without.
    ShowHelp { error: bool },
    /// `new` came without a non-empty project name.
    MissingProjectName,
    /// Hand this command to its handler.
    Run(MoveCommand),
}

/// What the whole argument vector resolves to.
#[derive(Clone, Debug)]
pub enum CliOutcome {
    /// Show the top-level help table, with the error line or without.
    ShowHelp { error: bool },
    /// Print the version.
    Version,
    /// Open the documentation.
    Info,
    /// A `move` sub-command.
    Move(MoveOutcome),
}

pub open spec fn spec_default_test(t: Test) -> bool {
    t.gas_limit is None && t.filter is None && !t.list && t.num_threads == 8
        && !t.report_statistics && !t.report_storage_on_error && !t.ignore_compile_warnings
        && !t.check_stackless_vm && !t.verbose_mode && !t.compute_coverage
}

pub open spec fn spec_default_docgen(d: Docgen) -> bool {
    d.section_level_start == Some(0usize) && d.toc_depth == Some(3usize) && !d.exclude_private_fun
        && !d.exclude_specs && !d.independent_specs && !d.exclude_impl
        && !d.no_collapsed_sections && d.output_directory is None
        && !d.compile_relative_to_output_dir && d.references_file is None && d.template@.len()
        == 0 && !d.include_dep_diagrams && !d.include_call_diagrams
}

/// The command that a verb other than `new` resolves to: every parameter at its default.
pub open spec fn spec_default_command(v: MoveVerb, c: MoveCommand) -> bool {
    match v {
        MoveVerb::Build => c is Build,
        MoveVerb::Coverage => c is Coverage && !c->Coverage_0.functions
            && !c->Coverage_0.output_csv,
        MoveVerb::Disassemble => c is Disassemble && !c->Disassemble_0.interactive
            && c->Disassemble_0.package_name is None
            && c->Disassemble_0.module_or_script_name@.len() == 0,
        MoveVerb::Docgen => c is Docgen && spec_default_docgen(c->Docgen_0),
        MoveVerb::Errmap => c is Errmap && c->Errmap_0.error_prefix is None
            && c->Errmap_0.output_file@.len() == 0,
        MoveVerb::Info => c is Info,
        MoveVerb::New => false,
        MoveVerb::Test => c is Test && spec_default_test(c->Test_0),
        MoveVerb::Prove => c is Prove && c->Prove_0.target_filter is None
            && !c->Prove_0.for_test && c->Prove_0.options is None,
    }
}

impl Test {
    /// `test` with nothing overridden: eight threads, every flag off.
    pub fn with_defaults() -> (r: Test)
        ensures
            spec_default_test(r),
    {
        Test {
            gas_limit: None,
            filter: None,
            list: false,
            num_threads: 8,
            report_statistics: false,
            report_storage_on_error: false,
            ignore_compile_warnings: false,
            check_stackless_vm: false,
            verbose_mode: false,
            compute_coverage: false,
        }
    }
}

impl Docgen {
    /// `docgen` with nothing overridden: table of contents three deep, sections from level 0.
    pub fn with_defaults() -> (r: Docgen)
        ensures
            spec_default_docgen(r),
    {
        Docgen {
            section_level_start: Some(0),
            exclude_private_fun: false,
            exclude_specs: false,
            independent_specs: false,
            exclude_impl: false,
            toc_depth: Some(3),
            no_collapsed_sections: false,
            output_directory: None,
            compile_relative_to_output_dir: false,
            references_file: None,
            template: Vec::new(),
            include_dep_diagrams: false,
            include_call_diagrams: false,
        }
    }
}

/// Builds the command of a verb other than `new` from the fixed defaults.
pub fn default_command(v: MoveVerb) -> (r: MoveCommand)
    requires
        v != MoveVerb::New,
    ensures
        spec_default_command(v, r),
{
    match v {
        MoveVerb::Build => MoveCommand::Build(Build {}),
        MoveVerb::Coverage => MoveCommand::Coverage(Coverage { functions: false, output_csv: false }),
        MoveVerb::Disassemble => MoveCommand::Disassemble(
            Disassemble { interactive: false, package_name: None, module_or_script_name: String::new() },
        ),
        MoveVerb::Docgen => MoveCommand::Docgen(Docgen::with_defaults()),
        MoveVerb::Errmap => MoveCommand::Errmap(Errmap { error_prefix: None, output_file: String::new() }),
        MoveVerb::Info => MoveCommand::Info(Info {}),
        MoveVerb::Test => MoveCommand::Test(Test::with_defaults()),
        _ => MoveCommand::Prove(Prove { target_filter: None, for_test: false, options: None }),
    }
}

pub open spec fn args_view(args: Seq<String>) -> Seq<Seq<char>> {
    args.map_values(|s: String| s@)
}

/// How the `move` arguments resolve. Token 0 is the program, token 1 `move`, token 2 the
/// sub-verb and, for `new`, token 3 the project name.
pub open spec fn spec_move_resolution(args: Seq<Seq<char>>, r: MoveOutcome) -> bool {
    if args.len() <= 2 {
        r == MoveOutcome::ShowHelp { error: false }
    } else {
        match spec_move_verb(args[2]) {
            None => r == MoveOutcome::ShowHelp { error: true },
            Some(MoveVerb::New) => if args.len() > 3 && args[3].len() > 0 {
                r is Run && r->Run_0 is New && r->Run_0->New_0.name@ == args[3]
            } else {
                r is MissingProjectName
            },
            Some(v) => r is Run && spec_default_command(v, r->Run_0),
        }
    }
}

/// How the whole argument vector resolves. Token 0 is the program.
pub open spec fn spec_cli_resolution(args: Seq<Seq<char>>, r: CliOutcome) -> bool {
    if args.len() <= 1 {
        r == CliOutcome::ShowHelp { error: false }
    } else {
        match spec_top_verb(args[1]) {
            None => r == CliOutcome::ShowHelp { error: true },
            Some(TopVerb::Move) => r is Move && spec_move_resolution(args, r->Move_0),
            Some(TopVerb::Version) => r is Version,
            Some(TopVerb::Help) => r == CliOutcome::ShowHelp { error: false },
            Some(TopVerb::Info) => r is Info,
        }
    }
}

/// Resolves the arguments of `kari move ...` into the command to run, a help request
/// or a missing project name.
pub fn handle_move_command(args: &Vec<String>) -> (r: MoveOutcome)
    ensures
        spec_move_resolution(args_view(args@), r),
{
    if args.len() <= 2 {
        return MoveOutcome::ShowHelp { error: false };
    }
    let verb = parse_move_verb(args[2].as_str());
    match verb {
        None => MoveOutcome::ShowHelp { error: true },
        Some(MoveVerb::New) => {
            if args.len() > 3 && args[3].as_str().unicode_len() > 0 {
                MoveOutcome::Run(MoveCommand::New(New { name: args[3].clone() }))
            } else {
                MoveOutcome::MissingProjectName
            }
        },
        Some(v) => MoveOutcome::Run(default_command(v)),
    }
}

/// Resolves the whole argument vector.
pub fn resolve_cli(args: &Vec<String>) -> (r: CliOutcome)
    ensures
        spec_cli_resolution(args_view(args@), r),
{
    if args.len() <= 1 {
        return CliOutcome::ShowHelp { error: false };
    }
    match parse_top_verb(args[1].as_str()) {
        None => CliOutcome::ShowHelp { error: true },
        Some(TopVerb::Move) => CliOutcome::Move(handle_move_command(args)),
        Some(TopVerb::Version) => CliOutcome::Version,
        Some(TopVerb::Help) => CliOutcome::ShowHelp { error: false },
        Some(TopVerb::Info) => CliOutcome::Info,
    }
}

pub open spec fn spec_exit_code(r: CliOutcome) -> i32 {
    match r {
        CliOutcome::ShowHelp { .. } => 1,
        CliOutcome::Move(MoveOutcome::ShowHelp { .. }) => 1,
        CliOutcome::Move(MoveOutcome::MissingProjectName) => 1,
        _ => 0,
    }
}

impl CliOutcome {
    /// The exit status owed before any handler runs: help and a missing name end with 1.
    pub fn exit_code(&self) -> (r: i32)
        ensures
            r == spec_exit_code(*self),
    {
        match self {
            CliOutcome::ShowHelp { .. } => 1,
            CliOutcome::Move(MoveOutcome::ShowHelp { .. }) => 1,
            CliOutcome::Move(MoveOutcome::MissingProjectName) => 1,
            _ => 0,
        }
    }
}

pub open spec fn table_labels(t: Seq<CommandSpec>) -> Seq<Seq<char>> {
    t.map_values(|c: CommandSpec| spec_label(c))
}

/// The top-level help table, in the order it is shown.
pub fn cli_command_table() -> (r: Vec<CommandSpec>)
    ensures
        table_labels(r@) == seq!["move"@, "version, --V"@, "help, -h"@, "info, --i"@],
        spec_tokens(r@) == seq!["move"@, "version"@, "--V"@, "help"@, "-h"@, "info"@, "--i"@],
        spec_tokens(r@).no_duplicates(),
{
    let mut t: Vec<CommandSpec> = Vec::new();
    let ghost t0 = t@;
    t.push(CommandSpec::new("move", None, "Execute and manage Move VM smart contracts"));
    let ghost t1 = t@;
    t.push(CommandSpec::new("version", Some("--V"), "Display CLI version information"));
    let ghost t2 = t@;
    t.push(CommandSpec::new("help", Some("-h"), "Display this help message"));
    let ghost t3 = t@;
    t.push(CommandSpec::new("info", Some("--i"), "Display information about the Kari node"));
    proof {
        lemma_tokens_push(t0, t@[0]);
        lemma_tokens_push(t1, t@[1]);
        lemma_tokens_push(t2, t@[2]);
        lemma_tokens_push(t3, t@[3]);
        assert(t0 =~= Seq::<CommandSpec>::empty());
        assert(t1 =~= t0.push(t@[0]));
        assert(t2 =~= t1.push(t@[1]));
        assert(t3 =~= t2.push(t@[2]));
        assert(t@ =~= t3.push(t@[3]));
        assert(spec_tokens(t@) =~= seq!["move"@, "version"@, "--V"@, "help"@, "-h"@, "info"@, "--i"@]);
        reveal_strlit(", ");
        reveal_strlit("version, --V");
        reveal_strlit("help, -h");
        reveal_strlit("info, --i");
        reveal_strlit("move");
        reveal_strlit("version");
        reveal_strlit("--V");
        reveal_strlit("help");
        reveal_strlit("-h");
        reveal_strlit("info");
        reveal_strlit("--i");
        assert("move"@.len() != "version"@.len());
        assert("move"@.len() != "--V"@.len());
        assert("move"@[0] != "help"@[0]);
        assert("move"@.len() != "-h"@.len());
        assert("move"@[0] != "info"@[0]);
        assert("move"@.len() != "--i"@.len());
        assert("version"@.len() != "--V"@.len());
        assert("version"@.len() != "help"@.len());
        assert("version"@.len() != "-h"@.len());
        assert("version"@.len() != "info"@.len());
        assert("version"@.len() != "--i"@.len());
        assert("--V"@.len() != "help"@.len());
        assert("--V"@.len() != "-h"@.len());
        assert("--V"@.len() != "info"@.len());
        assert("--V"@[2] != "--i"@[2]);
        assert("help"@.len() != "-h"@.len());
        assert("help"@[0] != "info"@[0]);
        assert("help"@.len() != "--i"@.len());
        assert("-h"@.len() != "info"@.len());
        assert("-h"@.len() != "--i"@.len());
        assert("info"@.len() != "--i"@.len());
        assert(t@[1].name@ + ", "@ + t@[1].alias->0@ =~= "version, --V"@);
        assert(t@[2].name@ + ", "@ + t@[2].alias->0@ =~= "help, -h"@);
        assert(t@[3].name@ + ", "@ + t@[3].alias->0@ =~= "info, --i"@);
        assert(table_labels(t@) =~= seq!["move"@, "version, --V"@, "help, -h"@, "info, --i"@]);
    }
    t
}

/// The help table of `move`, in the order it is shown.
pub fn move_command_table() -> (r: Vec<CommandSpec>)
    ensures
        table_labels(r@) == seq!["build"@, "coverage"@, "disassemble"@, "docgen"@, "errmap"@, "info"@, "new"@, "prove"@, "test"@],
        spec_tokens(r@) == seq!["build"@, "coverage"@, "disassemble"@, "docgen"@, "errmap"@, "info"@, "new"@, "prove"@, "test"@],
        spec_tokens(r@).no_duplicates(),
{
    let mut t: Vec<CommandSpec> = Vec::new();
    let ghost t0 = t@;
    t.push(CommandSpec::new("build", None, "Build the package"));
    let ghost t1 = t@;
    t.push(CommandSpec::new("coverage", None, "Inspect test coverage for this package. A previous test run with the `--coverage` flag must have"));
    let ghost t2 = t@;
    t.push(CommandSpec::new("disassemble", None, "Disassemble Move bytecode"));
    let ghost t3 = t@;
    t.push(CommandSpec::new("docgen", None, "Generate documentation"));
    let ghost t4 = t@;
    t.push(CommandSpec::new("errmap", None, "Generate error map"));
    let ghost t5 = t@;
    t.push(CommandSpec::new("info", None, "Print address information"));
    let ghost t6 = t@;
    t.push(CommandSpec::new("new", None, "Create a new Move package with name `name` at `path`. If `path` is not provided the package will"));
    let ghost t7 = t@;
    t.push(CommandSpec::new("prove", None, "Prove a Move module"));
    let ghost t8 = t@;
    t.push(CommandSpec::new("test", None, "Run Move unit tests"));
    proof {
        assert(t0 =~= Seq::<CommandSpec>::empty());
        lemma_tokens_push(t0, t@[0]);
        assert(t1 =~= t0.push(t@[0]));
        lemma_tokens_push(t1, t@[1]);
        assert(t2 =~= t1.push(t@[1]));
        lemma_tokens_push(t2, t@[2]);
        assert(t3 =~= t2.push(t@[2]));
        lemma_tokens_push(t3, t@[3]);
        assert(t4 =~= t3.push(t@[3]));
        lemma_tokens_push(t4, t@[4]);
        assert(t5 =~= t4.push(t@[4]));
        lemma_tokens_push(t5, t@[5]);
        assert(t6 =~= t5.push(t@[5]));
        lemma_tokens_push(t6, t@[6]);
        assert(t7 =~= t6.push(t@[6]));
        lemma_tokens_push(t7, t@[7]);
        assert(t8 =~= t7.push(t@[7]));
        lemma_tokens_push(t8, t@[8]);
        assert(t@ =~= t8.push(t@[8]));
        assert(spec_tokens(t@) =~= seq!["build"@, "coverage"@, "disassemble"@, "docgen"@, "errmap"@, "info"@, "new"@, "prove"@, "test"@]);
        assert(table_labels(t@) =~= seq!["build"@, "coverage"@, "disassemble"@, "docgen"@, "errmap"@, "info"@, "new"@, "prove"@, "test"@]);
        reveal_strlit("build");
        reveal_strlit("coverage");
        reveal_strlit("disassemble");
        reveal_strlit("docgen");
        reveal_strlit("errmap");
        reveal_strlit("info");
        reveal_strlit("new");
        reveal_strlit("prove");
        reveal_strlit("test");
        assert("build"@.len() != "coverage"@.len());
        assert("build"@.len() != "disassemble"@.len());
        assert("build"@.len() != "docgen"@.len());
        assert("build"@.len() != "errmap"@.len());
        assert("build"@.len() != "info"@.len());
        assert("build"@.len() != "new"@.len());
        assert("build"@[0] != "prove"@[0]);
        assert("build"@.len() != "test"@.len());
        assert("coverage"@.len() != "disassemble"@.len());
        assert("coverage"@.len() != "docgen"@.len());
        assert("coverage"@.len() != "errmap"@.len());
        assert("coverage"@.len() != "info"@.len());
        assert("coverage"@.len() != "new"@.len());
        assert("coverage"@.len() != "prove"@.len());
        assert("coverage"@.len() != "test"@.len());
        assert("disassemble"@.len() != "docgen"@.len());
        assert("disassemble"@.len() != "errmap"@.len());
        assert("disassemble"@.len() != "info"@.len());
        assert("disassemble"@.len() != "new"@.len());
        assert("disassemble"@.len() != "prove"@.len());
        assert("disassemble"@.len() != "test"@.len());
        assert("docgen"@[0] != "errmap"@[0]);
        assert("docgen"@.len() != "info"@.len());
        assert("docgen"@.len() != "new"@.len());
        assert("docgen"@.len() != "prove"@.len());
        assert("docgen"@.len() != "test"@.len());
        assert("errmap"@.len() != "info"@.len());
        assert("errmap"@.len() != "new"@.len());
        assert("errmap"@.len() != "prove"@.len());
        assert("errmap"@.len() != "test"@.len());
        assert("info"@.len() != "new"@.len());
        assert("info"@.len() != "prove"@.len());
        assert("info"@[0] != "test"@[0]);
        assert("new"@.len() != "prove"@.len());
        assert("new"@.len() != "test"@.len());
        assert("prove"@.len() != "test"@.len());
    }
    t
}

/// With no verb at all the top-level help is shown, without the error line, and the
/// process still ends with a non-zero status.
pub proof fn lemma_short_args_show_plain_help(args: Seq<Seq<char>>, r: CliOutcome)
    requires
        args.len() < 2,
        spec_cli_resolution(args, r),
    ensures
        r == (CliOutcome::ShowHelp { error: false }),
        spec_exit_code(r) != 0,
{
}

/// A top-level verb outside the known set shows the help with the error line.
pub proof fn lemma_unknown_verb_shows_error_help(args: Seq<Seq<char>>, r: CliOutcome)
    requires
        args.len() >= 2,
        args[1] != "move"@,
        args[1] != "version"@,
        args[1] != "--V"@,
        args[1] != "help"@,
        args[1] != "-h"@,
        args[1] != "info"@,
        args[1] != "--i"@,
        spec_cli_resolution(args, r),
    ensures
        r == (CliOutcome::ShowHelp { error: true }),
        spec_exit_code(r) != 0,
{
}

/// A verb under `move` outside the nine known ones shows the `move` help with the
/// error line.
pub proof fn lemma_unknown_move_verb_shows_error_help(args: Seq<Seq<char>>, r: CliOutcome)
    requires
        args.len() >= 3,
        args[1] == "move"@,
        args[2] != "build"@,
        args[2] != "coverage"@,
        args[2] != "disassemble"@,
        args[2] != "docgen"@,
        args[2] != "errmap"@,
        args[2] != "info"@,
        args[2] != "new"@,
        args[2] != "test"@,
        args[2] != "prove"@,
        spec_cli_resolution(args, r),
    ensures
        r == CliOutcome::Move(MoveOutcome::ShowHelp { error: true }),
        spec_exit_code(r) != 0,
{
}

proof fn lemma_move_verbs_known()
    ensures
        spec_move_verb("build"@) == Some(MoveVerb::Build),
        spec_move_verb("coverage"@) == Some(MoveVerb::Coverage),
        spec_move_verb("disassemble"@) == Some(MoveVerb::Disassemble),
        spec_move_verb("docgen"@) == Some(MoveVerb::Docgen),
        spec_move_verb("errmap"@) == Some(MoveVerb::Errmap),
        spec_move_verb("info"@) == Some(MoveVerb::Info),
        spec_move_verb("new"@) == Some(MoveVerb::New),
        spec_move_verb("test"@) == Some(MoveVerb::Test),
        spec_move_verb("prove"@) == Some(MoveVerb::Prove),
        spec_top_verb("move"@) == Some(TopVerb::Move),
{
    reveal_strlit("move");
    reveal_strlit("build");
    reveal_strlit("coverage");
    reveal_strlit("disassemble");
    reveal_strlit("docgen");
    reveal_strlit("errmap");
    reveal_strlit("info");
    reveal_strlit("new");
    reveal_strlit("test");
    reveal_strlit("prove");
    assert("coverage"@.len() != "build"@.len());
    assert("disassemble"@.len() != "build"@.len());
    assert("disassemble"@.len() != "coverage"@.len());
    assert("docgen"@.len() != "build"@.len());
    assert("docgen"@.len() != "coverage"@.len());
    assert("docgen"@.len() != "disassemble"@.len());
    assert("errmap"@.len() != "build"@.len());
    assert("errmap"@.len() != "coverage"@.len());
    assert("errmap"@.len() != "disassemble"@.len());
    assert("errmap"@[0] != "docgen"@[0]);
    assert("info"@.len() != "build"@.len());
    assert("info"@.len() != "coverage"@.len());
    assert("info"@.len() != "disassemble"@.len());
    assert("info"@.len() != "docgen"@.len());
    assert("info"@.len() != "errmap"@.len());
    assert("new"@.len() != "build"@.len());
    assert("new"@.len() != "coverage"@.len());
    assert("new"@.len() != "disassemble"@.len());
    assert("new"@.len() != "docgen"@.len());
    assert("new"@.len() != "errmap"@.len());
    assert("new"@.len() != "info"@.len());
    assert("test"@.len() != "build"@.len());
    assert("test"@.len() != "coverage"@.len());
    assert("test"@.len() != "disassemble"@.len());
    assert("test"@.len() != "docgen"@.len());
    assert("test"@.len() != "errmap"@.len());
    assert("test"@[0] != "info"@[0]);
    assert("test"@.len() != "new"@.len());
    assert("prove"@[0] != "build"@[0]);
    assert("prove"@.len() != "coverage"@.len());
    assert("prove"@.len() != "disassemble"@.len());
    assert("prove"@.len() != "docgen"@.len());
    assert("prove"@.len() != "errmap"@.len());
    assert("prove"@.len() != "info"@.len());
    assert("prove"@.len() != "new"@.len());
    assert("prove"@.len() != "test"@.len());
}

/// `new` with a missing or empty project name is refused as such, and resolves to no
/// command at all, so nothing gets laid out.
pub proof fn lemma_new_without_name_is_refused(args: Seq<Seq<char>>, r: MoveOutcome)
    requires
        args.len() >= 3,
        args[2] == "new"@,
        args.len() == 3 || args[3].len() == 0,
        spec_move_resolution(args, r),
    ensures
        r is MissingProjectName,
        !(r is Run),
{
    lemma_move_verbs_known();
}

/// `test` with nothing else resolves to eight threads and every flag off; `docgen`
/// to a table of contents three deep with sections from level 0.
pub proof fn lemma_builder_defaults(args: Seq<Seq<char>>, r: MoveOutcome)
    requires
        args.len() >= 3,
        args[2] == "test"@ || args[2] == "docgen"@,
        spec_move_resolution(args, r),
    ensures
        r is Run,
        args[2] == "test"@ ==> (r->Run_0 is Test && spec_default_test(r->Run_0->Test_0)
            && r->Run_0->Test_0.num_threads == 8),
        args[2] == "docgen"@ ==> (r->Run_0 is Docgen && r->Run_0->Docgen_0.toc_depth == Some(3usize)
            && r->Run_0->Docgen_0.section_level_start == Some(0usize)),
{
    lemma_move_verbs_known();
}

} // verus!
