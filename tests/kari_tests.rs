use kari::addresses::{is_system_reserved_address, is_vm_or_system_reserved_address, Address};
use kari::concretize::ConcretizeMode;
use kari::experimental::{ExperimentalArgError, ExperimentalCommand};
use kari::help::{label_width, render_help, render_row, table_tokens, tokens_distinct, CommandSpec};
use kari::resolve::{
    cli_command_table, handle_move_command, move_command_table, resolve_cli, CliOutcome,
    MoveCommand, MoveOutcome, New,
};
use kari::scaffold::{default_addrs, default_deps, FileOp, Scaffold, GITIGNORE_TEXT};
use move_core_types::account_address::AccountAddress;
use move_core_types::language_storage::TypeTag;
use move_core_types::transaction_argument::TransactionArgument;

fn new_address(u: u8) -> AccountAddress {
    let mut addr = [0u8; AccountAddress::LENGTH];
    addr[AccountAddress::LENGTH - 1] = u;
    AccountAddress::new(addr)
}

fn lib(a: AccountAddress) -> Address {
    Address::new(a.into_bytes())
}

fn args(v: &[&str]) -> Vec<String> {
    v.iter().map(|s| s.to_string()).collect()
}

fn file<'a>(s: &'a Scaffold, path: &str) -> &'a str {
    for op in &s.ops {
        if let FileOp::WriteFile { path: p, contents } = op {
            if p == path {
                return contents;
            }
        }
    }
    panic!("no file {}", path)
}

#[test]
fn test_is_system_reserved_address() {
    assert!(!is_system_reserved_address(lib(AccountAddress::ZERO)));
    assert!(is_system_reserved_address(lib(new_address(1))));
    assert!(!is_system_reserved_address(lib(new_address(11))));
    let random = lib(AccountAddress::random());
    let bytes = random.into_bytes();
    let reserved = bytes[..15].iter().all(|b| *b == 0) && bytes[15] > 0 && bytes[15] <= 10;
    assert_eq!(is_system_reserved_address(random), reserved);
}

#[test]
fn reserved_address_bounds() {
    assert!(is_system_reserved_address(Address::from_last_byte(10)));
    assert!(!is_system_reserved_address(Address::from_last_byte(0)));
    let mut high = [0u8; 16];
    high[0] = 1;
    high[15] = 1;
    assert!(!is_system_reserved_address(Address::new(high)));
}

#[test]
fn vm_or_system_reserved_address() {
    assert!(is_vm_or_system_reserved_address(Address::zero()));
    assert!(is_vm_or_system_reserved_address(Address::from_last_byte(2)));
    assert!(!is_vm_or_system_reserved_address(Address::from_last_byte(11)));
    let mut high = [0u8; 16];
    high[3] = 7;
    assert!(!is_vm_or_system_reserved_address(Address::new(high)));
}

#[test]
fn concretize_mode_names() {
    assert_eq!(ConcretizeMode::parse("paths").unwrap(), ConcretizeMode::Paths);
    assert_eq!(ConcretizeMode::parse("reads").unwrap(), ConcretizeMode::Reads);
    assert_eq!(ConcretizeMode::parse("writes").unwrap(), ConcretizeMode::Writes);
    assert_eq!("dont".parse::<ConcretizeMode>().unwrap(), ConcretizeMode::Dont);
    let err = ConcretizeMode::parse("Paths").unwrap_err();
    assert_eq!(err.given, "Paths");
    assert!(ConcretizeMode::parse("").is_err());
}

#[test]
fn short_argument_vectors_show_plain_help() {
    for v in [args(&[]), args(&["kari"])] {
        let r = resolve_cli(&v);
        assert!(matches!(r, CliOutcome::ShowHelp { error: false }));
        assert_eq!(r.exit_code(), 1);
    }
}

#[test]
fn unknown_top_verb_shows_error_help() {
    for t in ["start", "MOVE", "--h", "mov", ""] {
        let r = resolve_cli(&args(&["kari", t]));
        assert!(matches!(r, CliOutcome::ShowHelp { error: true }), "{}", t);
        assert_eq!(r.exit_code(), 1);
    }
}

#[test]
fn known_top_verbs() {
    assert!(matches!(resolve_cli(&args(&["kari", "version"])), CliOutcome::Version));
    assert!(matches!(resolve_cli(&args(&["kari", "--V"])), CliOutcome::Version));
    assert!(matches!(resolve_cli(&args(&["kari", "help"])), CliOutcome::ShowHelp { error: false }));
    assert!(matches!(resolve_cli(&args(&["kari", "-h"])), CliOutcome::ShowHelp { error: false }));
    assert!(matches!(resolve_cli(&args(&["kari", "info"])), CliOutcome::Info));
    assert!(matches!(resolve_cli(&args(&["kari", "--i"])), CliOutcome::Info));
    assert_eq!(resolve_cli(&args(&["kari", "version"])).exit_code(), 0);
    assert!(matches!(
        resolve_cli(&args(&["kari", "move"])),
        CliOutcome::Move(MoveOutcome::ShowHelp { error: false })
    ));
}

#[test]
fn unknown_move_verb_shows_error_help() {
    for t in ["publish", "Build", "tests", ""] {
        let r = resolve_cli(&args(&["kari", "move", t]));
        assert!(matches!(r, CliOutcome::Move(MoveOutcome::ShowHelp { error: true })), "{}", t);
        assert_eq!(r.exit_code(), 1);
    }
}

#[test]
fn new_without_name_is_refused() {
    let r = handle_move_command(&args(&["kari", "move", "new"]));
    assert!(matches!(r, MoveOutcome::MissingProjectName));
    let r = resolve_cli(&args(&["kari", "move", "new", ""]));
    assert!(matches!(r, CliOutcome::Move(MoveOutcome::MissingProjectName)));
    assert_eq!(r.exit_code(), 1);
}

#[test]
fn new_with_name_resolves() {
    match handle_move_command(&args(&["kari", "move", "new", "foo"])) {
        MoveOutcome::Run(MoveCommand::New(n)) => assert_eq!(n.name, "foo"),
        other => panic!("{:?}", other),
    }
}

#[test]
fn builder_defaults() {
    match handle_move_command(&args(&["kari", "move", "test"])) {
        MoveOutcome::Run(MoveCommand::Test(t)) => {
            assert_eq!(t.num_threads, 8);
            assert_eq!(t.gas_limit, None);
            assert_eq!(t.filter, None);
            assert!(!t.list && !t.report_statistics && !t.report_storage_on_error);
            assert!(!t.ignore_compile_warnings && !t.check_stackless_vm);
            assert!(!t.verbose_mode && !t.compute_coverage);
        }
        other => panic!("{:?}", other),
    }
    match handle_move_command(&args(&["kari", "move", "docgen"])) {
        MoveOutcome::Run(MoveCommand::Docgen(d)) => {
            assert_eq!(d.toc_depth, Some(3));
            assert_eq!(d.section_level_start, Some(0));
            assert!(d.template.is_empty());
            assert!(!d.exclude_private_fun && !d.include_call_diagrams);
        }
        other => panic!("{:?}", other),
    }
    match handle_move_command(&args(&["kari", "move", "coverage"])) {
        MoveOutcome::Run(MoveCommand::Coverage(c)) => assert!(!c.functions && !c.output_csv),
        other => panic!("{:?}", other),
    }
    match handle_move_command(&args(&["kari", "move", "errmap"])) {
        MoveOutcome::Run(MoveCommand::Errmap(e)) => {
            assert_eq!(e.error_prefix, None);
            assert_eq!(e.output_file, "");
        }
        other => panic!("{:?}", other),
    }
    assert!(matches!(
        handle_move_command(&args(&["kari", "move", "build", "extra"])),
        MoveOutcome::Run(MoveCommand::Build(_))
    ));
    assert!(matches!(
        handle_move_command(&args(&["kari", "move", "prove"])),
        MoveOutcome::Run(MoveCommand::Prove(_))
    ));
}

#[test]
fn help_rows_are_aligned() {
    let table = cli_command_table();
    let width = label_width(&table);
    assert_eq!(width, "version, --V".len());
    let rows: Vec<String> = table.iter().map(|c| render_row(c, width)).collect();
    for (row, c) in rows.iter().zip(table.iter()) {
        assert_eq!(row.find(c.description.as_str()), Some(width + 6));
    }
    assert_eq!(rows[0], format!("  move{}  Execute and manage Move VM smart contracts", " ".repeat(10)));
}

#[test]
fn help_text_layout() {
    let table = vec![
        CommandSpec::new("a", None, "first"),
        CommandSpec::new("bcd", Some("-b"), "second"),
    ];
    let plain = render_help(&table, "tool <command>", false);
    assert_eq!(
        plain,
        "USAGE:\ntool <command>\n\nCOMMANDS:\n  a          first\n  bcd, -b    second\n\n"
    );
    let with_error = render_help(&table, "tool <command>", true);
    assert_eq!(with_error, format!("\nERROR: Invalid command\n{}", plain));
    assert_eq!(label_width(&Vec::new()), 0);
    assert_eq!(move_command_table().len(), 9);
    assert_eq!(label_width(&move_command_table()), "disassemble".len());
}

const FOO_MANIFEST: &str = "[package]
name = \"foo\"
version = \"0.0.0\"

[dependencies]
MoveStdlib = { git = \"https://github.com/jamesatomc/kanari-move-fix.git\", subdir = \"framework/packages/move-stdlib\", rev = \"master\" }
KanariFramework = { git = \"https://github.com/jamesatomc/kanari-move-fix.git\", subdir = \"framework/packages/kanari-framework\", rev = \"master\" }

[addresses]
foo = \"0x0\"
std = \"0x1\"
kanari_framework = \"0x2\"
";

#[test]
fn new_foo_layout() {
    let s = New { name: "foo".to_string() }.execute_with_defaults(None);
    assert_eq!(s.root, "foo");
    assert_eq!(s.ops.len(), 6);
    assert!(matches!(&s.ops[0], FileOp::CreateDirAll { path } if path == "sources"));
    assert!(matches!(&s.ops[3], FileOp::CreateDirAll { path } if path == "tests"));
    assert_eq!(file(&s, "Move.toml"), FOO_MANIFEST);
    assert_eq!(file(&s, "sources/foo.move"), "module foo::foo {\n\n}");
    let t = file(&s, "tests/foo_tests.move");
    assert!(t.starts_with("#[test_only]\nmodule foo::foo_tests {\n"));
    assert!(t.contains("    use std::debug;\n    use std::signer;\n    use foo::foo;\n"));
    assert_eq!(t.matches("#[test]").count(), 1);
    assert!(t.contains("fun test_basic()"));
    assert_eq!(file(&s, ".gitignore"), GITIGNORE_TEXT);
    assert!(GITIGNORE_TEXT.contains("build/\n") && GITIGNORE_TEXT.contains("*.coverage\n"));
}

#[test]
fn new_at_given_path() {
    let s = New { name: "bar".to_string() }.execute_with_defaults(Some("/tmp/pkgs/b".to_string()));
    assert_eq!(s.root, "/tmp/pkgs/b");
    assert_eq!(file(&s, "sources/bar.move"), "module bar::bar {\n\n}");
}

#[test]
fn new_twice_is_identical() {
    let a = New { name: "foo".to_string() }.execute_with_defaults(None);
    let b = New { name: "foo".to_string() }.execute_with_defaults(None);
    assert_eq!(format!("{:?}", a), format!("{:?}", b));
    for op in &b.ops {
        if let FileOp::WriteFile { path, contents } = op {
            assert_eq!(file(&a, path), contents);
        }
    }
}

#[test]
fn pair_order_is_kept() {
    let mut deps = default_deps();
    let mut addrs = default_addrs();
    deps.reverse();
    addrs.reverse();
    let s = New { name: "foo".to_string() }.execute(None, "1.2.3", &deps, &addrs, "[extra]\nk = 1");
    let m = file(&s, "Move.toml");
    assert!(m.find("KanariFramework =").unwrap() < m.find("MoveStdlib =").unwrap());
    let tail = "[addresses]\nfoo = \"0x0\"\nkanari_framework = \"0x2\"\nstd = \"0x1\"\n[extra]\nk = 1\n";
    assert!(m.ends_with(tail), "{}", m);
    assert!(m.contains("version = \"1.2.3\"\n"));
}

#[test]
fn minimal_profile_manifest() {
    let s = New { name: "p".to_string() }.execute(None, "0.1.0", &Vec::new(), &Vec::new(), "");
    assert_eq!(
        file(&s, "Move.toml"),
        "[package]\nname = \"p\"\nversion = \"0.1.0\"\n\n[dependencies]\n\n[addresses]\np = \"0x0\"\n"
    );
}

#[test]
fn table_tokens_must_be_distinct() {
    assert!(tokens_distinct(&cli_command_table()));
    assert!(tokens_distinct(&move_command_table()));
    assert_eq!(
        table_tokens(&cli_command_table()),
        vec!["move", "version", "--V", "help", "-h", "info", "--i"]
    );
    let clash = vec![
        CommandSpec::new("run", Some("-r"), "first"),
        CommandSpec::new("-r", None, "second"),
    ];
    assert!(!tokens_distinct(&clash));
    let same_name = vec![CommandSpec::new("a", None, "x"), CommandSpec::new("a", None, "y")];
    assert!(!tokens_distinct(&same_name));
    assert!(tokens_distinct(&Vec::new()));
}

fn strings(v: &[&str]) -> Vec<String> {
    v.iter().map(|s| s.to_string()).collect()
}

#[test]
fn read_write_set_parses_its_arguments() {
    let r = ExperimentalCommand::read_write_set(
        "m.mv".to_string(),
        "f".to_string(),
        strings(&["0x1"]),
        &strings(&["0u8", "true"]),
        &strings(&["u64", "vector<u8>"]),
        None,
    );
    match r {
        Ok(ExperimentalCommand::ReadWriteSet { module_file, fun_name, signers, args, type_args, concretize }) => {
            assert_eq!(module_file, "m.mv");
            assert_eq!(fun_name, "f");
            assert_eq!(signers, vec!["0x1"]);
            assert_eq!(args, vec![TransactionArgument::U8(0), TransactionArgument::Bool(true)]);
            assert_eq!(type_args, vec![TypeTag::U64, TypeTag::Vector(Box::new(TypeTag::U8))]);
            assert_eq!(concretize, ConcretizeMode::Dont);
        }
        Err(e) => panic!("{:?}", e),
    }
}

#[test]
fn read_write_set_refusals() {
    let r = ExperimentalCommand::read_write_set(
        "m".to_string(), "f".to_string(), Vec::new(),
        &strings(&["1u8", "zzz"]), &strings(&["not a type"]), Some("all"),
    );
    assert!(matches!(r, Err(ExperimentalArgError::BadArgument { index: 1 })));
    let r = ExperimentalCommand::read_write_set(
        "m".to_string(), "f".to_string(), Vec::new(),
        &Vec::new(), &strings(&["bool", "vector<"]), Some("all"),
    );
    assert!(matches!(r, Err(ExperimentalArgError::BadTypeArgument { index: 1 })));
    let r = ExperimentalCommand::read_write_set(
        "m".to_string(), "f".to_string(), Vec::new(),
        &Vec::new(), &Vec::new(), Some("all"),
    );
    match r {
        Err(ExperimentalArgError::BadConcretizeMode(e)) => assert_eq!(e.given, "all"),
        _ => panic!("expected a mode error"),
    }
    let r = ExperimentalCommand::read_write_set(
        "m".to_string(), "f".to_string(), Vec::new(),
        &Vec::new(), &Vec::new(), Some("writes"),
    );
    assert!(matches!(r, Ok(ExperimentalCommand::ReadWriteSet { concretize: ConcretizeMode::Writes, .. })));
}
