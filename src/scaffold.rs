use vstd::prelude::*;
use vstd::string::*;
use crate::resolve::New;

verus! {

pub const MOVE_STDLIB_PACKAGE_NAME: &'static str = "MoveStdlib";

pub const MOVE_STDLIB_PACKAGE_PATH: &'static str = "{ git = \"https://github.com/jamesatomc/kanari-move-fix.git\", subdir = \"framework/packages/move-stdlib\", rev = \"master\" }";

pub const MOVE_STDLIB_ADDR_NAME: &'static str = "std";

pub const MOVE_STDLIB_ADDR_VALUE: &'static str = "0x1";

pub const KANARI_FRAMEWORK_PACKAGE_NAME: &'static str = "KanariFramework";

pub const KANARI_FRAMEWORK_PACKAGE_PATH: &'static str = "{ git = \"https://github.com/jamesatomc/kanari-move-fix.git\", subdir = \"framework/packages/kanari-framework\", rev = \"master\" }";

pub const KANARI_FRAMEWORK_ADDR_NAME: &'static str = "kanari_framework";

pub const KANARI_FRAMEWORK_ADDR_VALUE: &'static str = "0x2";

pub const GITIGNORE_TEXT: &'static str = "# Move build output\nbuild/\n\n# Move cache\n.move/\n\n# IDE\n.idea/\n.vscode/\n\n# OS\n.DS_Store\nThumbs.db\n\n# Move coverage and test files\n*.coverage\n*.test\n";

/// One step of laying out a package, on a path relative to the package root.
#[derive(Clone, Debug)]
pub enum FileOp {
    /// Create this directory and any missing parent.
    CreateDirAll { path: String },
    /// Create or overwrite this file with these contents.
    WriteFile { path: String, contents: String },
}

/// A package layout: the root directory and the steps to take under it, in order.
#[derive(Clone, Debug)]
pub struct Scaffold {
    pub root: String,
    pub ops: Vec<FileOp>,
}

pub open spec fn is_dir_op(op: FileOp, path: Seq<char>) -> bool {
    op is CreateDirAll && op->CreateDirAll_path@ == path
}

pub open spec fn is_write_op(op: FileOp, path: Seq<char>, contents: Seq<char>) -> bool {
    op is WriteFile && op->WriteFile_path@ == path && op->WriteFile_contents@ == contents
}

pub open spec fn pairs_view(v: Seq<(String, String)>) -> Seq<(Seq<char>, Seq<char>)> {
    v.map_values(|p: (String, String)| (p.0@, p.1@))
}

/// `name = locator`, one line.
pub open spec fn spec_dep_line(p: (Seq<char>, Seq<char>)) -> Seq<char> {
    p.0 + " = "@ + p.1 + "\n"@
}

/// `name = "literal"`, one line.
pub open spec fn spec_addr_line(p: (Seq<char>, Seq<char>)) -> Seq<char> {
    p.0 + " = \""@ + p.1 + "\"\n"@
}

pub open spec fn spec_dep_lines(s: Seq<(Seq<char>, Seq<char>)>) -> Seq<char>
    decreases s.len(),
{
    if s.len() == 0 {
        Seq::empty()
    } else {
        spec_dep_lines(s.drop_last()) + spec_dep_line(s.last())
    }
}

pub open spec fn spec_addr_lines(s: Seq<(Seq<char>, Seq<char>)>) -> Seq<char>
    decreases s.len(),
{
    if s.len() == 0 {
        Seq::empty()
    } else {
        spec_addr_lines(s.drop_last()) + spec_addr_line(s.last())
    }
}

/// The manifest: package section, dependencies in the order given, addresses with the
/// package's own first and the others in the order given, then the custom text if any.
pub open spec fn spec_manifest(
    name: Seq<char>,
    version: Seq<char>,
    deps: Seq<(Seq<char>, Seq<char>)>,
    addrs: Seq<(Seq<char>, Seq<char>)>,
    custom: Seq<char>,
) -> Seq<char> {
    "[package]\nname = \""@ + name + "\"\nversion = \""@ + version + "\"\n\n[dependencies]\n"@
        + spec_dep_lines(deps) + "\n[addresses]\n"@ + name + " = \"0x0\"\n"@ + spec_addr_lines(
        addrs,
    ) + (if custom.len() > 0 {
        custom + "\n"@
    } else {
        Seq::empty()
    })
}

/// An empty module `name::name`.
pub open spec fn spec_module_stub(name: Seq<char>) -> Seq<char> {
    "module "@ + name + "::"@ + name + " {\n\n}"@
}

/// A test module `name::name_tests` with one placeholder test.
pub open spec fn spec_test_stub(name: Seq<char>) -> Seq<char> {
    "#[test_only]\nmodule "@ + name + "::"@ + name + "_tests {\n    use std::debug;\n    use std::signer;\n    use "@
        + name + "::"@ + name
        + ";\n\n    #[test]\n    fun test_basic() {\n        // Add your test code here\n    }\n}"@
}

/// The layout of a new package: what `execute` lays out for these inputs.
pub open spec fn spec_scaffold(
    name: Seq<char>,
    root: Seq<char>,
    version: Seq<char>,
    deps: Seq<(Seq<char>, Seq<char>)>,
    addrs: Seq<(Seq<char>, Seq<char>)>,
    custom: Seq<char>,
    r: Scaffold,
) -> bool {
    &&& r.root@ == root
    &&& r.ops@.len() == 6
    &&& is_dir_op(r.ops@[0], "sources"@)
    &&& is_write_op(r.ops@[1], "Move.toml"@, spec_manifest(name, version, deps, addrs, custom))
    &&& is_write_op(r.ops@[2], "sources/"@ + name + ".move"@, spec_module_stub(name))
    &&& is_dir_op(r.ops@[3], "tests"@)
    &&& is_write_op(r.ops@[4], "tests/"@ + name + "_tests.move"@, spec_test_stub(name))
    &&& is_write_op(r.ops@[5], ".gitignore"@, GITIGNORE_TEXT@)
}

pub open spec fn spec_default_deps() -> Seq<(Seq<char>, Seq<char>)> {
    seq![
        (MOVE_STDLIB_PACKAGE_NAME@, MOVE_STDLIB_PACKAGE_PATH@),
        (KANARI_FRAMEWORK_PACKAGE_NAME@, KANARI_FRAMEWORK_PACKAGE_PATH@),
    ]
}

pub open spec fn spec_default_addrs() -> Seq<(Seq<char>, Seq<char>)> {
    seq![
        (MOVE_STDLIB_ADDR_NAME@, MOVE_STDLIB_ADDR_VALUE@),
        (KANARI_FRAMEWORK_ADDR_NAME@, KANARI_FRAMEWORK_ADDR_VALUE@),
    ]
}

/// The dependency lines, in the order given.
pub fn render_dep_lines(deps: &Vec<(String, String)>) -> (r: String)
    ensures
        r@ == spec_dep_lines(pairs_view(deps@)),
{
    let mut s = String::new();
    let mut i: usize = 0;
    while i < deps.len()
        invariant
            i <= deps@.len(),
            s@ == spec_dep_lines(pairs_view(deps@).take(i as int)),
        decreases deps@.len() - i,
    {
        s.append(deps[i].0.as_str());
        s.append(" = ");
        s.append(deps[i].1.as_str());
        s.append("\n");
        assert(pairs_view(deps@).take(i + 1).drop_last() =~= pairs_view(deps@).take(i as int));
        i = i + 1;
    }
    assert(pairs_view(deps@).take(deps@.len() as int) =~= pairs_view(deps@));
    s
}

/// The address lines, in the order given.
pub fn render_addr_lines(addrs: &Vec<(String, String)>) -> (r: String)
    ensures
        r@ == spec_addr_lines(pairs_view(addrs@)),
{
    let mut s = String::new();
    let mut i: usize = 0;
    while i < addrs.len()
        invariant
            i <= addrs@.len(),
            s@ == spec_addr_lines(pairs_view(addrs@).take(i as int)),
        decreases addrs@.len() - i,
    {
        s.append(addrs[i].0.as_str());
        s.append(" = \"");
        s.append(addrs[i].1.as_str());
        s.append("\"\n");
        assert(pairs_view(addrs@).take(i + 1).drop_last() =~= pairs_view(addrs@).take(i as int));
        i = i + 1;
    }
    assert(pairs_view(addrs@).take(addrs@.len() as int) =~= pairs_view(addrs@));
    s
}

/// The manifest text.
pub fn render_manifest(
    name: &str,
    version: &str,
    deps: &Vec<(String, String)>,
    addrs: &Vec<(String, String)>,
    custom: &str,
) -> (r: String)
    ensures
        r@ == spec_manifest(name@, version@, pairs_view(deps@), pairs_view(addrs@), custom@),
{
    let mut s = String::from_str("[package]\nname = \"");
    s.append(name);
    s.append("\"\nversion = \"");
    s.append(version);
    s.append("\"\n\n[dependencies]\n");
    let d = render_dep_lines(deps);
    s.append(d.as_str());
    s.append("\n[addresses]\n");
    s.append(name);
    s.append(" = \"0x0\"\n");
    let a = render_addr_lines(addrs);
    s.append(a.as_str());
    if custom.unicode_len() > 0 {
        s.append(custom);
        s.append("\n");
    }
    s
}

/// The module stub of `sources/<name>.move`.
pub fn render_module_stub(name: &str) -> (r: String)
    ensures
        r@ == spec_module_stub(name@),
{
    let mut s = String::from_str("module ");
    s.append(name);
    s.append("::");
    s.append(name);
    s.append(" {\n\n}");
    s
}

/// The test stub of `tests/<name>_tests.move`.
pub fn render_test_stub(name: &str) -> (r: String)
    ensures
        r@ == spec_test_stub(name@),
{
    let mut s = String::from_str("#[test_only]\nmodule ");
    s.append(name);
    s.append("::");
    s.append(name);
    s.append("_tests {\n    use std::debug;\n    use std::signer;\n    use ");
    s.append(name);
    s.append("::");
    s.append(name);
    s.append(";\n\n    #[test]\n    fun test_basic() {\n        // Add your test code here\n    }\n}");
    s
}

fn joined(a: &str, b: &str, c: &str) -> (r: String)
    ensures
        r@ == a@ + b@ + c@,
{
    let mut s = String::from_str(a);
    s.append(b);
    s.append(c);
    s
}

impl New {
    /// Lays out a new package under `path`, or under a directory named after the package
    /// when no path is given.
    pub fn execute(
        self,
        path: Option<String>,
        version: &str,
        deps: &Vec<(String, String)>,
        addrs: &Vec<(String, String)>,
        custom: &str,
    ) -> (r: Scaffold)
        requires
            self.name@.len() > 0,
        ensures
            spec_scaffold(
                self.name@,
                match path {
                    Some(p) => p@,
                    None => self.name@,
                },
                version@,
                pairs_view(deps@),
                pairs_view(addrs@),
                custom@,
                r,
            ),
    {
        let name = self.name;
        let root = match path {
            Some(p) => p,
            None => name.clone(),
        };
        let n = name.as_str();
        let mut ops: Vec<FileOp> = Vec::new();
        ops.push(FileOp::CreateDirAll { path: String::from_str("sources") });
        ops.push(
            FileOp::WriteFile {
                path: String::from_str("Move.toml"),
                contents: render_manifest(n, version, deps, addrs, custom),
            },
        );
        ops.push(
            FileOp::WriteFile {
                path: joined("sources/", n, ".move"),
                contents: render_module_stub(n),
            },
        );
        ops.push(FileOp::CreateDirAll { path: String::from_str("tests") });
        ops.push(
            FileOp::WriteFile {
                path: joined("tests/", n, "_tests.move"),
                contents: render_test_stub(n),
            },
        );
        ops.push(
            FileOp::WriteFile {
                path: String::from_str(".gitignore"),
                contents: String::from_str(GITIGNORE_TEXT),
            },
        );
        Scaffold { root, ops }
    }

    /// Lays out a new package at version 0.0.0 with the standard library and the
    /// framework as dependencies and their addresses bound.
    pub fn execute_with_defaults(self, path: Option<String>) -> (r: Scaffold)
        requires
            self.name@.len() > 0,
        ensures
            spec_scaffold(
                self.name@,
                match path {
                    Some(p) => p@,
                    None => self.name@,
                },
                "0.0.0"@,
                spec_default_deps(),
                spec_default_addrs(),
                Seq::empty(),
                r,
            ),
    {
        let deps = default_deps();
        let addrs = default_addrs();
        let r = self.execute(path, "0.0.0", &deps, &addrs, "");
        proof {
            assert(pairs_view(deps@) =~= spec_default_deps());
            assert(pairs_view(addrs@) =~= spec_default_addrs());
            reveal_strlit("");
        }
        r
    }
}

/// The standard library and the framework, as dependencies.
pub fn default_deps() -> (r: Vec<(String, String)>)
    ensures
        pairs_view(r@) == spec_default_deps(),
{
    let mut v: Vec<(String, String)> = Vec::new();
    v.push((String::from_str(MOVE_STDLIB_PACKAGE_NAME), String::from_str(MOVE_STDLIB_PACKAGE_PATH)));
    v.push(
        (String::from_str(KANARI_FRAMEWORK_PACKAGE_NAME), String::from_str(KANARI_FRAMEWORK_PACKAGE_PATH)),
    );
    assert(pairs_view(v@) =~= spec_default_deps());
    v
}

/// The standard library's and the framework's named addresses.
pub fn default_addrs() -> (r: Vec<(String, String)>)
    ensures
        pairs_view(r@) == spec_default_addrs(),
{
    let mut v: Vec<(String, String)> = Vec::new();
    v.push((String::from_str(MOVE_STDLIB_ADDR_NAME), String::from_str(MOVE_STDLIB_ADDR_VALUE)));
    v.push((String::from_str(KANARI_FRAMEWORK_ADDR_NAME), String::from_str(KANARI_FRAMEWORK_ADDR_VALUE)));
    assert(pairs_view(v@) =~= spec_default_addrs());
    v
}

/// Laying out the same package twice gives the same steps, byte for byte, and every
/// file step overwrites: a second run leaves files identical to the first's.
pub proof fn lemma_scaffold_deterministic(
    name: Seq<char>,
    root: Seq<char>,
    version: Seq<char>,
    deps: Seq<(Seq<char>, Seq<char>)>,
    addrs: Seq<(Seq<char>, Seq<char>)>,
    custom: Seq<char>,
    first: Scaffold,
    second: Scaffold,
)
    requires
        spec_scaffold(name, root, version, deps, addrs, custom, first),
        spec_scaffold(name, root, version, deps, addrs, custom, second),
    ensures
        first.root@ == second.root@,
        first.ops@.len() == second.ops@.len(),
        forall|i: int|
            0 <= i < first.ops@.len() ==> {
                let a = #[trigger] first.ops@[i];
                let b = second.ops@[i];
                (a is CreateDirAll && b is CreateDirAll && a->CreateDirAll_path@
                    == b->CreateDirAll_path@) || (a is WriteFile && b is WriteFile
                    && a->WriteFile_path@ == b->WriteFile_path@ && a->WriteFile_contents@
                    == b->WriteFile_contents@)
            },
{
}

proof fn lemma_lines_push(s: Seq<(Seq<char>, Seq<char>)>, x: (Seq<char>, Seq<char>))
    ensures
        spec_dep_lines(s.push(x)) == spec_dep_lines(s) + spec_dep_line(x),
        spec_addr_lines(s.push(x)) == spec_addr_lines(s) + spec_addr_line(x),
{
    assert(s.push(x).drop_last() =~= s);
    assert(s.push(x).last() == x);
}

/// Dependencies and addresses come out in the order they are given: for any two pairs,
/// in either order, the first given is the first written.
pub proof fn lemma_pair_order_kept(p: (Seq<char>, Seq<char>), q: (Seq<char>, Seq<char>))
    ensures
        spec_dep_lines(seq![p, q]) == spec_dep_line(p) + spec_dep_line(q),
        spec_dep_lines(seq![q, p]) == spec_dep_line(q) + spec_dep_line(p),
        spec_addr_lines(seq![p, q]) == spec_addr_line(p) + spec_addr_line(q),
        spec_addr_lines(seq![q, p]) == spec_addr_line(q) + spec_addr_line(p),
{
    let e = Seq::<(Seq<char>, Seq<char>)>::empty();
    assert(seq![p, q] =~= e.push(p).push(q));
    assert(seq![q, p] =~= e.push(q).push(p));
    lemma_lines_push(e, p);
    lemma_lines_push(e, q);
    lemma_lines_push(e.push(p), q);
    lemma_lines_push(e.push(q), p);
    assert(spec_dep_lines(e) + spec_dep_line(p) =~= spec_dep_line(p));
    assert(spec_dep_lines(e) + spec_dep_line(q) =~= spec_dep_line(q));
    assert(spec_addr_lines(e) + spec_addr_line(p) =~= spec_addr_line(p));
    assert(spec_addr_lines(e) + spec_addr_line(q) =~= spec_addr_line(q));
}

} // verus!
