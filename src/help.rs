use vstd::prelude::*;
use vstd::string::*;

verus! {

/// One row of a help table: a verb, an optional second token for it, and what it does.
#[derive(Clone, Debug)]
pub struct CommandSpec {
    pub name: String,
    pub alias: Option<String>,
    pub description: String,
}

/// The left column of a row: `name`, or `name, alias`.
pub open spec fn spec_label(c: CommandSpec) -> Seq<char> {
    match c.alias {
        Some(a) => c.name@ + ", "@ + a@,
        None => c.name@,
    }
}

/// The widest left column of a table, 0 for an empty one.
pub open spec fn spec_label_width(t: Seq<CommandSpec>) -> nat
    decreases t.len(),
{
    if t.len() == 0 {
        0
    } else {
        let rest = spec_label_width(t.drop_last());
        let here = spec_label(t.last()).len();
        if here > rest { here } else { rest }
    }
}

pub open spec fn spec_spaces(n: nat) -> Seq<char> {
    Seq::new(n, |_i: int| ' ')
}

/// A rendered row: the label padded to `width + 2`, two more spaces, then the description.
pub open spec fn spec_row(c: CommandSpec, width: nat) -> Seq<char> {
    "  "@ + spec_label(c) + spec_spaces((width - spec_label(c).len() + 2) as nat) + "  "@
        + c.description@
}

pub open spec fn spec_rows(t: Seq<CommandSpec>, width: nat) -> Seq<char>
    decreases t.len(),
{
    if t.len() == 0 {
        Seq::empty()
    } else {
        spec_rows(t.drop_last(), width) + spec_row(t.last(), width) + "\n"@
    }
}

/// The whole help text: an optional error line, the usage line, then the aligned table.
pub open spec fn spec_help_text(t: Seq<CommandSpec>, usage: Seq<char>, show_error: bool) -> Seq<
    char,
> {
    (if show_error {
        "\nERROR: Invalid command\n"@
    } else {
        Seq::empty()
    }) + "USAGE:\n"@ + usage + "\n\n"@ + "COMMANDS:\n"@ + spec_rows(t, spec_label_width(t))
        + "\n"@
}

/// A row's description starts at this column, whatever the row.
pub open spec fn spec_description_column(c: CommandSpec, width: nat) -> nat {
    (2 + spec_label(c).len() + (width - spec_label(c).len() + 2) + 2) as nat
}

pub fn spaces(n: usize) -> (r: String)
    ensures
        r@ == spec_spaces(n as nat),
{
    let mut s = String::new();
    let mut i: usize = 0;
    while i < n
        invariant
            i <= n,
            s@ == spec_spaces(i as nat),
        decreases n - i,
    {
        s.append(" ");
        proof {
            reveal_strlit(" ");
        }
        assert(s@ =~= spec_spaces((i + 1) as nat));
        i = i + 1;
    }
    s
}

impl CommandSpec {
    pub fn new(name: &str, alias: Option<&str>, description: &str) -> (r: CommandSpec)
        ensures
            r.name@ == name@,
            r.description@ == description@,
            alias is None ==> r.alias is None,
            alias is Some ==> (r.alias is Some && r.alias->0@ == alias->0@),
    {
        let alias = match alias {
            Some(a) => Some(String::from_str(a)),
            None => None,
        };
        CommandSpec { name: String::from_str(name), alias, description: String::from_str(description) }
    }

    /// The left column of this row.
    pub fn label(&self) -> (r: String)
        ensures
            r@ == spec_label(*self),
    {
        let mut s = self.name.clone();
        match &self.alias {
            Some(a) => {
                s.append(", ");
                s.append(a.as_str());
            },
            None => {},
        }
        s
    }
}

/// The width of the left column: the longest label of the table.
pub fn label_width(table: &Vec<CommandSpec>) -> (r: usize)
    ensures
        r == spec_label_width(table@),
{
    let mut w: usize = 0;
    let mut i: usize = 0;
    while i < table.len()
        invariant
            i <= table@.len(),
            w == spec_label_width(table@.take(i as int)),
        decreases table@.len() - i,
    {
        let l = table[i].label().as_str().unicode_len();
        assert(table@.take(i + 1).drop_last() =~= table@.take(i as int));
        if l > w {
            w = l;
        }
        i = i + 1;
    }
    assert(table@.take(table@.len() as int) =~= table@);
    w
}

/// One aligned row of the table.
pub fn render_row(c: &CommandSpec, width: usize) -> (r: String)
    requires
        spec_label(*c).len() <= width,
        width + 2 <= usize::MAX,
    ensures
        r@ == spec_row(*c, width as nat),
{
    let label = c.label();
    let pad = spaces(width - label.as_str().unicode_len() + 2);
    let mut s = String::from_str("  ");
    s.append(label.as_str());
    s.append(pad.as_str());
    s.append("  ");
    s.append(c.description.as_str());
    s
}

/// The help text for a table and a usage line; with `show_error` it opens with an error line.
pub fn render_help(table: &Vec<CommandSpec>, usage: &str, show_error: bool) -> (r: String)
    requires
        spec_label_width(table@) + 2 <= usize::MAX,
    ensures
        r@ == spec_help_text(table@, usage@, show_error),
{
    let width = label_width(table);
    let mut s = if show_error {
        String::from_str("\nERROR: Invalid command\n")
    } else {
        String::new()
    };
    s.append("USAGE:\n");
    s.append(usage);
    s.append("\n\n");
    s.append("COMMANDS:\n");
    let ghost head = s@;
    let mut i: usize = 0;
    while i < table.len()
        invariant
            i <= table@.len(),
            width == spec_label_width(table@),
            width + 2 <= usize::MAX,
            s@ == head + spec_rows(table@.take(i as int), width as nat),
        decreases table@.len() - i,
    {
        proof {
            lemma_label_within_width(table@, i as int);
        }
        let row = render_row(&table[i], width);
        s.append(row.as_str());
        s.append("\n");
        assert(table@.take(i + 1).drop_last() =~= table@.take(i as int));
        i = i + 1;
    }
    assert(table@.take(table@.len() as int) =~= table@);
    s.append("\n");
    s
}

proof fn lemma_label_within_width(t: Seq<CommandSpec>, i: int)
    requires
        0 <= i < t.len(),
    ensures
        spec_label(t[i]).len() <= spec_label_width(t),
    decreases t.len(),
{
    if i < t.len() - 1 {
        lemma_label_within_width(t.drop_last(), i);
        assert(t.drop_last()[i] == t[i]);
    }
}

/// In a rendered table every description starts at the same column, two past the
/// widest label plus four spaces, so no row's description starts before another's.
pub proof fn lemma_help_columns_aligned(t: Seq<CommandSpec>, i: int, j: int)
    requires
        0 <= i < t.len(),
        0 <= j < t.len(),
    ensures
        spec_description_column(t[i], spec_label_width(t)) == spec_label_width(t) + 6,
        spec_description_column(t[i], spec_label_width(t)) == spec_description_column(
            t[j],
            spec_label_width(t),
        ),
        spec_row(t[i], spec_label_width(t)).len() == spec_label_width(t) + 6
            + t[i].description@.len(),
{
    lemma_label_within_width(t, i);
    lemma_label_within_width(t, j);
    reveal_strlit("  ");
}

/// Every token a table answers to, in order: each row's name, then its alias if any.
pub open spec fn spec_tokens(t: Seq<CommandSpec>) -> Seq<Seq<char>>
    decreases t.len(),
{
    if t.len() == 0 {
        Seq::empty()
    } else {
        let c = t.last();
        spec_tokens(t.drop_last()) + match c.alias {
            Some(a) => seq![c.name@, a@],
            None => seq![c.name@],
        }
    }
}

/// The tokens of a table as strings, in the order of `spec_tokens`.
pub fn table_tokens(table: &Vec<CommandSpec>) -> (r: Vec<String>)
    ensures
        r@.map_values(|s: String| s@) == spec_tokens(table@),
{
    let mut out: Vec<String> = Vec::new();
    let mut i: usize = 0;
    while i < table.len()
        invariant
            i <= table@.len(),
            out@.map_values(|s: String| s@) == spec_tokens(table@.take(i as int)),
        decreases table@.len() - i,
    {
        let ghost before = out@;
        out.push(table[i].name.clone());
        match &table[i].alias {
            Some(a) => {
                out.push(a.clone());
            },
            None => {},
        }
        assert(table@.take(i + 1).drop_last() =~= table@.take(i as int));
        assert(out@.map_values(|s: String| s@) =~= spec_tokens(table@.take(i + 1)));
        i = i + 1;
    }
    assert(table@.take(table@.len() as int) =~= table@);
    out
}

/// Whether no token of the table is used twice, as a name or as an alias. A table that
/// fails this must be refused before it is used to recognize verbs.
pub fn tokens_distinct(table: &Vec<CommandSpec>) -> (r: bool)
    ensures
        r == spec_tokens(table@).no_duplicates(),
{
    let toks = table_tokens(table);
    let ghost tv = toks@.map_values(|s: String| s@);
    assert(tv == spec_tokens(table@));
    let n = toks.len();
    let mut i: usize = 0;
    while i < n
        invariant
            n == toks@.len(),
            tv == toks@.map_values(|s: String| s@),
            tv == spec_tokens(table@),
            i <= n,
            forall|a: int, b: int| 0 <= a < i && 0 <= b < n && a != b ==> tv[a] != tv[b],
        decreases n - i,
    {
        let mut j: usize = 0;
        while j < n
            invariant
                n == toks@.len(),
                tv == toks@.map_values(|s: String| s@),
                tv == spec_tokens(table@),
                i < n,
                j <= n,
                forall|a: int, b: int| 0 <= a < i && 0 <= b < n && a != b ==> tv[a] != tv[b],
                forall|b: int| 0 <= b < j && b != i ==> tv[i as int] != tv[b],
            decreases n - j,
        {
            if j != i && crate::concretize::str_eq(toks[i].as_str(), toks[j].as_str()) {
                assert(tv[i as int] == tv[j as int]);
                assert(!tv.no_duplicates());
                return false;
            }
            j = j + 1;
        }
        i = i + 1;
    }
    true
}

pub proof fn lemma_tokens_push(t: Seq<CommandSpec>, c: CommandSpec)
    ensures
        spec_tokens(t.push(c)) == spec_tokens(t) + match c.alias {
            Some(a) => seq![c.name@, a@],
            None => seq![c.name@],
        },
{
    assert(t.push(c).drop_last() =~= t);
}

} // verus!
