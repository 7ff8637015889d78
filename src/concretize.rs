use vstd::prelude::*;
use vstd::string::*;

verus! {

/// How a read/write set analysis concretizes and filters its summary.
#[derive(Clone, Copy, Debug, PartialEq, Eq, Structural)]
pub enum ConcretizeMode {
    /// Full concretized access paths read or written.
    Paths,
    /// Only the concrete resource keys that are read.
    Reads,
    /// Only the concrete resource keys that are written.
    Writes,
    /// No concretization: the static analysis as it is.
    Dont,
}

/// A mode name that is none of `paths`, `reads`, `writes`, `dont`.
#[derive(Clone, Debug)]
pub struct InvalidConcretizeMode {
    pub given: String,
}

pub open spec fn spec_concretize_mode(s: Seq<char>) -> Option<ConcretizeMode> {
    if s == "paths"@ {
        Some(ConcretizeMode::Paths)
    } else if s == "reads"@ {
        Some(ConcretizeMode::Reads)
    } else if s == "writes"@ {
        Some(ConcretizeMode::Writes)
    } else if s == "dont"@ {
        Some(ConcretizeMode::Dont)
    } else {
        None
    }
}

/// Whether two strings hold the same characters.
pub fn str_eq(a: &str, b: &str) -> (r: bool)
    ensures
        r == (a@ == b@),
{
    let n = a.unicode_len();
    if n != b.unicode_len() {
        return false;
    }
    let mut i: usize = 0;
    while i < n
        invariant
            n == a@.len(),
            n == b@.len(),
            i <= n,
            forall|j: int| 0 <= j < i ==> a@[j] == b@[j],
        decreases n - i,
    {
        if a.get_char(i) != b.get_char(i) {
            return false;
        }
        i = i + 1;
    }
    assert(a@ =~= b@);
    true
}

impl ConcretizeMode {
    /// Reads a mode from its lower-case name.
    pub fn parse(s: &str) -> (r: Result<ConcretizeMode, InvalidConcretizeMode>)
        ensures
            spec_concretize_mode(s@) is Some ==> r == Ok::<ConcretizeMode, InvalidConcretizeMode>(
                spec_concretize_mode(s@)->0,
            ),
            spec_concretize_mode(s@) is None ==> (r is Err && r->Err_0.given@ == s@),
    {
        if str_eq(s, "paths") {
            Ok(ConcretizeMode::Paths)
        } else if str_eq(s, "reads") {
            Ok(ConcretizeMode::Reads)
        } else if str_eq(s, "writes") {
            Ok(ConcretizeMode::Writes)
        } else if str_eq(s, "dont") {
            Ok(ConcretizeMode::Dont)
        } else {
            Err(InvalidConcretizeMode { given: String::from_str(s) })
        }
    }
}

impl std::str::FromStr for ConcretizeMode {
    type Err = InvalidConcretizeMode;

    fn from_str(s: &str) -> Result<ConcretizeMode, InvalidConcretizeMode> {
        ConcretizeMode::parse(s)
    }
}

} // verus!
