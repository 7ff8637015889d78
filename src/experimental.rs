use vstd::prelude::*;
use vstd::string::*;
use move_core_types::language_storage::TypeTag;
use move_core_types::transaction_argument::TransactionArgument;
use crate::concretize::{ConcretizeMode, InvalidConcretizeMode, spec_concretize_mode};

verus! {

#[verifier::external_type_specification]
#[verifier::external_body]
pub struct ExTypeTag(TypeTag);

#[verifier::external_type_specification]
#[verifier::external_body]
pub struct ExTransactionArgument(TransactionArgument);

/// Whether the text is a type tag in the grammar of move-core-types' parser.
pub uninterp spec fn type_tag_parses(s: Seq<char>) -> bool;

/// Whether the text is a transaction argument in the grammar of move-core-types' parser.
pub uninterp spec fn transaction_argument_parses(s: Seq<char>) -> bool;

/// Relies on move_core_types::parser::parse_type_tag: it succeeds or fails on the text
/// alone.
#[verifier::external_body]
fn parse_type_tag(s: &str) -> (r: Option<TypeTag>)
    ensures
        r is Some == type_tag_parses(s@),
{
    move_core_types::parser::parse_type_tag(s).ok()
}

/// Relies on move_core_types::parser::parse_transaction_argument: it succeeds or fails
/// on the text alone.
#[verifier::external_body]
fn parse_transaction_argument(s: &str) -> (r: Option<TransactionArgument>)
    ensures
        r is Some == transaction_argument_parses(s@),
{
    move_core_types::parser::parse_transaction_argument(s).ok()
}

/// Experimental analyses.
pub enum ExperimentalCommand {
    /// A read/write set analysis of `module_file`::`fun_name`.
    ReadWriteSet {
        module_file: String,
        fun_name: String,
        signers: Vec<String>,
        args: Vec<TransactionArgument>,
        type_args: Vec<TypeTag>,
        concretize: ConcretizeMode,
    },
}

/// Why the parameters of an experimental command were refused.
#[derive(Debug)]
pub enum ExperimentalArgError {
    /// The transaction argument at this position does not parse.
    BadArgument { index: usize },
    /// The type argument at this position does not parse.
    BadTypeArgument { index: usize },
    /// The concretize mode is not one of the four names.
    BadConcretizeMode(InvalidConcretizeMode),
}

pub open spec fn all_args_parse(v: Seq<String>) -> bool {
    forall|i: int| 0 <= i < v.len() ==> transaction_argument_parses(#[trigger] v[i]@)
}

pub open spec fn all_type_args_parse(v: Seq<String>) -> bool {
    forall|i: int| 0 <= i < v.len() ==> type_tag_parses(#[trigger] v[i]@)
}

/// The mode a command runs with: `dont` when none is given.
pub open spec fn spec_mode_choice(c: Option<&str>) -> Option<ConcretizeMode> {
    match c {
        None => Some(ConcretizeMode::Dont),
        Some(s) => spec_concretize_mode(s@),
    }
}

/// Parses each text with `parse_transaction_argument`, stopping at the first that fails.
fn parse_args(raw: &Vec<String>) -> (r: Result<Vec<TransactionArgument>, usize>)
    ensures
        r is Ok <==> all_args_parse(raw@),
        r is Ok ==> r->Ok_0@.len() == raw@.len(),
        r is Err ==> (r->Err_0 < raw@.len() && !transaction_argument_parses(raw@[r->Err_0 as int]@)
            && forall|i: int| 0 <= i < r->Err_0 ==> transaction_argument_parses(#[trigger] raw@[i]@)),
{
    let mut out: Vec<TransactionArgument> = Vec::new();
    let mut i: usize = 0;
    while i < raw.len()
        invariant
            i <= raw@.len(),
            out@.len() == i,
            forall|j: int| 0 <= j < i ==> transaction_argument_parses(#[trigger] raw@[j]@),
        decreases raw@.len() - i,
    {
        match parse_transaction_argument(raw[i].as_str()) {
            Some(a) => out.push(a),
            None => return Err(i),
        }
        i = i + 1;
    }
    Ok(out)
}

/// Parses each text with `parse_type_tag`, stopping at the first that fails.
fn parse_type_args(raw: &Vec<String>) -> (r: Result<Vec<TypeTag>, usize>)
    ensures
        r is Ok <==> all_type_args_parse(raw@),
        r is Ok ==> r->Ok_0@.len() == raw@.len(),
        r is Err ==> (r->Err_0 < raw@.len() && !type_tag_parses(raw@[r->Err_0 as int]@) && forall|
            i: int,
        | 0 <= i < r->Err_0 ==> type_tag_parses(#[trigger] raw@[i]@)),
{
    let mut out: Vec<TypeTag> = Vec::new();
    let mut i: usize = 0;
    while i < raw.len()
        invariant
            i <= raw@.len(),
            out@.len() == i,
            forall|j: int| 0 <= j < i ==> type_tag_parses(#[trigger] raw@[j]@),
        decreases raw@.len() - i,
    {
        match parse_type_tag(raw[i].as_str()) {
            Some(t) => out.push(t),
            None => return Err(i),
        }
        i = i + 1;
    }
    Ok(out)
}

impl ExperimentalCommand {
    /// Builds a read/write set analysis from its textual parameters. Transaction arguments
    /// are checked first, then type arguments, then the mode; the first that fails is
    /// reported.
    pub fn read_write_set(
        module_file: String,
        fun_name: String,
        signers: Vec<String>,
        raw_args: &Vec<String>,
        raw_type_args: &Vec<String>,
        concretize: Option<&str>,
    ) -> (r: Result<ExperimentalCommand, ExperimentalArgError>)
        ensures
            r is Ok <==> (all_args_parse(raw_args@) && all_type_args_parse(raw_type_args@)
                && spec_mode_choice(concretize) is Some),
            r is Ok ==> ({
                let ExperimentalCommand::ReadWriteSet {
                    module_file: m,
                    fun_name: f,
                    signers: s,
                    args: a,
                    type_args: t,
                    concretize: c,
                } = r->Ok_0;
                m@ == module_file@ && f@ == fun_name@ && s@ == signers@ && a@.len()
                    == raw_args@.len() && t@.len() == raw_type_args@.len() && c
                    == spec_mode_choice(concretize)->0
            }),
            !all_args_parse(raw_args@) ==> (r matches Err(ExperimentalArgError::BadArgument {
                index,
            }) && index < raw_args@.len() && !transaction_argument_parses(raw_args@[index as int]@)
                && forall|i: int|
                0 <= i < index ==> transaction_argument_parses(#[trigger] raw_args@[i]@)),
            all_args_parse(raw_args@) && !all_type_args_parse(raw_type_args@) ==> (r matches Err(
                ExperimentalArgError::BadTypeArgument { index },
            ) && index < raw_type_args@.len() && !type_tag_parses(raw_type_args@[index as int]@)
                && forall|i: int| 0 <= i < index ==> type_tag_parses(#[trigger] raw_type_args@[i]@)),
            all_args_parse(raw_args@) && all_type_args_parse(raw_type_args@) && spec_mode_choice(
                concretize,
            ) is None ==> (r matches Err(ExperimentalArgError::BadConcretizeMode(e))
                && concretize is Some && e.given@ == concretize->0@),
    {
        let args = match parse_args(raw_args) {
            Ok(a) => a,
            Err(index) => return Err(ExperimentalArgError::BadArgument { index }),
        };
        let type_args = match parse_type_args(raw_type_args) {
            Ok(t) => t,
            Err(index) => return Err(ExperimentalArgError::BadTypeArgument { index }),
        };
        let mode = match concretize {
            None => ConcretizeMode::Dont,
            Some(s) => match ConcretizeMode::parse(s) {
                Ok(m) => m,
                Err(e) => return Err(ExperimentalArgError::BadConcretizeMode(e)),
            },
        };
        Ok(
            ExperimentalCommand::ReadWriteSet {
                module_file,
                fun_name,
                signers,
                args,
                type_args,
                concretize: mode,
            },
        )
    }
}

} // verus!
