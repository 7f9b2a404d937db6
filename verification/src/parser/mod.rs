//! The parser: reads the tokens of a source into a syntax tree.

pub mod expressions;
pub mod items;
pub mod patterns;
pub mod state;
pub mod types;

use crate::ast::Module;
use crate::chars::utf8_len;
use crate::diagnostics::ParseDiagnostic;
use crate::grammar::cursor::{Input, Parsed};
use crate::grammar::items::parse_result;
use crate::interner::Interner;
use crate::lexer::{fits, tokenize};
use crate::model::{module_model, ModuleModel};
use crate::parser::items::parse_tokens;
use crate::scan::tokens_of;
use vstd::prelude::*;

verus! {

/// What parsing a source gives when the table of texts holds `names`
/// before: the source is scanned, and its tokens are parsed with the table
/// of texts that scanning left.
pub open spec fn parse_source(s: Seq<char>, file_id: usize, names: Seq<Seq<char>>) -> Parsed<
    ModuleModel,
> {
    let lexed = tokens_of(s, file_id, names);
    parse_result(Input { tokens: lexed.tokens, names: lexed.names })
}

/// Parses a source. Returns the module, which holds what could be read,
/// and the diagnostics in the order in which they were reported. The texts
/// of the names and literals of the source are interned in `interner`.
pub fn parse_module(file_id: usize, source: &str, interner: &mut Interner) -> (r: (
    Module,
    Vec<ParseDiagnostic>,
))
    requires
        utf8_len(source@) < usize::MAX,
    ensures
        Some(module_model(r.0)) == parse_source(source@, file_id, old(interner)@).value,
        r.1@ == parse_source(source@, file_id, old(interner)@).diagnostics,
        final(interner)@ == tokens_of(source@, file_id, old(interner)@).names,
        old(interner).wf() ==> final(interner).wf(),
{
    let tokens = tokenize(file_id, source, interner);
    parse_tokens(&tokens, interner)
}

/// Parses a source as [`parse_module`] does, if the source is short enough
/// for its byte offsets; else returns nothing and leaves `interner` as it
/// is.
pub fn try_parse_module(file_id: usize, source: &str, interner: &mut Interner) -> (r: Option<
    (Module, Vec<ParseDiagnostic>),
>)
    ensures
        match r {
            Some(parsed) => utf8_len(source@) < usize::MAX && Some(module_model(parsed.0))
                == parse_source(source@, file_id, old(interner)@).value && parsed.1@
                == parse_source(source@, file_id, old(interner)@).diagnostics && final(interner)@
                == tokens_of(source@, file_id, old(interner)@).names,
            None => utf8_len(source@) >= usize::MAX && *final(interner) == *old(interner),
        },
        old(interner).wf() ==> final(interner).wf(),
{
    if fits(source) {
        Some(parse_module(file_id, source, interner))
    } else {
        None
    }
}

} // verus!
