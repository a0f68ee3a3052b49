//! Locates marked top-level export bindings in a source module:
//! exported variable declarations whose initializer is a direct call to
//! one of a caller-supplied set of function names. For each match the
//! library records the pair (callee name, export name) and renders it
//! as `"<callee>/<export>"`, in source order.

pub mod ast;
pub mod matcher;
pub mod parse;
pub mod render;

use vstd::prelude::*;

pub use crate::ast::Found;

use crate::ast::Module;
use crate::matcher::{lemma_empty_targets, match_exports, name_views, spec_matches};
use crate::parse::{can_parse, module_model_of, parse_module_text};
use crate::render::{render, spec_render, string_views};

verus! {

/// The rendered matches of a parsed module: exactly the records of
/// `matcher::spec_matches`, rendered in order.
fn exports_of_module(m: &Module, callees: &Vec<String>) -> (r: Vec<String>)
    ensures
        string_views(r@) == spec_render(spec_matches(m.items@, name_views(callees@))),
        callees@.len() == 0 ==> r@.len() == 0,
{
    let found = match_exports(m, callees);
    let r = render(&found);
    proof {
        if callees@.len() == 0 {
            lemma_empty_targets(m.items@, name_views(callees@));
            assert(spec_render(spec_matches(m.items@, name_views(callees@))).len() == 0);
            assert(string_views(r@).len() == r@.len());
        }
    }
    r
}

/// Finds the marked exports of `source`: one `"<callee>/<export>"`
/// string per exported single-declarator variable declaration whose
/// initializer is a direct call to a bare identifier among `callees`,
/// in source order. The result is exactly the rendered matches of the
/// text's model, so it is a function of `source` and `callees` alone.
/// The source must be parseable; `try_find_exports` is the total
/// variant.
pub fn find_exports(source: &str, callees: Vec<String>) -> (r: Vec<String>)
    requires
        can_parse(source@),
    ensures
        string_views(r@) == spec_render(
            spec_matches(module_model_of(source@), name_views(callees@)),
        ),
        callees@.len() == 0 ==> r@.len() == 0,
{
    match parse_module_text(source) {
        Ok(m) => exports_of_module(&m, &callees),
        Err(_) => {
            proof {
                assert(false);
            }
            vstd::pervasive::unreached()
        },
    }
}

/// The total variant of `find_exports`: `None` reports a parse
/// failure, observably distinct from a parsed module with no matches.
pub fn try_find_exports(source: &str, callees: Vec<String>) -> (r: Option<Vec<String>>)
    ensures
        r is Some <==> can_parse(source@),
        (match r {
            Some(v) => string_views(v@) == spec_render(
                spec_matches(module_model_of(source@), name_views(callees@)),
            ) && (callees@.len() == 0 ==> v@.len() == 0),
            None => !can_parse(source@),
        }),
{
    match parse_module_text(source) {
        Ok(_) => Some(find_exports(source, callees)),
        Err(_) => None,
    }
}

} // verus!
