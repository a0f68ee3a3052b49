//! The syntax tree provider: hands source text to the swc parser and
//! reduces the parsed module to the library's model. Parsing, the
//! per-node reduction, and the tie between a text and its model
//! (`module_model_of`) are trusted; the loops that assemble the model
//! are verified, and the matcher is verified for every model value
//! this module can produce.

use vstd::prelude::*;

use crate::ast::{Callee, CallExpr, Declarator, Init, Module, Pattern, TopLevelItem, VarDecl};
use swc_common::input::StringInput;
use swc_common::sync::Lrc;
use swc_common::{FileName, SourceMap};
use swc_ecmascript::ast::EsVersion;
use swc_ecmascript::parser::lexer::Lexer;
use swc_ecmascript::parser::{Parser, Syntax, TsSyntax};

verus! {

/// A fatal parse failure: the source text is not a module of the
/// supported dialect. Distinct from "no matches found".
#[derive(Debug)]
pub struct ParseError;

#[verifier::external_type_specification]
#[verifier::external_body]
pub struct ExSwcModuleItem(swc_ecmascript::ast::ModuleItem);

#[verifier::external_type_specification]
#[verifier::external_body]
pub struct ExSwcVarDeclarator(swc_ecmascript::ast::VarDeclarator);

#[verifier::external_type_specification]
#[verifier::external_body]
pub struct ExSwcExpr(swc_ecmascript::ast::Expr);

// Whether the swc parser accepts the text as a module of the fixed
// dialect (TypeScript with markup expressions, latest language
// version). The parser is deterministic, so this is a function of the
// text alone.
pub uninterp spec fn can_parse(s: Seq<char>) -> bool;

// The model of a parseable text: the top-level items that parsing the
// text and reducing each parsed item with the reducers below yields.
// Both steps are functions of the text alone — the parser is
// deterministic under the fixed dialect, and each reducer reads only
// its node — so the model is too. On a text that does not parse the
// value is unconstrained and nothing speaks of it.
pub uninterp spec fn module_model_of(s: Seq<char>) -> Seq<TopLevelItem>;

/// Relies on swc_ecmascript's parser (`Lexer::new`, `Parser::new_from`,
/// `Parser::parse_module`): parses the text as a TypeScript module with
/// markup enabled, deterministically, and fails exactly on text that
/// the dialect rejects. The parsed items are reduced to the model by
/// `convert_items` over the reducers below, so a returned module holds
/// exactly the model of the text.
#[verifier::external_body]
fn parse_swc(source: &str) -> (r: Result<Module, ParseError>)
    ensures
        r is Ok <==> can_parse(source@),
        r matches Ok(m) ==> m.items@ == module_model_of(source@),
{
    let cm = Lrc::new(SourceMap::default());
    let fm = cm.new_source_file(Lrc::new(FileName::Anon), source.to_string());
    let syntax = Syntax::Typescript(TsSyntax { tsx: true, ..Default::default() });
    let lexer = Lexer::new(syntax, EsVersion::EsNext, StringInput::from(&*fm), None);
    let mut parser = Parser::new_from(lexer);
    match parser.parse_module() {
        Ok(m) => Ok(convert_items(&m.body)),
        Err(_) => Err(ParseError),
    }
}

/// Relies on swc_ecma_ast's `ModuleItem`, `ModuleDecl`, `ExportDecl`
/// and `Decl`: yields the declarator list exactly when the item is an
/// export declaration wrapping a variable declaration.
#[verifier::external_body]
fn export_var_declarators(item: &swc_ecmascript::ast::ModuleItem) -> Option<
    Vec<swc_ecmascript::ast::VarDeclarator>,
> {
    match item {
        swc_ecmascript::ast::ModuleItem::ModuleDecl(
            swc_ecmascript::ast::ModuleDecl::ExportDecl(ed),
        ) => match &ed.decl {
            swc_ecmascript::ast::Decl::Var(v) => Some(v.decls.clone()),
            _ => None,
        },
        _ => None,
    }
}

/// Relies on swc_ecma_ast's `Pat`: a plain identifier binding gives its
/// name; every other binding shape is not a simple identifier. The
/// identifier's type annotation is purely typing decoration and is
/// dropped.
#[verifier::external_body]
fn declarator_pattern(d: &swc_ecmascript::ast::VarDeclarator) -> Pattern {
    match &d.name {
        swc_ecmascript::ast::Pat::Ident(b) => Pattern::Ident(b.id.sym.to_string()),
        _ => Pattern::Destructuring,
    }
}

/// Relies on swc_ecma_ast's `VarDeclarator`: hands out a copy of the
/// declarator's initializer expression, if one is present.
#[verifier::external_body]
fn declarator_init(d: &swc_ecmascript::ast::VarDeclarator) -> Option<
    swc_ecmascript::ast::Expr,
> {
    match &d.init {
        Some(e) => Some((**e).clone()),
        None => None,
    }
}

/// Relies on swc_ecma_ast's `Expr` and `Callee`: reduces an expression
/// to the model's distinction — a call whose callee is a bare
/// identifier, a call to anything else, or a non-call. Arguments and
/// generic type arguments are dropped.
#[verifier::external_body]
fn classify_expr(e: &swc_ecmascript::ast::Expr) -> Init {
    match e {
        swc_ecmascript::ast::Expr::Call(c) => Init::Call(
            CallExpr {
                callee: match &c.callee {
                    swc_ecmascript::ast::Callee::Expr(ce) => match &**ce {
                        swc_ecmascript::ast::Expr::Ident(i) => Callee::Ident(i.sym.to_string()),
                        _ => Callee::Other,
                    },
                    _ => Callee::Other,
                },
            },
        ),
        _ => Init::Other,
    }
}

/// Builds the model of one declarator.
fn convert_declarator(d: &swc_ecmascript::ast::VarDeclarator) -> Declarator {
    let pattern = declarator_pattern(d);
    let init = match declarator_init(d) {
        Some(e) => Some(classify_expr(&e)),
        None => None,
    };
    Declarator { pattern, init }
}

/// Builds the model of one top-level item.
fn convert_item(item: &swc_ecmascript::ast::ModuleItem) -> TopLevelItem {
    match export_var_declarators(item) {
        Some(raw) => {
            let mut declarators: Vec<Declarator> = Vec::new();
            let mut i: usize = 0;
            while i < raw.len()
                invariant
                    i <= raw@.len(),
                decreases raw@.len() - i,
            {
                declarators.push(convert_declarator(&raw[i]));
                i += 1;
            }
            TopLevelItem::ExportVar(VarDecl { declarators })
        },
        None => TopLevelItem::Other,
    }
}

/// Builds the model of a module from the parser's top-level items, one
/// model item per parsed item, in the same order.
fn convert_items(raw: &Vec<swc_ecmascript::ast::ModuleItem>) -> (m: Module)
    ensures
        m.items@.len() == raw@.len(),
{
    let mut items: Vec<TopLevelItem> = Vec::new();
    let mut i: usize = 0;
    while i < raw.len()
        invariant
            i <= raw@.len(),
            items@.len() == i,
        decreases raw@.len() - i,
    {
        items.push(convert_item(&raw[i]));
        i += 1;
    }
    Module { items }
}

/// Parses source text into the library's module model. Returns `Err`
/// exactly when the text cannot be parsed; a parsed module is never
/// partial and holds exactly the model of the text.
pub fn parse_module_text(source: &str) -> (r: Result<Module, ParseError>)
    ensures
        r is Ok <==> can_parse(source@),
        r matches Ok(m) ==> m.items@ == module_model_of(source@),
{
    parse_swc(source)
}

} // verus!
