//! The data model of a parsed module, reduced to what export matching
//! reads: the ordered top-level items, and for each exported variable
//! declaration the shape of its declarators.

use vstd::prelude::*;

verus! {

/// A parsed module: an ordered sequence of top-level items. The order
/// is significant — match records are emitted in the order the
/// corresponding export declarations appear.
pub struct Module {
    pub items: Vec<TopLevelItem>,
}

/// A top-level item of a module. Only an export declaration that wraps
/// a variable declaration can ever produce a match, so every other kind
/// of item — a plain statement, another module-level declaration, an
/// export of a function or class — is collapsed into `Other`. Nothing
/// below the top level is represented, so nothing below the top level
/// can be matched.
pub enum TopLevelItem {
    /// An export declaration wrapping a variable declaration.
    ExportVar(VarDecl),
    /// Any other top-level item.
    Other,
}

/// A variable declaration: an ordered sequence of one or more
/// declarators. The binding kind (immutable, mutable, legacy-mutable)
/// is irrelevant to matching and is not recorded.
pub struct VarDecl {
    pub declarators: Vec<Declarator>,
}

/// One declarator: a binding pattern paired with an optional
/// initializer expression.
pub struct Declarator {
    pub pattern: Pattern,
    pub init: Option<Init>,
}

/// The left-hand shape of a declarator: a simple identifier, or a
/// destructuring (array/object) pattern. A type annotation on the
/// identifier is purely typing decoration and is no part of the model.
pub enum Pattern {
    Ident(String),
    Destructuring,
}

/// An initializer expression, reduced to the one distinction matching
/// needs: a direct call expression, or anything else.
pub enum Init {
    Call(CallExpr),
    Other,
}

/// A call expression. Arguments and generic type arguments never
/// influence matching and are no part of the model.
pub struct CallExpr {
    pub callee: Callee,
}

/// The callee of a call: a bare identifier, or any other expression
/// (a parenthesized expression, member access, `super`, `import`, a
/// computed expression, ...).
pub enum Callee {
    Ident(String),
    Other,
}

/// One match: the name of the callee and the name of the export, in
/// that order. Several records may share a callee or an export name;
/// no deduplication is ever performed.
pub struct Found {
    pub callee: String,
    pub export: String,
}

/// The mathematical value of a `Found` record.
pub ghost struct FoundV {
    pub callee: Seq<char>,
    pub export: Seq<char>,
}

impl View for Found {
    type V = FoundV;

    open spec fn view(&self) -> FoundV {
        FoundV { callee: self.callee@, export: self.export@ }
    }
}

/// The mathematical values of a sequence of records.
pub open spec fn found_views(s: Seq<Found>) -> Seq<FoundV> {
    s.map_values(|fo: Found| fo@)
}

} // verus!
