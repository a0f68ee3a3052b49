//! The export matcher: decides, for every top-level item of a module,
//! whether it is a marked export — an exported variable declaration
//! with exactly one declarator, whose pattern is a plain identifier and
//! whose initializer is a direct call to a bare identifier among the
//! target names — and emits one record per match, in source order.

use vstd::prelude::*;

use crate::ast::{
    found_views, Callee, Declarator, Found, FoundV, Init, Module, Pattern, TopLevelItem, VarDecl,
};

verus! {

/// The views of the target callee names. Membership is exact,
/// case-sensitive equality of character sequences; duplicates among the
/// targets are harmless (set semantics).
pub open spec fn name_views(callees: Seq<String>) -> Seq<Seq<char>> {
    callees.map_values(|s: String| s@)
}

/// The match produced by one declarator, if any: its pattern must be a
/// plain identifier, its initializer must be present and be a direct
/// call expression, the call's callee must be a bare identifier, and
/// the callee's name must be among the targets.
pub open spec fn declarator_found(d: Declarator, targets: Seq<Seq<char>>) -> Option<FoundV> {
    match d {
        Declarator { pattern: Pattern::Ident(export), init: Some(Init::Call(c)) } => match c.callee {
            Callee::Ident(callee) => if targets.contains(callee@) {
                Some(FoundV { callee: callee@, export: export@ })
            } else {
                None
            },
            Callee::Other => None,
        },
        _ => None,
    }
}

/// The match produced by one top-level item, if any: only an export
/// declaration wrapping a variable declaration with exactly one
/// declarator is eligible; zero or several declarators never match.
pub open spec fn item_found(item: TopLevelItem, targets: Seq<Seq<char>>) -> Option<FoundV> {
    match item {
        TopLevelItem::ExportVar(vd) => if vd.declarators@.len() == 1 {
            declarator_found(vd.declarators@[0], targets)
        } else {
            None
        },
        TopLevelItem::Other => None,
    }
}

/// All matches of an item sequence: one record per qualifying item, in
/// the order the items appear.
pub open spec fn spec_matches(items: Seq<TopLevelItem>, targets: Seq<Seq<char>>) -> Seq<FoundV> {
    items.filter_map(|it: TopLevelItem| item_found(it, targets))
}

/// Whether `name` is one of the target names.
fn is_target(callees: &Vec<String>, name: &String) -> (r: bool)
    ensures
        r == name_views(callees@).contains(name@),
{
    let mut i: usize = 0;
    while i < callees.len()
        invariant
            i <= callees@.len(),
            forall|j: int| 0 <= j < i ==> name_views(callees@)[j] != name@,
        decreases callees@.len() - i,
    {
        if callees[i] == *name {
            assert(name_views(callees@)[i as int] == name@);
            return true;
        }
        i += 1;
    }
    false
}

/// The match produced by one declarator, as executable code.
fn match_declarator(d: &Declarator, callees: &Vec<String>) -> (r: Option<Found>)
    ensures
        (match r {
            Some(f) => declarator_found(*d, name_views(callees@)) == Some(f@),
            None => declarator_found(*d, name_views(callees@)) is None,
        }),
{
    match &d.pattern {
        Pattern::Ident(export) => match &d.init {
            Some(Init::Call(c)) => match &c.callee {
                Callee::Ident(callee) => if is_target(callees, callee) {
                    Some(Found { callee: callee.clone(), export: export.clone() })
                } else {
                    None
                },
                Callee::Other => None,
            },
            _ => None,
        },
        Pattern::Destructuring => None,
    }
}

/// Scans the module's top-level items in source order and returns one
/// `Found` record per qualifying export declarator, in that order.
pub fn match_exports(module: &Module, callees: &Vec<String>) -> (r: Vec<Found>)
    ensures
        found_views(r@) == spec_matches(module.items@, name_views(callees@)),
{
    broadcast use vstd::prelude::Seq::lemma_filter_map_take_succ;

    let ghost targets = name_views(callees@);
    let ghost f = |it: TopLevelItem| item_found(it, targets);
    let mut r: Vec<Found> = Vec::new();
    let mut i: usize = 0;
    while i < module.items.len()
        invariant
            i <= module.items@.len(),
            targets == name_views(callees@),
            f == (|it: TopLevelItem| item_found(it, targets)),
            found_views(r@) == module.items@.take(i as int).filter_map(f),
        decreases module.items@.len() - i,
    {
        let ghost prev = found_views(r@);
        match &module.items[i] {
            TopLevelItem::ExportVar(vd) => {
                if vd.declarators.len() == 1 {
                    match match_declarator(&vd.declarators[0], callees) {
                        Some(fo) => {
                            proof {
                                assert(f(module.items@[i as int]) == Some(fo@));
                            }
                            r.push(fo);
                            proof {
                                assert(found_views(r@) =~= prev + seq![fo@]);
                            }
                        },
                        None => {
                            proof {
                                assert(f(module.items@[i as int]) is None);
                            }
                        },
                    }
                } else {
                    proof {
                        assert(f(module.items@[i as int]) is None);
                    }
                }
            },
            TopLevelItem::Other => {
                proof {
                    assert(f(module.items@[i as int]) is None);
                }
            },
        }
        proof {
            let step = (match f(module.items@[i as int]) {
                Some(s) => seq![s],
                None => Seq::<FoundV>::empty(),
            });
            assert(found_views(r@) =~= prev + step);
            module.items@.lemma_filter_map_take_succ(f, i as int);
            assert(module.items@.take(i as int + 1).filter_map(f) =~= prev + step);
        }
        i += 1;
    }
    proof {
        assert(module.items@.take(module.items@.len() as int) =~= module.items@);
    }
    r
}

/// Whether an item qualifies: it produces a record.
pub open spec fn qualifies(item: TopLevelItem, targets: Seq<Seq<char>>) -> bool {
    item_found(item, targets) is Some
}

/// Order preservation: the records are exactly the qualifying items,
/// in source order, each mapped to its one record.
pub proof fn lemma_matches_in_order(items: Seq<TopLevelItem>, targets: Seq<Seq<char>>)
    ensures
        spec_matches(items, targets) == items.filter(|it: TopLevelItem| qualifies(it, targets))
            .map_values(|it: TopLevelItem| item_found(it, targets).unwrap()),
    decreases items.len(),
{
    reveal(Seq::filter);
    let p = |it: TopLevelItem| qualifies(it, targets);
    let g = |it: TopLevelItem| item_found(it, targets).unwrap();
    if items.len() == 0 {
        assert(items.filter(p).map_values(g) =~= Seq::<FoundV>::empty());
    } else {
        let rest = items.drop_last();
        lemma_matches_in_order(rest, targets);
        match item_found(items.last(), targets) {
            Some(fo) => {
                assert(items.filter(p) == rest.filter(p).push(items.last()));
                assert(items.filter(p).map_values(g) =~= rest.filter(p).map_values(g) + seq![fo]);
            },
            None => {
                assert(items.filter(p) == rest.filter(p));
                assert(spec_matches(items, targets) == spec_matches(rest, targets));
            },
        }
    }
}

/// With an empty target set nothing matches, whatever the module holds.
pub proof fn lemma_empty_targets(items: Seq<TopLevelItem>, targets: Seq<Seq<char>>)
    requires
        targets.len() == 0,
    ensures
        spec_matches(items, targets) =~= Seq::<FoundV>::empty(),
    decreases items.len(),
{
    if items.len() > 0 {
        lemma_empty_targets(items.drop_last(), targets);
        assert(item_found(items.last(), targets) is None);
    }
}

/// Matching distributes over concatenation of item sequences: the
/// records of `a + b` are exactly the records of `a` followed by the
/// records of `b`. Together with the definition of `spec_matches` this
/// pins the output order to source order: each qualifying item
/// contributes its one record at its own position in the traversal.
pub proof fn lemma_matches_append(a: Seq<TopLevelItem>, b: Seq<TopLevelItem>, targets: Seq<Seq<char>>)
    ensures
        spec_matches(a + b, targets) == spec_matches(a, targets) + spec_matches(b, targets),
    decreases b.len(),
{
    let f = |it: TopLevelItem| item_found(it, targets);
    if b.len() == 0 {
        assert(a + b =~= a);
        assert(spec_matches(a, targets) + spec_matches(b, targets) =~= spec_matches(a, targets));
    } else {
        lemma_matches_append(a, b.drop_last(), targets);
        assert((a + b).drop_last() =~= a + b.drop_last());
        assert((a + b).last() == b.last());
        match item_found(b.last(), targets) {
            Some(fo) => {
                assert(spec_matches(a + b, targets) =~= spec_matches(a, targets) + spec_matches(
                    b,
                    targets,
                ));
            },
            None => {},
        }
    }
}

/// Containment: every record of the result arises from some top-level
/// item of the module itself. Nothing below the top level is
/// represented in the model, so nothing below the top level — a call
/// inside a nested function body, markup body, or any other inner
/// scope — can contribute a record.
pub proof fn lemma_matches_containment(
    items: Seq<TopLevelItem>,
    targets: Seq<Seq<char>>,
    k: int,
)
    requires
        0 <= k < spec_matches(items, targets).len(),
    ensures
        exists|i: int|
            0 <= i < items.len() && item_found(items[i], targets) == Some(
                spec_matches(items, targets)[k],
            ),
    decreases items.len(),
{
    let f = |it: TopLevelItem| item_found(it, targets);
    assert(items.len() > 0);
    let rest = items.drop_last();
    match item_found(items.last(), targets) {
        Some(fo) => {
            if k < spec_matches(rest, targets).len() {
                lemma_matches_containment(rest, targets, k);
                let i = choose|i: int|
                    0 <= i < rest.len() && item_found(rest[i], targets) == Some(
                        spec_matches(rest, targets)[k],
                    );
                assert(items[i] == rest[i]);
                assert(item_found(items[i], targets) == Some(spec_matches(items, targets)[k]));
            } else {
                assert(spec_matches(items, targets)[k] == fo);
                assert(item_found(items[items.len() - 1], targets) == Some(
                    spec_matches(items, targets)[k],
                ));
            }
        },
        None => {
            lemma_matches_containment(rest, targets, k);
            let i = choose|i: int|
                0 <= i < rest.len() && item_found(rest[i], targets) == Some(
                    spec_matches(rest, targets)[k],
                );
            assert(items[i] == rest[i]);
            assert(item_found(items[i], targets) == Some(spec_matches(items, targets)[k]));
        },
    }
}

/// Every record carries the matcher's one shape back to its item: the
/// item is an export declaration with exactly one declarator, the
/// declarator's pattern is the identifier the record exports, its
/// initializer is a direct call, the callee is the bare identifier the
/// record names, and that name is among the targets.
pub proof fn lemma_found_shape(item: TopLevelItem, targets: Seq<Seq<char>>, fo: FoundV)
    requires
        item_found(item, targets) == Some(fo),
    ensures
        targets.contains(fo.callee),
        item matches TopLevelItem::ExportVar(vd) && vd.declarators@.len() == 1 && (
        vd.declarators@[0].pattern matches Pattern::Ident(x) && x@ == fo.export) && (
        vd.declarators@[0].init matches Some(Init::Call(c)) && c.callee matches Callee::Ident(g)
            && g@ == fo.callee),
{
}

/// The converse: an exported variable declaration of the matcher's one
/// shape — a single declarator binding a plain identifier to a direct
/// call of a bare identifier among the targets — always produces its
/// record.
pub proof fn lemma_shape_found(
    vd: VarDecl,
    targets: Seq<Seq<char>>,
    callee: String,
    export: String,
)
    requires
        vd.declarators@.len() == 1,
        vd.declarators@[0].pattern == Pattern::Ident(export),
        vd.declarators@[0].init matches Some(Init::Call(c)) && c.callee == Callee::Ident(callee),
        targets.contains(callee@),
    ensures
        item_found(TopLevelItem::ExportVar(vd), targets) == Some(
            FoundV { callee: callee@, export: export@ },
        ),
{
}

/// Destructuring exclusion: a declarator whose pattern is a
/// destructuring pattern never matches, even when its initializer is an
/// eligible call to a target name.
pub proof fn lemma_destructuring_excluded(d: Declarator, targets: Seq<Seq<char>>)
    requires
        d.pattern is Destructuring,
    ensures
        declarator_found(d, targets) is None,
{
}

/// Indirection exclusion: a declarator whose initializer is not a
/// direct call to a bare identifier never matches, whatever the target
/// set. A parenthesized call such as `(0, f)(...)` reaches the matcher
/// as a call whose callee is not a bare identifier; any other wrapper
/// reaches it as a non-call; both are covered, as is a missing
/// initializer.
pub proof fn lemma_indirection_excluded(d: Declarator, targets: Seq<Seq<char>>)
    requires
        d.init matches Some(Init::Call(c)) ==> c.callee is Other,
    ensures
        declarator_found(d, targets) is None,
{
}

} // verus!
