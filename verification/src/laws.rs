//! Structural laws of the construction engine, stated over whole
//! description trees and proved once and for all.

use crate::dispatch::built_children;
use crate::dispatch::opt_built_view;
use crate::dispatch::spec_build;
use crate::dispatch::BuiltNode;
use crate::dispatch::BuiltWidget;
use crate::kinds::is_flex;
use crate::kinds::kind_of;
use crate::model::Widget;
use vstd::prelude::*;

verus! {

/// Every type tag in the tree resolves against the registry.
pub open spec fn all_registered(w: Widget) -> bool
    decreases w,
{
    kind_of(w.widget@) is Some && (match w.children {
        Some(v) => all_seq_registered(v@),
        None => true,
    })
}

/// Every type tag in each of these subtrees resolves.
pub open spec fn all_seq_registered(s: Seq<Widget>) -> bool
    decreases s,
{
    if s.len() == 0 {
        true
    } else {
        all_registered(s[0]) && all_seq_registered(s.drop_first())
    }
}

/// Number of nodes of a description tree.
pub open spec fn widget_count(w: Widget) -> nat
    decreases w,
{
    1 + (match w.children {
        Some(v) => widget_count_seq(v@),
        None => 0nat,
    })
}

/// Number of nodes of a sequence of description trees.
pub open spec fn widget_count_seq(s: Seq<Widget>) -> nat
    decreases s,
{
    if s.len() == 0 {
        0nat
    } else {
        widget_count(s[0]) + widget_count_seq(s.drop_first())
    }
}

/// Number of widgets of a built tree.
pub open spec fn built_count(b: BuiltNode) -> nat
    decreases b,
{
    1 + built_count_seq(b.children)
}

/// Number of widgets of a sequence of built trees.
pub open spec fn built_count_seq(s: Seq<BuiltNode>) -> nat
    decreases s,
{
    if s.len() == 0 {
        0nat
    } else {
        built_count(s[0]) + built_count_seq(s.drop_first())
    }
}

/// Counting built trees distributes over a prepended tree.
proof fn lemma_count_cons(b: BuiltNode, r: Seq<BuiltNode>)
    ensures
        built_count_seq(seq![b] + r) == built_count(b) + built_count_seq(r),
{
    assert((seq![b] + r).len() > 0);
    assert((seq![b] + r)[0] == b);
    assert((seq![b] + r).drop_first() =~= r);
}

/// Completeness: a tree whose every tag is registered builds one
/// widget per node — none dropped, none invented — and the built
/// children sit under the built parent exactly as the description's
/// children sit under the description's node.
pub proof fn lemma_build_total(w: Widget, parent_flex: bool)
    requires
        all_registered(w),
    ensures
        spec_build(w, parent_flex) is Some,
        built_count(spec_build(w, parent_flex)->0) == widget_count(w),
    decreases w,
{
    let k = kind_of(w.widget@)->0;
    match w.children {
        Some(v) => {
            lemma_build_total_seq(v@, is_flex(k));
        },
        None => {
        },
    }
}

/// Completeness over a sequence of subtrees: one built child per
/// description child, in document order, each built from its own
/// subtree.
#[verifier::rlimit(100)]
pub proof fn lemma_build_total_seq(s: Seq<Widget>, parent_flex: bool)
    requires
        all_seq_registered(s),
    ensures
        built_children(s, parent_flex).len() == s.len(),
        built_count_seq(built_children(s, parent_flex)) == widget_count_seq(s),
        forall|i: int|
            #![trigger spec_build(s[i], parent_flex)]
            0 <= i < s.len() ==> spec_build(s[i], parent_flex) is Some && built_children(
                s,
                parent_flex,
            )[i] == spec_build(s[i], parent_flex)->0,
    decreases s,
{
    if s.len() > 0 {
        lemma_build_total(s[0], parent_flex);
        lemma_build_total_seq(s.drop_first(), parent_flex);
        let b0 = spec_build(s[0], parent_flex)->0;
        let rest = built_children(s.drop_first(), parent_flex);
        assert(built_children(s, parent_flex) == seq![b0] + rest);
        lemma_count_cons(b0, rest);
        assert forall|i: int|
            #![trigger spec_build(s[i], parent_flex)]
            0 <= i < s.len() implies spec_build(s[i], parent_flex) is Some && built_children(
            s,
            parent_flex,
        )[i] == spec_build(s[i], parent_flex)->0 by {
            if i == 0 {
                assert((seq![b0] + rest)[0] == b0);
            } else {
                assert((seq![b0] + rest)[i] == rest[i - 1]);
                assert(s.drop_first()[i - 1] == s[i]);
                assert(built_children(s.drop_first(), parent_flex)[i - 1] == spec_build(
                    s.drop_first()[i - 1],
                    parent_flex,
                )->0);
            }
        }
    }
}

/// The subtrees whose root tag is registered, in document order.
pub open spec fn registered_of(s: Seq<Widget>) -> Seq<Widget>
    decreases s,
{
    if s.len() == 0 {
        Seq::empty()
    } else if kind_of(s[0].widget@) is Some {
        seq![s[0]] + registered_of(s.drop_first())
    } else {
        registered_of(s.drop_first())
    }
}

/// An unregistered tag builds nothing: neither the node nor any of
/// its descendants produces a widget.
pub proof fn lemma_unregistered_dropped(w: Widget, parent_flex: bool)
    requires
        kind_of(w.widget@) is None,
    ensures
        spec_build(w, parent_flex) is None,
{
}

/// Dropping is local: the children built from a sequence of subtrees
/// are exactly the builds of the registered subtrees, in document
/// order — a dropped subtree shifts its later siblings into place
/// under the same, unaffected parent.
#[verifier::rlimit(100)]
pub proof fn lemma_siblings_unaffected(s: Seq<Widget>, parent_flex: bool)
    ensures
        built_children(s, parent_flex).len() == registered_of(s).len(),
        forall|i: int|
            #![trigger spec_build(registered_of(s)[i], parent_flex)]
            0 <= i < registered_of(s).len() ==> spec_build(registered_of(s)[i], parent_flex)
                is Some && built_children(s, parent_flex)[i] == spec_build(
                registered_of(s)[i],
                parent_flex,
            )->0,
    decreases s,
{
    if s.len() > 0 {
        lemma_siblings_unaffected(s.drop_first(), parent_flex);
        let rest = built_children(s.drop_first(), parent_flex);
        let reg_rest = registered_of(s.drop_first());
        if kind_of(s[0].widget@) is Some {
            let b0 = spec_build(s[0], parent_flex)->0;
            assert(built_children(s, parent_flex) == seq![b0] + rest);
            assert(registered_of(s) == seq![s[0]] + reg_rest);
            assert forall|i: int|
                #![trigger spec_build(registered_of(s)[i], parent_flex)]
                0 <= i < registered_of(s).len() implies spec_build(
                registered_of(s)[i],
                parent_flex,
            ) is Some && built_children(s, parent_flex)[i] == spec_build(
                registered_of(s)[i],
                parent_flex,
            )->0 by {
                if i == 0 {
                    assert((seq![b0] + rest)[0] == b0);
                    assert((seq![s[0]] + reg_rest)[0] == s[0]);
                } else {
                    assert((seq![b0] + rest)[i] == rest[i - 1]);
                    assert((seq![s[0]] + reg_rest)[i] == reg_rest[i - 1]);
                    assert(built_children(s.drop_first(), parent_flex)[i - 1] == spec_build(
                        registered_of(s.drop_first())[i - 1],
                        parent_flex,
                    )->0);
                }
            }
        } else {
            assert(built_children(s, parent_flex) == rest);
            assert(registered_of(s) == reg_rest);
            assert forall|i: int|
                #![trigger spec_build(registered_of(s)[i], parent_flex)]
                0 <= i < registered_of(s).len() implies spec_build(
                registered_of(s)[i],
                parent_flex,
            ) is Some && built_children(s, parent_flex)[i] == spec_build(
                registered_of(s)[i],
                parent_flex,
            )->0 by {
                assert(built_children(s.drop_first(), parent_flex)[i] == spec_build(
                    registered_of(s.drop_first())[i],
                    parent_flex,
                )->0);
            }
        }
    }
}

/// Idempotence: building one description twice — into two independent
/// windows, in any order — yields structurally identical hierarchies:
/// what `spec_build` fixes, every run of the builder returns.
pub proof fn lemma_build_deterministic(
    w: Widget,
    parent_flex: bool,
    r1: Option<BuiltWidget>,
    r2: Option<BuiltWidget>,
)
    requires
        opt_built_view(r1) == spec_build(w, parent_flex),
        opt_built_view(r2) == spec_build(w, parent_flex),
    ensures
        opt_built_view(r1) == opt_built_view(r2),
{
}

} // verus!
