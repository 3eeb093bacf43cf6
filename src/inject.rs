//! The terminal pass: the bodies of the marked helpers, in catalog order,
//! placed before a module's own items.
use crate::cache::{helper_body, BuildError, HelperCache};
use crate::flags::{HelperFlags, Helpers};
use crate::kind::{HelperKind, HELPER_KIND_COUNT};
use crate::syntax::{stmt_item, to_item};
use std::sync::Arc;
use swc_ecma_ast::{ModuleItem, Stmt};
use vstd::prelude::*;

verus! {

/// Every helper at a catalog position below `n` that `flags` marks builds.
pub open spec fn builds_upto(flags: Seq<bool>, n: nat) -> bool {
    forall|i: nat| i < n && #[trigger] flags[i as int] ==> helper_body(HelperKind::at(i)) is Some
}

/// The bodies of the marked helpers at catalog positions below `n`, one after
/// the other in catalog order.
pub open spec fn preamble_upto(flags: Seq<bool>, n: nat) -> Seq<Stmt>
    decreases n,
{
    if n == 0 {
        Seq::empty()
    } else {
        let prev = preamble_upto(flags, (n - 1) as nat);
        if flags[n - 1] {
            prev + helper_body(HelperKind::at((n - 1) as nat))->Some_0
        } else {
            prev
        }
    }
}

/// The statements that injection places before a module's items.
pub open spec fn preamble(flags: Seq<bool>) -> Seq<Stmt> {
    preamble_upto(flags, HELPER_KIND_COUNT as nat)
}

/// The module items that hold the given statements, in order.
pub open spec fn items_of(stmts: Seq<Stmt>) -> Seq<ModuleItem> {
    stmts.map_values(|s: Stmt| stmt_item(s))
}

/// The helpers that `flags` marks at catalog positions below `n`, in catalog
/// order.
pub open spec fn marked_upto(flags: Seq<bool>, n: nat) -> Seq<HelperKind>
    decreases n,
{
    if n == 0 {
        Seq::empty()
    } else {
        let prev = marked_upto(flags, (n - 1) as nat);
        if flags[n - 1] {
            prev.push(HelperKind::at((n - 1) as nat))
        } else {
            prev
        }
    }
}

/// The helpers that `flags` marks, in catalog order.
pub open spec fn marked_kinds(flags: Seq<bool>) -> Seq<HelperKind> {
    marked_upto(flags, HELPER_KIND_COUNT as nat)
}

/// The bodies of the given helpers, one after the other.
pub open spec fn bodies(kinds: Seq<HelperKind>) -> Seq<Stmt>
    decreases kinds.len(),
{
    if kinds.len() == 0 {
        Seq::empty()
    } else {
        bodies(kinds.drop_last()) + helper_body(kinds.last())->Some_0
    }
}

proof fn lemma_marked_upto(flags: Seq<bool>, n: nat)
    requires
        flags.len() == HELPER_KIND_COUNT,
        n <= HELPER_KIND_COUNT,
    ensures
        preamble_upto(flags, n) == bodies(marked_upto(flags, n)),
        forall|k: HelperKind| #[trigger]
            marked_upto(flags, n).contains(k) <==> k.ord() < n && flags[k.ord() as int],
        forall|i: int, j: int|
            0 <= i < j < marked_upto(flags, n).len() ==> (#[trigger] marked_upto(flags, n)[i]).ord()
                < (#[trigger] marked_upto(flags, n)[j]).ord(),
        forall|i: int|
            0 <= i < marked_upto(flags, n).len() ==> (#[trigger] marked_upto(flags, n)[i]).ord() < n,
    decreases n,
{
    if n > 0 {
        let m = (n - 1) as nat;
        lemma_marked_upto(flags, m);
        HelperKind::lemma_ord_at(m);
        let prev = marked_upto(flags, m);
        if flags[m as int] {
            let cur = prev.push(HelperKind::at(m));
            assert(cur.drop_last() =~= prev);
            assert forall|k: HelperKind| #[trigger] cur.contains(k) <==> k.ord() < n && flags[k.ord() as int] by {
                k.lemma_at_ord();
                if prev.contains(k) {
                    let j = choose|j: int| 0 <= j < prev.len() && prev[j] == k;
                    assert(cur[j] == k);
                }
                if k.ord() == m {
                    assert(cur[prev.len() as int] == k);
                }
                if cur.contains(k) {
                    let j = choose|j: int| 0 <= j < cur.len() && cur[j] == k;
                    if j < prev.len() {
                        assert(prev[j] == k);
                    }
                }
            }
        } else {
            assert forall|k: HelperKind| #[trigger] prev.contains(k) <==> k.ord() < n && flags[k.ord() as int] by {
                k.lemma_at_ord();
            }
        }
    }
}

/// Injection over a set of helpers yields one body for each helper in the set,
/// in catalog order, and none for a helper outside it.
pub proof fn lemma_preamble_exact(flags: Seq<bool>)
    requires
        flags.len() == HELPER_KIND_COUNT,
    ensures
        preamble(flags) == bodies(marked_kinds(flags)),
        forall|k: HelperKind| #[trigger] marked_kinds(flags).contains(k) <==> flags[k.ord() as int],
        forall|i: int, j: int|
            0 <= i < j < marked_kinds(flags).len() ==> (#[trigger] marked_kinds(flags)[i]).ord() < (
            #[trigger] marked_kinds(flags)[j]).ord(),
{
    lemma_marked_upto(flags, HELPER_KIND_COUNT as nat);
    assert forall|k: HelperKind| #[trigger] marked_kinds(flags).contains(k) <==> flags[k.ord() as int] by {
        k.lemma_at_ord();
    }
}

/// The preamble depends on which helpers were marked, not on the order in
/// which they were marked.
pub proof fn lemma_mark_order(flags: Seq<bool>, a: HelperKind, b: HelperKind)
    requires
        flags.len() == HELPER_KIND_COUNT,
    ensures
        preamble(flags.update(a.ord() as int, true).update(b.ord() as int, true)) == preamble(
            flags.update(b.ord() as int, true).update(a.ord() as int, true),
        ),
{
    assert(flags.update(a.ord() as int, true).update(b.ord() as int, true) =~= flags.update(
        b.ord() as int,
        true,
    ).update(a.ord() as int, true));
}

/// Collects the bodies of the helpers in `flags`, in catalog order. It fails
/// on the first marked helper, in that order, whose catalog entry does not
/// parse, and on no other input.
pub fn mk_preamble(flags: &HelperFlags, cache: &mut HelperCache) -> (r: Result<
    Vec<Stmt>,
    BuildError,
>)
    requires
        flags.wf(),
        old(cache).wf(),
    ensures
        final(cache).wf(),
        match r {
            Ok(v) => builds_upto(flags@, HELPER_KIND_COUNT as nat) && v@ == preamble(flags@),
            Err(e) => flags.has(e.kind) && helper_body(e.kind) is None && builds_upto(
                flags@,
                e.kind.ord(),
            ),
        },
{
    let mut buf: Vec<Stmt> = Vec::new();
    let mut i: usize = 0;
    while i < HELPER_KIND_COUNT
        invariant
            i <= HELPER_KIND_COUNT,
            flags.wf(),
            cache.wf(),
            builds_upto(flags@, i as nat),
            buf@ == preamble_upto(flags@, i as nat),
        decreases HELPER_KIND_COUNT - i,
    {
        let kind = HelperKind::from_index(i);
        if flags.is_marked(kind) {
            match cache.get_or_build(kind) {
                Ok(mut stmts) => {
                    buf.append(&mut stmts);
                },
                Err(e) => {
                    return Err(e);
                },
            }
        }
        i = i + 1;
    }
    Ok(buf)
}

/// The given statements, each as a module item, followed by `body` unchanged.
pub fn prepend_stmts(stmts: Vec<Stmt>, body: Vec<ModuleItem>) -> (r: Vec<ModuleItem>)
    ensures
        r@ == items_of(stmts@) + body@,
{
    let mut r: Vec<ModuleItem> = Vec::new();
    let mut stmts = stmts;
    let mut body = body;
    let n = stmts.len();
    let mut i: usize = 0;
    while i < n
        invariant
            n == stmts@.len(),
            i <= n,
            r@ == items_of(stmts@.subrange(0, i as int)),
        decreases n - i,
    {
        let s = stmts[i].clone();
        r.push(to_item(s));
        assert(stmts@.subrange(0, i + 1) =~= stmts@.subrange(0, i as int).push(stmts@[i as int]));
        assert(items_of(stmts@.subrange(0, i + 1)) =~= items_of(stmts@.subrange(0, i as int)).push(
            stmt_item(stmts@[i as int]),
        ));
        i = i + 1;
    }
    assert(stmts@.subrange(0, n as int) =~= stmts@);
    r.append(&mut body);
    r
}

/// A module body with the helpers in `flags` injected before it.
pub fn inject_body(flags: &HelperFlags, cache: &mut HelperCache, body: Vec<ModuleItem>) -> (r:
    Result<Vec<ModuleItem>, BuildError>)
    requires
        flags.wf(),
        old(cache).wf(),
    ensures
        final(cache).wf(),
        match r {
            Ok(v) => builds_upto(flags@, HELPER_KIND_COUNT as nat) && v@ == items_of(
                preamble(flags@),
            ) + body@,
            Err(e) => flags.has(e.kind) && helper_body(e.kind) is None && builds_upto(
                flags@,
                e.kind.ord(),
            ),
        },
{
    match mk_preamble(flags, cache) {
        Ok(stmts) => Ok(prepend_stmts(stmts, body)),
        Err(e) => Err(e),
    }
}

/// The injection pass of one module, over the helpers its lowering passes
/// marked.
pub struct InjectHelpers {
    pub helpers: Arc<Helpers>,
}

impl InjectHelpers {
    pub fn new(helpers: Arc<Helpers>) -> (r: InjectHelpers)
        ensures
            r.helpers == helpers,
    {
        InjectHelpers { helpers }
    }

    /// The bodies of the helpers marked so far, in catalog order. Marking must
    /// have finished: the flags are read as they stand.
    pub fn mk_helpers(&self, cache: &mut HelperCache) -> (r: Result<Vec<Stmt>, BuildError>)
        requires
            old(cache).wf(),
        ensures
            final(cache).wf(),
            match r {
                Ok(v) => exists|f: Seq<bool>|
                    f.len() == HELPER_KIND_COUNT && builds_upto(f, HELPER_KIND_COUNT as nat) && v@
                        == #[trigger] preamble(f),
                Err(e) => helper_body(e.kind) is None,
            },
    {
        let flags = self.helpers.snapshot();
        mk_preamble(&flags, cache)
    }

    /// The module body with the helpers marked so far injected before it.
    pub fn fold_body(&self, cache: &mut HelperCache, body: Vec<ModuleItem>) -> (r: Result<
        Vec<ModuleItem>,
        BuildError,
    >)
        requires
            old(cache).wf(),
        ensures
            final(cache).wf(),
            match r {
                Ok(v) => exists|f: Seq<bool>|
                    f.len() == HELPER_KIND_COUNT && builds_upto(f, HELPER_KIND_COUNT as nat) && v@
                        == items_of(#[trigger] preamble(f)) + body@,
                Err(e) => helper_body(e.kind) is None,
            },
    {
        let flags = self.helpers.snapshot();
        inject_body(&flags, cache, body)
    }
}

} // verus!
