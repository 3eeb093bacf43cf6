//! Building helper bodies from the catalog, and the memoizing table that builds
//! each of them at most once.
use crate::kind::{HelperKind, HELPER_KIND_COUNT};
use crate::syntax::{drop_spans, parse_script, parsed_script, span_free, spans_dropped};
use swc_ecma_ast::Stmt;
use vstd::prelude::*;

verus! {

/// A catalog entry that does not parse: the catalog itself is corrupt.
#[derive(Clone, Copy, Debug, PartialEq, Eq, Structural)]
pub struct BuildError {
    pub kind: HelperKind,
}

/// What a helper text builds to: its statements with every position dropped,
/// or `None` where it is not a valid script.
pub open spec fn body_of(src: Seq<char>) -> Option<Seq<Stmt>> {
    match parsed_script(src) {
        Some(s) => Some(spans_dropped(s)),
        None => None,
    }
}

/// What the catalog entry of `kind` builds to.
pub open spec fn helper_body(kind: HelperKind) -> Option<Seq<Stmt>> {
    body_of(kind.source_text())
}

/// `r` is the outcome of building `kind`: its position-free body, or the
/// error that names it.
pub open spec fn is_build_of(kind: HelperKind, r: Result<Seq<Stmt>, BuildError>) -> bool {
    match r {
        Ok(v) => helper_body(kind) == Some(v) && span_free(v),
        Err(e) => e.kind == kind && helper_body(kind) is None,
    }
}

pub open spec fn result_view(r: Result<Vec<Stmt>, BuildError>) -> Result<Seq<Stmt>, BuildError> {
    match r {
        Ok(v) => Ok(v@),
        Err(e) => Err(e),
    }
}

/// A helper has one build outcome: whoever builds it observes the same body,
/// or the same error.
pub proof fn lemma_build_outcome_unique(
    kind: HelperKind,
    r1: Result<Seq<Stmt>, BuildError>,
    r2: Result<Seq<Stmt>, BuildError>,
)
    requires
        is_build_of(kind, r1),
        is_build_of(kind, r2),
    ensures
        r1 == r2,
{
}

/// Parses `src` as the text of `kind` and drops its positions; a text that
/// does not parse is reported under `kind`.
pub fn build_body(kind: HelperKind, src: &str) -> (r: Result<Vec<Stmt>, BuildError>)
    ensures
        match r {
            Ok(v) => body_of(src@) == Some(v@) && span_free(v@),
            Err(e) => e.kind == kind && body_of(src@) is None,
        },
{
    match parse_script(src) {
        Ok(stmts) => Ok(drop_spans(stmts)),
        Err(_) => Err(BuildError { kind }),
    }
}

/// Builds the catalog entry of `kind`.
pub fn build_helper(kind: HelperKind) -> (r: Result<Vec<Stmt>, BuildError>)
    ensures
        is_build_of(kind, result_view(r)),
{
    build_body(kind, kind.source())
}

fn copy_stmts(v: &Vec<Stmt>) -> (r: Vec<Stmt>)
    ensures
        r@ == v@,
{
    let r = v.clone();
    assert(r@ =~= v@);
    r
}

/// One slot per helper: empty until the helper is first asked for, then the
/// outcome of its one build.
pub struct HelperCache {
    slots: Vec<Option<Result<Vec<Stmt>, BuildError>>>,
    parses: Ghost<Seq<nat>>,
}

impl HelperCache {
    pub closed spec fn wf(&self) -> bool {
        &&& self.slots@.len() == HELPER_KIND_COUNT
        &&& self.parses@.len() == HELPER_KIND_COUNT
        &&& forall|i: int|
            0 <= i < HELPER_KIND_COUNT ==> {
                &&& #[trigger] self.parses@[i] == (if self.slots@[i] is Some {
                    1nat
                } else {
                    0nat
                })
                &&& (self.slots@[i] matches Some(r) ==> is_build_of(
                    HelperKind::at(i as nat),
                    result_view(r),
                ))
            }
    }

    /// What the cache holds for `kind`: nothing yet, or the outcome of its build.
    pub closed spec fn cached(&self, kind: HelperKind) -> Option<Result<Seq<Stmt>, BuildError>> {
        match self.slots@[kind.ord() as int] {
            Some(r) => Some(result_view(r)),
            None => None,
        }
    }

    /// How many times the helper has been parsed by this cache.
    pub closed spec fn parse_count(&self, kind: HelperKind) -> nat {
        self.parses@[kind.ord() as int]
    }

    /// Whether the helper has been built.
    pub closed spec fn is_built(&self, kind: HelperKind) -> bool {
        self.slots@[kind.ord() as int] is Some
    }

    pub fn new() -> (r: HelperCache)
        ensures
            r.wf(),
            forall|k: HelperKind| !r.is_built(k) && r.parse_count(k) == 0,
    {
        let mut slots: Vec<Option<Result<Vec<Stmt>, BuildError>>> = Vec::new();
        let mut i: usize = 0;
        while i < HELPER_KIND_COUNT
            invariant
                i <= HELPER_KIND_COUNT,
                slots@.len() == i,
                forall|j: int| 0 <= j < i ==> slots@[j] is None,
            decreases HELPER_KIND_COUNT - i,
        {
            slots.push(None);
            i = i + 1;
        }
        let r = HelperCache { slots, parses: Ghost(Seq::new(HELPER_KIND_COUNT as nat, |j: int| 0nat)) };
        assert forall|k: HelperKind| !r.is_built(k) && r.parse_count(k) == 0 by {
            k.lemma_at_ord();
        }
        r
    }

    /// Returns the body of `kind`, building it on the first request only.
    pub fn get_or_build(&mut self, kind: HelperKind) -> (r: Result<Vec<Stmt>, BuildError>)
        requires
            old(self).wf(),
        ensures
            final(self).wf(),
            is_build_of(kind, result_view(r)),
            final(self).is_built(kind),
            final(self).cached(kind) == Some(result_view(r)),
            old(self).cached(kind) matches Some(c) ==> c == result_view(r),
            forall|k: HelperKind| #[trigger]
                final(self).is_built(k) == (old(self).is_built(k) || k == kind),
            forall|k: HelperKind| #[trigger]
                final(self).parse_count(k) == if k == kind && !old(self).is_built(kind) {
                    old(self).parse_count(k) + 1
                } else {
                    old(self).parse_count(k)
                },
    {
        let i = kind.index();
        proof {
            kind.lemma_at_ord();
            assert(self.parses@[i as int] == (if self.slots@[i as int] is Some {
                1nat
            } else {
                0nat
            }));
        }
        match &self.slots[i] {
            Some(Ok(v)) => {
                return Ok(copy_stmts(v));
            },
            Some(Err(e)) => {
                return Err(*e);
            },
            None => {},
        }
        let built = build_helper(kind);
        let stored = match &built {
            Ok(v) => Ok(copy_stmts(v)),
            Err(e) => Err(*e),
        };
        self.slots.set(i, Some(stored));
        self.parses = Ghost(self.parses@.update(i as int, 1nat));
        proof {
            assert forall|k: HelperKind| #[trigger]
                self.is_built(k) == (old(self).is_built(k) || k == kind) by {
                k.lemma_at_ord();
            }
            assert forall|k: HelperKind| #[trigger]
                self.parse_count(k) == if k == kind && !old(self).is_built(kind) {
                    old(self).parse_count(k) + 1
                } else {
                    old(self).parse_count(k)
                } by {
                k.lemma_at_ord();
            }
        }
        built
    }

    /// Whatever the cache holds for a helper is that helper's build outcome,
    /// and a body it holds carries no real position.
    pub proof fn lemma_cached_is_build(&self, kind: HelperKind)
        requires
            self.wf(),
        ensures
            self.cached(kind) matches Some(r) ==> is_build_of(kind, r),
            self.cached(kind) matches Some(Ok(v)) ==> span_free(v),
            self.cached(kind) is Some <==> self.is_built(kind),
    {
        kind.lemma_at_ord();
        assert(self.parses@[kind.ord() as int] == (if self.slots@[kind.ord() as int] is Some {
            1nat
        } else {
            0nat
        }));
    }

    /// Each helper is parsed at most once over the life of a cache, and
    /// exactly once if it has been asked for.
    pub proof fn lemma_parsed_at_most_once(&self, kind: HelperKind)
        requires
            self.wf(),
        ensures
            self.parse_count(kind) <= 1,
            self.parse_count(kind) == 1 <==> self.is_built(kind),
    {
        kind.lemma_at_ord();
    }
}

} // verus!
