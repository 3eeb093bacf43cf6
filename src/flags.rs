//! Recording which helpers a module needs.
use crate::kind::{HelperKind, HELPER_KIND_COUNT};
use std::sync::atomic::{AtomicBool, Ordering};
use vstd::prelude::*;

verus! {

/// The helpers used by one module, one flag per helper. Lowering passes may
/// mark flags from many threads at once; flags only ever go from unset to set.
/// The flags are read once every pass that may mark them has finished, so
/// relaxed ordering suffices.
#[derive(Default)]
pub struct Helpers {
    /// `_extends`
    pub extends: AtomicBool,
    /// `_toConsumableArray`
    pub to_consumable_array: AtomicBool,
    /// `_classCallCheck`
    pub class_call_check: AtomicBool,
    /// `_inherits`
    pub inherits: AtomicBool,
    /// `_possibleConstructorReturn`
    pub possible_constructor_return: AtomicBool,
    /// `_createClass`
    pub create_class: AtomicBool,
    /// `_get`
    pub get: AtomicBool,
    /// `_instanceof`
    pub instance_of: AtomicBool,
    /// `_typeof`
    pub type_of: AtomicBool,
    /// `_taggedTemplateLiteral`
    pub tagged_template_literal: AtomicBool,
    /// `_defineProperty`
    pub define_property: AtomicBool,
    /// `_defineEnumerableProperties`
    pub define_enumerable_property: AtomicBool,
    /// `_set`
    pub set: AtomicBool,
    /// `_getPrototypeOf`
    pub get_prototype_of: AtomicBool,
    /// `_throw`
    pub throw: AtomicBool,
    /// `_asyncToGenerator`
    pub async_to_generator: AtomicBool,
    /// `_objectWithoutProperties`
    pub object_without_properties: AtomicBool,
    /// `_objectSpread`
    pub object_spread: AtomicBool,
}

impl Helpers {
    pub fn new() -> (r: Helpers) {
        Helpers {
            extends: AtomicBool::new(false),
            to_consumable_array: AtomicBool::new(false),
            class_call_check: AtomicBool::new(false),
            inherits: AtomicBool::new(false),
            possible_constructor_return: AtomicBool::new(false),
            create_class: AtomicBool::new(false),
            get: AtomicBool::new(false),
            instance_of: AtomicBool::new(false),
            type_of: AtomicBool::new(false),
            tagged_template_literal: AtomicBool::new(false),
            define_property: AtomicBool::new(false),
            define_enumerable_property: AtomicBool::new(false),
            set: AtomicBool::new(false),
            get_prototype_of: AtomicBool::new(false),
            throw: AtomicBool::new(false),
            async_to_generator: AtomicBool::new(false),
            object_without_properties: AtomicBool::new(false),
            object_spread: AtomicBool::new(false),
        }
    }

    fn flag(&self, kind: HelperKind) -> (r: &AtomicBool) {
        match kind {
            HelperKind::Extends => &self.extends,
            HelperKind::ToConsumableArray => &self.to_consumable_array,
            HelperKind::ClassCallCheck => &self.class_call_check,
            HelperKind::Inherits => &self.inherits,
            HelperKind::PossibleConstructorReturn => &self.possible_constructor_return,
            HelperKind::CreateClass => &self.create_class,
            HelperKind::Get => &self.get,
            HelperKind::InstanceOf => &self.instance_of,
            HelperKind::TypeOf => &self.type_of,
            HelperKind::TaggedTemplateLiteral => &self.tagged_template_literal,
            HelperKind::DefineProperty => &self.define_property,
            HelperKind::DefineEnumerableProperty => &self.define_enumerable_property,
            HelperKind::SetProperty => &self.set,
            HelperKind::GetPrototypeOf => &self.get_prototype_of,
            HelperKind::Throw => &self.throw,
            HelperKind::AsyncToGenerator => &self.async_to_generator,
            HelperKind::ObjectWithoutProperties => &self.object_without_properties,
            HelperKind::ObjectSpread => &self.object_spread,
        }
    }

    /// Records that the module needs `kind`.
    pub fn mark(&self, kind: HelperKind) {
        self.flag(kind).store(true, Ordering::Relaxed);
    }

    /// Whether `kind` has been marked, as last seen by this thread.
    pub fn is_marked(&self, kind: HelperKind) -> bool {
        self.flag(kind).load(Ordering::Relaxed)
    }

    /// The current flags as a plain set.
    pub fn snapshot(&self) -> (r: HelperFlags)
        ensures
            r.wf(),
    {
        let mut r = HelperFlags::new();
        let mut i: usize = 0;
        while i < HELPER_KIND_COUNT
            invariant
                i <= HELPER_KIND_COUNT,
                r.wf(),
            decreases HELPER_KIND_COUNT - i,
        {
            let kind = HelperKind::from_index(i);
            if self.is_marked(kind) {
                r.mark(kind);
            }
            i = i + 1;
        }
        r
    }
}

/// A set of helpers, one flag per helper indexed by catalog position.
pub struct HelperFlags {
    marks: Vec<bool>,
}

impl View for HelperFlags {
    type V = Seq<bool>;

    closed spec fn view(&self) -> Seq<bool> {
        self.marks@
    }
}

impl HelperFlags {
    pub open spec fn wf(&self) -> bool {
        self@.len() == HELPER_KIND_COUNT
    }

    /// Whether the set holds `kind`.
    pub open spec fn has(&self, kind: HelperKind) -> bool {
        self@[kind.ord() as int]
    }

    /// The empty set.
    pub fn new() -> (r: HelperFlags)
        ensures
            r.wf(),
            forall|i: int| 0 <= i < HELPER_KIND_COUNT ==> !r@[i],
    {
        let mut marks: Vec<bool> = Vec::new();
        let mut i: usize = 0;
        while i < HELPER_KIND_COUNT
            invariant
                i <= HELPER_KIND_COUNT,
                marks@.len() == i,
                forall|j: int| 0 <= j < i ==> !marks@[j],
            decreases HELPER_KIND_COUNT - i,
        {
            marks.push(false);
            i = i + 1;
        }
        HelperFlags { marks }
    }

    /// The set that holds exactly the given helpers.
    pub fn from_kinds(kinds: &Vec<HelperKind>) -> (r: HelperFlags)
        ensures
            r.wf(),
            forall|k: HelperKind| #[trigger] r.has(k) == kinds@.contains(k),
    {
        let mut r = HelperFlags::new();
        let mut i: usize = 0;
        while i < kinds.len()
            invariant
                i <= kinds@.len(),
                r.wf(),
                forall|k: HelperKind| #[trigger] r.has(k) == kinds@.subrange(0, i as int).contains(k),
            decreases kinds@.len() - i,
        {
            let kind = kinds[i];
            let ghost prev = r;
            r.mark(kind);
            proof {
                assert forall|k: HelperKind| #[trigger] r.has(k) == kinds@.subrange(0, i + 1).contains(k) by {
                    k.lemma_at_ord();
                    kind.lemma_at_ord();
                    let s = kinds@.subrange(0, i + 1);
                    assert(prev.has(k) == kinds@.subrange(0, i as int).contains(k));
                    if k == kind {
                        assert(s[i as int] == k);
                    }
                    if kinds@.subrange(0, i as int).contains(k) {
                        let j = choose|j: int| 0 <= j < i && kinds@.subrange(0, i as int)[j] == k;
                        assert(s[j] == k);
                    }
                    if s.contains(k) {
                        let j = choose|j: int| 0 <= j < i + 1 && s[j] == k;
                        if j < i {
                            assert(kinds@.subrange(0, i as int)[j] == k);
                        }
                    }
                }
            }
            i = i + 1;
        }
        assert(kinds@.subrange(0, kinds@.len() as int) =~= kinds@);
        r
    }

    /// Adds `kind` to the set.
    pub fn mark(&mut self, kind: HelperKind)
        requires
            old(self).wf(),
        ensures
            final(self).wf(),
            final(self)@ == old(self)@.update(kind.ord() as int, true),
    {
        self.marks.set(kind.index(), true);
    }

    /// Whether the set holds `kind`.
    pub fn is_marked(&self, kind: HelperKind) -> (r: bool)
        requires
            self.wf(),
        ensures
            r == self.has(kind),
    {
        self.marks[kind.index()]
    }
}

} // verus!
