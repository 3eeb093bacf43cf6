use vstd::prelude::*;

verus! {

/// Number of helpers in the catalog.
pub const HELPER_KIND_COUNT: usize = 18;

/// The closed set of runtime helpers, in catalog order: this order is both
/// the key space of the cache and the order in which helpers are injected.
#[derive(Clone, Copy, Debug, PartialEq, Eq, Structural, Hash)]
pub enum HelperKind {
    Extends,
    ToConsumableArray,
    ClassCallCheck,
    Inherits,
    PossibleConstructorReturn,
    CreateClass,
    Get,
    InstanceOf,
    TypeOf,
    TaggedTemplateLiteral,
    DefineProperty,
    DefineEnumerableProperty,
    SetProperty,
    GetPrototypeOf,
    Throw,
    AsyncToGenerator,
    ObjectWithoutProperties,
    ObjectSpread,
}

impl HelperKind {
    /// Position of the helper in catalog order.
    pub open spec fn ord(self) -> nat {
        match self {
            HelperKind::Extends => 0,
            HelperKind::ToConsumableArray => 1,
            HelperKind::ClassCallCheck => 2,
            HelperKind::Inherits => 3,
            HelperKind::PossibleConstructorReturn => 4,
            HelperKind::CreateClass => 5,
            HelperKind::Get => 6,
            HelperKind::InstanceOf => 7,
            HelperKind::TypeOf => 8,
            HelperKind::TaggedTemplateLiteral => 9,
            HelperKind::DefineProperty => 10,
            HelperKind::DefineEnumerableProperty => 11,
            HelperKind::SetProperty => 12,
            HelperKind::GetPrototypeOf => 13,
            HelperKind::Throw => 14,
            HelperKind::AsyncToGenerator => 15,
            HelperKind::ObjectWithoutProperties => 16,
            HelperKind::ObjectSpread => 17,
        }
    }

    pub fn index(self) -> (r: usize)
        ensures
            r == self.ord(),
            r < HELPER_KIND_COUNT,
    {
        match self {
            HelperKind::Extends => 0,
            HelperKind::ToConsumableArray => 1,
            HelperKind::ClassCallCheck => 2,
            HelperKind::Inherits => 3,
            HelperKind::PossibleConstructorReturn => 4,
            HelperKind::CreateClass => 5,
            HelperKind::Get => 6,
            HelperKind::InstanceOf => 7,
            HelperKind::TypeOf => 8,
            HelperKind::TaggedTemplateLiteral => 9,
            HelperKind::DefineProperty => 10,
            HelperKind::DefineEnumerableProperty => 11,
            HelperKind::SetProperty => 12,
            HelperKind::GetPrototypeOf => 13,
            HelperKind::Throw => 14,
            HelperKind::AsyncToGenerator => 15,
            HelperKind::ObjectWithoutProperties => 16,
            HelperKind::ObjectSpread => 17,
        }
    }

    /// The helper at position `i` of the catalog.
    pub open spec fn at(i: nat) -> HelperKind {
        if i == 0 {
            HelperKind::Extends
        } else if i == 1 {
            HelperKind::ToConsumableArray
        } else if i == 2 {
            HelperKind::ClassCallCheck
        } else if i == 3 {
            HelperKind::Inherits
        } else if i == 4 {
            HelperKind::PossibleConstructorReturn
        } else if i == 5 {
            HelperKind::CreateClass
        } else if i == 6 {
            HelperKind::Get
        } else if i == 7 {
            HelperKind::InstanceOf
        } else if i == 8 {
            HelperKind::TypeOf
        } else if i == 9 {
            HelperKind::TaggedTemplateLiteral
        } else if i == 10 {
            HelperKind::DefineProperty
        } else if i == 11 {
            HelperKind::DefineEnumerableProperty
        } else if i == 12 {
            HelperKind::SetProperty
        } else if i == 13 {
            HelperKind::GetPrototypeOf
        } else if i == 14 {
            HelperKind::Throw
        } else if i == 15 {
            HelperKind::AsyncToGenerator
        } else if i == 16 {
            HelperKind::ObjectWithoutProperties
        } else {
            HelperKind::ObjectSpread
        }
    }

    pub fn from_index(i: usize) -> (r: HelperKind)
        requires
            i < HELPER_KIND_COUNT,
        ensures
            r == HelperKind::at(i as nat),
            r.ord() == i,
    {
        if i == 0 {
            HelperKind::Extends
        } else if i == 1 {
            HelperKind::ToConsumableArray
        } else if i == 2 {
            HelperKind::ClassCallCheck
        } else if i == 3 {
            HelperKind::Inherits
        } else if i == 4 {
            HelperKind::PossibleConstructorReturn
        } else if i == 5 {
            HelperKind::CreateClass
        } else if i == 6 {
            HelperKind::Get
        } else if i == 7 {
            HelperKind::InstanceOf
        } else if i == 8 {
            HelperKind::TypeOf
        } else if i == 9 {
            HelperKind::TaggedTemplateLiteral
        } else if i == 10 {
            HelperKind::DefineProperty
        } else if i == 11 {
            HelperKind::DefineEnumerableProperty
        } else if i == 12 {
            HelperKind::SetProperty
        } else if i == 13 {
            HelperKind::GetPrototypeOf
        } else if i == 14 {
            HelperKind::Throw
        } else if i == 15 {
            HelperKind::AsyncToGenerator
        } else if i == 16 {
            HelperKind::ObjectWithoutProperties
        } else {
            HelperKind::ObjectSpread
        }
    }

    /// Every helper sits at exactly one position of the catalog.
    pub proof fn lemma_at_ord(self)
        ensures
            self.ord() < HELPER_KIND_COUNT,
            HelperKind::at(self.ord()) == self,
    {
    }

    /// Positions of the catalog name distinct helpers.
    pub proof fn lemma_ord_at(i: nat)
        requires
            i < HELPER_KIND_COUNT,
        ensures
            HelperKind::at(i).ord() == i,
    {
    }

    /// The name under which the helper is defined in emitted code.
    pub fn name(self) -> (r: &'static str) {
        match self {
            HelperKind::Extends => "_extends",
            HelperKind::ToConsumableArray => "_toConsumableArray",
            HelperKind::ClassCallCheck => "_classCallCheck",
            HelperKind::Inherits => "_inherits",
            HelperKind::PossibleConstructorReturn => "_possibleConstructorReturn",
            HelperKind::CreateClass => "_createClass",
            HelperKind::Get => "_get",
            HelperKind::InstanceOf => "_instanceof",
            HelperKind::TypeOf => "_typeof",
            HelperKind::TaggedTemplateLiteral => "_taggedTemplateLiteral",
            HelperKind::DefineProperty => "_defineProperty",
            HelperKind::DefineEnumerableProperty => "_defineEnumerableProperties",
            HelperKind::SetProperty => "_set",
            HelperKind::GetPrototypeOf => "_getPrototypeOf",
            HelperKind::Throw => "_throw",
            HelperKind::AsyncToGenerator => "_asyncToGenerator",
            HelperKind::ObjectWithoutProperties => "_objectWithoutProperties",
            HelperKind::ObjectSpread => "_objectSpread",
        }
    }
}

} // verus!
