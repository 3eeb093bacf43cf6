use crate::kind::HelperKind;
use vstd::prelude::*;

verus! {

pub const EXTENDS_SRC: &'static str = "function _extends() {
    _extends = Object.assign || function (target) {
        for (var i = 1; i < arguments.length; i++) {
            var source = arguments[i];
            for (var key in source) {
                if (Object.prototype.hasOwnProperty.call(source, key)) {
                    target[key] = source[key];
                }
            }
        }
        return target;
    };
    return _extends.apply(this, arguments);
}
";

pub const TO_CONSUMABLE_ARRAY_SRC: &'static str = "function _toConsumableArray(arr) {
    if (Array.isArray(arr)) {
        for (var i = 0, arr2 = new Array(arr.length); i < arr.length; i++) arr2[i] = arr[i];
        return arr2;
    } else {
        return Array.from(arr);
    }
}
";

pub const CLASS_CALL_CHECK_SRC: &'static str = "function _classCallCheck(instance, Constructor) {
    if (!(instance instanceof Constructor)) {
        throw new TypeError(\"Cannot call a class as a function\");
    }
}
";

pub const INHERITS_SRC: &'static str = "function _inherits(subClass, superClass) {
    if (typeof superClass !== \"function\" && superClass !== null) {
        throw new TypeError(\"Super expression must either be null or a function, not \" + typeof superClass);
    }
    subClass.prototype = Object.create(superClass && superClass.prototype, {
        constructor: { value: subClass, enumerable: false, writable: true, configurable: true }
    });
    if (superClass) Object.setPrototypeOf ? Object.setPrototypeOf(subClass, superClass) : subClass.__proto__ = superClass;
}
";

pub const POSSIBLE_CONSTRUCTOR_RETURN_SRC: &'static str = "function _possibleConstructorReturn(self, call) {
    if (!self) {
        throw new ReferenceError(\"this hasn't been initialised - super() hasn't been called\");
    }
    return call && (typeof call === \"object\" || typeof call === \"function\") ? call : self;
}
";

pub const CREATE_CLASS_SRC: &'static str = "var _createClass = function () {
    function defineProperties(target, props) {
        for (var i = 0; i < props.length; i++) {
            var descriptor = props[i];
            descriptor.enumerable = descriptor.enumerable || false;
            descriptor.configurable = true;
            if (\"value\" in descriptor) descriptor.writable = true;
            Object.defineProperty(target, descriptor.key, descriptor);
        }
    }
    return function (Constructor, protoProps, staticProps) {
        if (protoProps) defineProperties(Constructor.prototype, protoProps);
        if (staticProps) defineProperties(Constructor, staticProps);
        return Constructor;
    };
}();
";

pub const GET_SRC: &'static str = "var _get = function get(object, property, receiver) {
    if (object === null) object = Function.prototype;
    var desc = Object.getOwnPropertyDescriptor(object, property);
    if (desc === undefined) {
        var parent = Object.getPrototypeOf(object);
        if (parent === null) {
            return undefined;
        } else {
            return get(parent, property, receiver);
        }
    } else if (\"value\" in desc) {
        return desc.value;
    } else {
        var getter = desc.get;
        if (getter === undefined) {
            return undefined;
        }
        return getter.call(receiver);
    }
};
";

pub const INSTANCEOF_SRC: &'static str = "function _instanceof(left, right) {
    if (right != null && typeof Symbol !== \"undefined\" && right[Symbol.hasInstance]) {
        return right[Symbol.hasInstance](left);
    } else {
        return left instanceof right;
    }
}
";

pub const TYPEOF_SRC: &'static str = "var _typeof = typeof Symbol === \"function\" && typeof Symbol.iterator === \"symbol\" ? function (obj) {
    return typeof obj;
} : function (obj) {
    return obj && typeof Symbol === \"function\" && obj.constructor === Symbol && obj !== Symbol.prototype ? \"symbol\" : typeof obj;
};
";

pub const TAGGED_TEMPLATE_LITERAL_SRC: &'static str = "function _taggedTemplateLiteral(strings, raw) {
    return Object.freeze(Object.defineProperties(strings, {
        raw: { value: Object.freeze(raw) }
    }));
}
";

pub const DEFINE_PROPERTY_SRC: &'static str = "function _defineProperty(obj, key, value) {
    if (key in obj) {
        Object.defineProperty(obj, key, { value: value, enumerable: true, configurable: true, writable: true });
    } else {
        obj[key] = value;
    }
    return obj;
}
";

pub const DEFINE_ENUMERABLE_PROPERTIES_SRC: &'static str = "function _defineEnumerableProperties(obj, descs) {
    for (var key in descs) {
        var desc = descs[key];
        desc.configurable = desc.enumerable = true;
        if (\"value\" in desc) desc.writable = true;
        Object.defineProperty(obj, key, desc);
    }
    return obj;
}
";

pub const SET_SRC: &'static str = "var _set = function set(object, property, value, receiver) {
    var desc = Object.getOwnPropertyDescriptor(object, property);
    if (desc === undefined) {
        var parent = Object.getPrototypeOf(object);
        if (parent !== null) {
            set(parent, property, value, receiver);
        }
    } else if (\"value\" in desc && desc.writable) {
        desc.value = value;
    } else {
        var setter = desc.set;
        if (setter !== undefined) {
            setter.call(receiver, value);
        }
    }
    return value;
};
";

pub const GET_PROTOTYPE_OF_SRC: &'static str = "function _getPrototypeOf(o) {
    _getPrototypeOf = Object.setPrototypeOf ? Object.getPrototypeOf : function (o) {
        return o.__proto__ || Object.getPrototypeOf(o);
    };
    return _getPrototypeOf(o);
}
";

pub const THROW_SRC: &'static str = "function _throw(e) {
    throw e;
}
";

pub const ASYNC_TO_GENERATOR_SRC: &'static str = "function _asyncToGenerator(fn) {
    return function () {
        var gen = fn.apply(this, arguments);
        return new Promise(function (resolve, reject) {
            function step(key, arg) {
                try {
                    var info = gen[key](arg);
                    var value = info.value;
                } catch (error) {
                    reject(error);
                    return;
                }
                if (info.done) {
                    resolve(value);
                } else {
                    return Promise.resolve(value).then(function (value) {
                        step(\"next\", value);
                    }, function (err) {
                        step(\"throw\", err);
                    });
                }
            }
            return step(\"next\");
        });
    };
}
";

pub const OBJECT_WITHOUT_PROPERTIES_SRC: &'static str = "function _objectWithoutProperties(obj, keys) {
    var target = {};
    for (var i in obj) {
        if (keys.indexOf(i) >= 0) continue;
        if (!Object.prototype.hasOwnProperty.call(obj, i)) continue;
        target[i] = obj[i];
    }
    return target;
}
";

pub const OBJECT_SPREAD_SRC: &'static str = "function _objectSpread(target) {
    for (var i = 1; i < arguments.length; i++) {
        var source = arguments[i] != null ? arguments[i] : {};
        var ownKeys = Object.keys(source);
        if (typeof Object.getOwnPropertySymbols === \"function\") {
            ownKeys = ownKeys.concat(Object.getOwnPropertySymbols(source).filter(function (sym) {
                return Object.getOwnPropertyDescriptor(source, sym).enumerable;
            }));
        }
        ownKeys.forEach(function (key) {
            _defineProperty(target, key, source[key]);
        });
    }
    return target;
}
";

impl HelperKind {
    /// The literal source text that defines the helper.
    pub open spec fn source_text(self) -> Seq<char> {
        match self {
            HelperKind::Extends => EXTENDS_SRC@,
            HelperKind::ToConsumableArray => TO_CONSUMABLE_ARRAY_SRC@,
            HelperKind::ClassCallCheck => CLASS_CALL_CHECK_SRC@,
            HelperKind::Inherits => INHERITS_SRC@,
            HelperKind::PossibleConstructorReturn => POSSIBLE_CONSTRUCTOR_RETURN_SRC@,
            HelperKind::CreateClass => CREATE_CLASS_SRC@,
            HelperKind::Get => GET_SRC@,
            HelperKind::InstanceOf => INSTANCEOF_SRC@,
            HelperKind::TypeOf => TYPEOF_SRC@,
            HelperKind::TaggedTemplateLiteral => TAGGED_TEMPLATE_LITERAL_SRC@,
            HelperKind::DefineProperty => DEFINE_PROPERTY_SRC@,
            HelperKind::DefineEnumerableProperty => DEFINE_ENUMERABLE_PROPERTIES_SRC@,
            HelperKind::SetProperty => SET_SRC@,
            HelperKind::GetPrototypeOf => GET_PROTOTYPE_OF_SRC@,
            HelperKind::Throw => THROW_SRC@,
            HelperKind::AsyncToGenerator => ASYNC_TO_GENERATOR_SRC@,
            HelperKind::ObjectWithoutProperties => OBJECT_WITHOUT_PROPERTIES_SRC@,
            HelperKind::ObjectSpread => OBJECT_SPREAD_SRC@,
        }
    }

    /// The catalog entry of the helper.
    pub fn source(self) -> (r: &'static str)
        ensures
            r@ == self.source_text(),
    {
        match self {
            HelperKind::Extends => EXTENDS_SRC,
            HelperKind::ToConsumableArray => TO_CONSUMABLE_ARRAY_SRC,
            HelperKind::ClassCallCheck => CLASS_CALL_CHECK_SRC,
            HelperKind::Inherits => INHERITS_SRC,
            HelperKind::PossibleConstructorReturn => POSSIBLE_CONSTRUCTOR_RETURN_SRC,
            HelperKind::CreateClass => CREATE_CLASS_SRC,
            HelperKind::Get => GET_SRC,
            HelperKind::InstanceOf => INSTANCEOF_SRC,
            HelperKind::TypeOf => TYPEOF_SRC,
            HelperKind::TaggedTemplateLiteral => TAGGED_TEMPLATE_LITERAL_SRC,
            HelperKind::DefineProperty => DEFINE_PROPERTY_SRC,
            HelperKind::DefineEnumerableProperty => DEFINE_ENUMERABLE_PROPERTIES_SRC,
            HelperKind::SetProperty => SET_SRC,
            HelperKind::GetPrototypeOf => GET_PROTOTYPE_OF_SRC,
            HelperKind::Throw => THROW_SRC,
            HelperKind::AsyncToGenerator => ASYNC_TO_GENERATOR_SRC,
            HelperKind::ObjectWithoutProperties => OBJECT_WITHOUT_PROPERTIES_SRC,
            HelperKind::ObjectSpread => OBJECT_SPREAD_SRC,
        }
    }
}

} // verus!
