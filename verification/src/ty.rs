//! The type mapper's tag set and the classification of raw schema type
//! strings.
//!
//! `Ty::from_src` takes every raw type string that the manifest may use to a
//! tag: an exact table for the known primitive, math and collection types,
//! four special-cased enum strings with hand-written representations, a
//! recursive rule for `enum.<Owner>::<Variant>` strings, and a fallback that
//! treats any other string as the name of a manifest class. The mathematical
//! model is the spec function [`classify`].

use crate::casing::camel_of;
use crate::casing::snake_of;
use crate::casing::to_camel_case;
use crate::casing::to_snake_case;
use crate::strutil::find_double_colon;
use crate::strutil::find_sep;
use crate::strutil::lemma_find_sep_from_bounds;
use crate::strutil::starts_with_str;
use crate::strutil::str_eq;
use vstd::prelude::*;
use vstd::string::StrSliceExecFns;

verus! {

/// A path to a generated type: `crate::generated::<module>::<name>` when
/// `generated` is set, `<module>::<name>` otherwise.
#[derive(Clone)]
pub struct TypePath {
    pub generated: bool,
    pub module: String,
    pub name: String,
}

pub struct TypePathV {
    pub generated: bool,
    pub module: Seq<char>,
    pub name: Seq<char>,
}

impl View for TypePath {
    type V = TypePathV;

    open spec fn view(&self) -> TypePathV {
        TypePathV { generated: self.generated, module: self.module@, name: self.name@ }
    }
}

/// The closed set of shapes the generator distinguishes when mapping a raw
/// schema type string.
#[derive(Clone)]
pub enum Ty {
    Void,
    GodotString,
    F64,
    I64,
    Bool,
    Vector2,
    Vector3,
    Vector3Axis,
    Quat,
    Transform,
    Transform2D,
    Rect2,
    Plane,
    Basis,
    Color,
    NodePath,
    Variant,
    Aabb,
    Rid,
    VariantArray,
    Dictionary,
    ByteArray,
    StringArray,
    Vector2Array,
    Vector3Array,
    ColorArray,
    Int32Array,
    Float32Array,
    GodotResult,
    VariantType,
    VariantOperator,
    Enum(TypePath),
    Object(TypePath),
}

pub enum TyV {
    Void,
    GodotString,
    F64,
    I64,
    Bool,
    Vector2,
    Vector3,
    Vector3Axis,
    Quat,
    Transform,
    Transform2D,
    Rect2,
    Plane,
    Basis,
    Color,
    NodePath,
    Variant,
    Aabb,
    Rid,
    VariantArray,
    Dictionary,
    ByteArray,
    StringArray,
    Vector2Array,
    Vector3Array,
    ColorArray,
    Int32Array,
    Float32Array,
    GodotResult,
    VariantType,
    VariantOperator,
    Enum(TypePathV),
    Object(TypePathV),
}

impl View for Ty {
    type V = TyV;

    open spec fn view(&self) -> TyV {
        match self {
            Ty::Void => TyV::Void,
            Ty::GodotString => TyV::GodotString,
            Ty::F64 => TyV::F64,
            Ty::I64 => TyV::I64,
            Ty::Bool => TyV::Bool,
            Ty::Vector2 => TyV::Vector2,
            Ty::Vector3 => TyV::Vector3,
            Ty::Vector3Axis => TyV::Vector3Axis,
            Ty::Quat => TyV::Quat,
            Ty::Transform => TyV::Transform,
            Ty::Transform2D => TyV::Transform2D,
            Ty::Rect2 => TyV::Rect2,
            Ty::Plane => TyV::Plane,
            Ty::Basis => TyV::Basis,
            Ty::Color => TyV::Color,
            Ty::NodePath => TyV::NodePath,
            Ty::Variant => TyV::Variant,
            Ty::Aabb => TyV::Aabb,
            Ty::Rid => TyV::Rid,
            Ty::VariantArray => TyV::VariantArray,
            Ty::Dictionary => TyV::Dictionary,
            Ty::ByteArray => TyV::ByteArray,
            Ty::StringArray => TyV::StringArray,
            Ty::Vector2Array => TyV::Vector2Array,
            Ty::Vector3Array => TyV::Vector3Array,
            Ty::ColorArray => TyV::ColorArray,
            Ty::Int32Array => TyV::Int32Array,
            Ty::Float32Array => TyV::Float32Array,
            Ty::GodotResult => TyV::GodotResult,
            Ty::VariantType => TyV::VariantType,
            Ty::VariantOperator => TyV::VariantOperator,
            Ty::Enum(p) => TyV::Enum(p@),
            Ty::Object(p) => TyV::Object(p@),
        }
    }
}

/// The exact-match table for the known primitive, math and collection type
/// strings. `None` for any other string.
pub open spec fn table_tag(s: Seq<char>) -> Option<TyV> {
    if s == "void"@ {
        Some(TyV::Void)
    } else if s == "String"@ {
        Some(TyV::GodotString)
    } else if s == "float"@ {
        Some(TyV::F64)
    } else if s == "int"@ {
        Some(TyV::I64)
    } else if s == "bool"@ {
        Some(TyV::Bool)
    } else if s == "Vector2"@ {
        Some(TyV::Vector2)
    } else if s == "Vector3"@ {
        Some(TyV::Vector3)
    } else if s == "Quat"@ {
        Some(TyV::Quat)
    } else if s == "Transform"@ {
        Some(TyV::Transform)
    } else if s == "Transform2D"@ {
        Some(TyV::Transform2D)
    } else if s == "Rect2"@ {
        Some(TyV::Rect2)
    } else if s == "Plane"@ {
        Some(TyV::Plane)
    } else if s == "Basis"@ {
        Some(TyV::Basis)
    } else if s == "Color"@ {
        Some(TyV::Color)
    } else if s == "NodePath"@ {
        Some(TyV::NodePath)
    } else if s == "Variant"@ {
        Some(TyV::Variant)
    } else if s == "AABB"@ {
        Some(TyV::Aabb)
    } else if s == "RID"@ {
        Some(TyV::Rid)
    } else if s == "Array"@ {
        Some(TyV::VariantArray)
    } else if s == "Dictionary"@ {
        Some(TyV::Dictionary)
    } else if s == "PoolByteArray"@ {
        Some(TyV::ByteArray)
    } else if s == "PoolStringArray"@ {
        Some(TyV::StringArray)
    } else if s == "PoolVector2Array"@ {
        Some(TyV::Vector2Array)
    } else if s == "PoolVector3Array"@ {
        Some(TyV::Vector3Array)
    } else if s == "PoolColorArray"@ {
        Some(TyV::ColorArray)
    } else if s == "PoolIntArray"@ {
        Some(TyV::Int32Array)
    } else if s == "PoolRealArray"@ {
        Some(TyV::Float32Array)
    } else {
        None
    }
}

/// The four enum strings that map to hand-written fixed representations
/// ahead of the generic recursive rule.
pub open spec fn is_special_enum(s: Seq<char>) -> bool {
    ||| s == "enum.Error"@
    ||| s == "enum.Variant::Type"@
    ||| s == "enum.Variant::Operator"@
    ||| s == "enum.Vector3::Axis"@
}

pub open spec fn special_enum_tag(s: Seq<char>) -> TyV {
    if s == "enum.Error"@ {
        TyV::GodotResult
    } else if s == "enum.Variant::Type"@ {
        TyV::VariantType
    } else if s == "enum.Variant::Operator"@ {
        TyV::VariantOperator
    } else {
        TyV::Vector3Axis
    }
}

pub open spec fn has_enum_prefix(s: Seq<char>) -> bool {
    s.len() >= 5 && s.subrange(0, 5) == "enum."@
}

/// The characters after the `enum.` prefix.
pub open spec fn enum_rest(s: Seq<char>) -> Seq<char> {
    s.subrange(5, s.len() as int)
}

/// The owner segment: everything before the first `"::"`.
pub open spec fn enum_owner(rest: Seq<char>) -> Seq<char> {
    rest.subrange(0, find_sep(rest))
}

/// The variant segment: everything between the first `"::"` and the next one
/// (or the end).
pub open spec fn enum_variant(rest: Seq<char>) -> Seq<char> {
    let tail = rest.subrange(find_sep(rest) + 2, rest.len() as int);
    tail.subrange(0, find_sep(tail))
}

/// The classification of a raw schema type string: the mathematical model of
/// [`Ty::from_src`]. Total and deterministic; strings that match no known
/// case are taken to name a manifest class.
pub open spec fn classify(s: Seq<char>) -> TyV
    decreases s.len(),
    via classify_decreases
{
    if table_tag(s) is Some {
        table_tag(s)->0
    } else if is_special_enum(s) {
        special_enum_tag(s)
    } else if has_enum_prefix(s) {
        let owner = enum_owner(enum_rest(s));
        let variant = enum_variant(enum_rest(s));
        let nested = classify(owner) is Enum || classify(owner) is Object;
        TyV::Enum(TypePathV { generated: nested, module: snake_of(owner), name: camel_of(variant) })
    } else {
        TyV::Object(TypePathV { generated: true, module: snake_of(s), name: s })
    }
}

#[via_fn]
proof fn classify_decreases(s: Seq<char>) {
    if table_tag(s) is None && !is_special_enum(s) && has_enum_prefix(s) {
        lemma_find_sep_from_bounds(enum_rest(s), 0);
    }
}

/// Well-formedness of a raw type string: exactly the strings on which the
/// generator is specified to work. A string carrying the `enum.` prefix must
/// name a nonempty owner and a nonempty variant around a `"::"` separator,
/// and its owner must be well-formed in turn.
pub open spec fn wf_type_src(s: Seq<char>) -> bool
    decreases s.len(),
    via wf_type_src_decreases
{
    &&& s.len() > 0
    &&& (!is_special_enum(s) && has_enum_prefix(s) ==> {
        let rest = enum_rest(s);
        let k = find_sep(rest);
        &&& 0 < k
        &&& k + 1 < rest.len()
        &&& enum_variant(rest).len() > 0
        &&& wf_type_src(enum_owner(rest))
    })
}

#[via_fn]
proof fn wf_type_src_decreases(s: Seq<char>) {
    if !is_special_enum(s) && has_enum_prefix(s) {
        lemma_find_sep_from_bounds(enum_rest(s), 0);
    }
}

/// Decides [`wf_type_src`] for a raw type string, so that callers can test
/// a string of unknown provenance before mapping it.
pub fn type_src_well_formed(src: &str) -> (r: bool)
    ensures
        r == wf_type_src(src@),
    decreases src@.len(),
{
    let n = src.unicode_len();
    if n == 0 {
        return false;
    }
    if str_eq(src, "enum.Error") || str_eq(src, "enum.Variant::Type") || str_eq(
        src,
        "enum.Variant::Operator",
    ) || str_eq(src, "enum.Vector3::Axis") {
        return true;
    }
    proof {
        reveal_strlit("enum.");
    }
    if starts_with_str(src, "enum.") {
        let rest = src.substring_char(5, n);
        match find_double_colon(rest) {
            Some(k) => {
                if k == 0 {
                    return false;
                }
                let rest_n = rest.unicode_len();
                let tail = rest.substring_char(k + 2, rest_n);
                let m = match find_double_colon(tail) {
                    Some(m) => m,
                    None => tail.unicode_len(),
                };
                if m == 0 {
                    return false;
                }
                let owner = rest.substring_char(0, k);
                type_src_well_formed(owner)
            },
            None => false,
        }
    } else {
        true
    }
}

/// Law of the fallback rule: a well-formed type string matching no known
/// case names a manifest class, and its tag carries exactly the derived
/// module (the snake_case fold of the name) together with the name itself.
pub proof fn lemma_classify_class_name(s: Seq<char>)
    requires
        table_tag(s) is None,
        !is_special_enum(s),
        !has_enum_prefix(s),
    ensures
        classify(s) == TyV::Object(TypePathV { generated: true, module: snake_of(s), name: s }),
{
}

/// Law of the enum rule: an `enum.`-prefixed string that is not one of the
/// special cases classifies as an enum tag whose module is the snake_case
/// fold of the owner and whose name is the CamelCase fold of the variant.
/// The path nests under the generated namespace exactly when the owner
/// itself classifies as an object or enum reference; the paths of the two
/// cases differ in nothing else.
pub proof fn lemma_classify_enum_nesting(s: Seq<char>)
    requires
        table_tag(s) is None,
        !is_special_enum(s),
        has_enum_prefix(s),
    ensures
        ({
            let owner = enum_owner(enum_rest(s));
            let variant = enum_variant(enum_rest(s));
            classify(s) == TyV::Enum(
                TypePathV {
                    generated: classify(owner) is Enum || classify(owner) is Object,
                    module: snake_of(owner),
                    name: camel_of(variant),
                },
            )
        }),
{
}

impl Ty {
    /// Maps a raw schema type string to its tag.
    pub fn from_src(src: &str) -> (t: Ty)
        requires
            wf_type_src(src@),
        ensures
            t@ == classify(src@),
        decreases src@.len(),
    {
        if str_eq(src, "void") {
            return Ty::Void;
        }
        if str_eq(src, "String") {
            return Ty::GodotString;
        }
        if str_eq(src, "float") {
            return Ty::F64;
        }
        if str_eq(src, "int") {
            return Ty::I64;
        }
        if str_eq(src, "bool") {
            return Ty::Bool;
        }
        if str_eq(src, "Vector2") {
            return Ty::Vector2;
        }
        if str_eq(src, "Vector3") {
            return Ty::Vector3;
        }
        if str_eq(src, "Quat") {
            return Ty::Quat;
        }
        if str_eq(src, "Transform") {
            return Ty::Transform;
        }
        if str_eq(src, "Transform2D") {
            return Ty::Transform2D;
        }
        if str_eq(src, "Rect2") {
            return Ty::Rect2;
        }
        if str_eq(src, "Plane") {
            return Ty::Plane;
        }
        if str_eq(src, "Basis") {
            return Ty::Basis;
        }
        if str_eq(src, "Color") {
            return Ty::Color;
        }
        if str_eq(src, "NodePath") {
            return Ty::NodePath;
        }
        if str_eq(src, "Variant") {
            return Ty::Variant;
        }
        if str_eq(src, "AABB") {
            return Ty::Aabb;
        }
        if str_eq(src, "RID") {
            return Ty::Rid;
        }
        if str_eq(src, "Array") {
            return Ty::VariantArray;
        }
        if str_eq(src, "Dictionary") {
            return Ty::Dictionary;
        }
        if str_eq(src, "PoolByteArray") {
            return Ty::ByteArray;
        }
        if str_eq(src, "PoolStringArray") {
            return Ty::StringArray;
        }
        if str_eq(src, "PoolVector2Array") {
            return Ty::Vector2Array;
        }
        if str_eq(src, "PoolVector3Array") {
            return Ty::Vector3Array;
        }
        if str_eq(src, "PoolColorArray") {
            return Ty::ColorArray;
        }
        if str_eq(src, "PoolIntArray") {
            return Ty::Int32Array;
        }
        if str_eq(src, "PoolRealArray") {
            return Ty::Float32Array;
        }
        if str_eq(src, "enum.Error") {
            return Ty::GodotResult;
        }
        if str_eq(src, "enum.Variant::Type") {
            return Ty::VariantType;
        }
        if str_eq(src, "enum.Variant::Operator") {
            return Ty::VariantOperator;
        }
        if str_eq(src, "enum.Vector3::Axis") {
            return Ty::Vector3Axis;
        }
        proof {
            reveal_strlit("enum.");
        }
        if starts_with_str(src, "enum.") {
            let n = src.unicode_len();
            let rest = src.substring_char(5, n);
            let k = find_double_colon(rest).unwrap();
            let rest_n = rest.unicode_len();
            let owner = rest.substring_char(0, k);
            let tail = rest.substring_char(k + 2, rest_n);
            let m = match find_double_colon(tail) {
                Some(m) => m,
                None => tail.unicode_len(),
            };
            let variant = tail.substring_char(0, m);
            let owner_ty = Ty::from_src(owner);
            let nested = match owner_ty {
                Ty::Enum(_) => true,
                Ty::Object(_) => true,
                _ => false,
            };
            let module = to_snake_case(owner);
            let name = to_camel_case(variant);
            return Ty::Enum(TypePath { generated: nested, module, name });
        }
        let module = to_snake_case(src);
        let name = src.to_owned();
        Ty::Object(TypePath { generated: true, module, name })
    }
}

} // verus!
