//! The five target representations of a type tag, rendered as Rust source
//! text: the stored-value shape, the argument-accepting shape, the two
//! raw-call shapes at the host boundary, and the post-call conversion
//! expression that turns a raw return value back into the stored shape.

use crate::ty::Ty;
use crate::ty::TyV;
use crate::ty::TypePath;
use crate::ty::TypePathV;
use vstd::prelude::*;
use vstd::string::StringExecFns;

verus! {

/// The textual path of a generated type: rooted under `crate::generated`
/// when the path is namespaced there, bare otherwise.
pub open spec fn spec_path_text(p: TypePathV) -> Seq<char> {
    if p.generated {
        "crate::generated::"@ + p.module + "::"@ + p.name
    } else {
        p.module + "::"@ + p.name
    }
}

/// Renders the path of a generated type.
pub fn path_text(p: &TypePath) -> (r: String)
    ensures
        r@ == spec_path_text(p@),
{
    let mut s: String = if p.generated {
        "crate::generated::".to_owned()
    } else {
        String::new()
    };
    s.append(p.module.as_str());
    s.append("::");
    s.append(p.name.as_str());
    proof {
        assert(s@ =~= spec_path_text(p@));
    }
    s
}

/// The stored-value shape: the type used for a struct field or a plain
/// return binding. Value types stand by value; an object reference becomes
/// an optional shared-ownership handle, so that absence needs no sentinel.
pub open spec fn spec_to_rust(t: TyV) -> Seq<char> {
    match t {
        TyV::Void => "()"@,
        TyV::GodotString => "GodotString"@,
        TyV::F64 => "f64"@,
        TyV::I64 => "i64"@,
        TyV::Bool => "bool"@,
        TyV::Vector2 => "Vector2"@,
        TyV::Vector3 => "Vector3"@,
        TyV::Vector3Axis => "vector3::Axis"@,
        TyV::Quat => "Quat"@,
        TyV::Transform => "Transform"@,
        TyV::Transform2D => "Transform2D"@,
        TyV::Rect2 => "Rect2"@,
        TyV::Plane => "Plane"@,
        TyV::Basis => "Basis"@,
        TyV::Color => "Color"@,
        TyV::NodePath => "NodePath"@,
        TyV::Variant => "Variant"@,
        TyV::Aabb => "Aabb"@,
        TyV::Rid => "Rid"@,
        TyV::VariantArray => "VariantArray"@,
        TyV::Dictionary => "Dictionary"@,
        TyV::ByteArray => "ByteArray"@,
        TyV::StringArray => "StringArray"@,
        TyV::Vector2Array => "Vector2Array"@,
        TyV::Vector3Array => "Vector3Array"@,
        TyV::ColorArray => "ColorArray"@,
        TyV::Int32Array => "Int32Array"@,
        TyV::Float32Array => "Float32Array"@,
        TyV::GodotResult => "GodotResult"@,
        TyV::VariantType => "VariantType"@,
        TyV::VariantOperator => "VariantOperator"@,
        TyV::Enum(p) => spec_path_text(p),
        TyV::Object(p) => "Option<Ref<"@ + spec_path_text(p) + ", thread_access::Shared>>"@,
    }
}

/// The argument-accepting shape: looser than the stored shape for a few
/// types, so that call sites may pass anything convertible and upcast
/// without explicit casts.
pub open spec fn spec_to_rust_arg(t: TyV) -> Seq<char> {
    match t {
        TyV::Variant => "impl OwnedToVariant"@,
        TyV::NodePath => "impl Into<NodePath>"@,
        TyV::GodotString => "impl Into<GodotString>"@,
        TyV::Object(p) => "impl AsArg<"@ + spec_path_text(p) + ">"@,
        _ => spec_to_rust(t),
    }
}

/// The raw-call argument shape: an object reference degrades to a raw
/// non-owning pointer; everything else matches its stored shape.
pub open spec fn spec_to_icall_arg(t: TyV) -> Seq<char> {
    match t {
        TyV::Object(_) => "*mut sys::godot_object"@,
        _ => spec_to_rust(t),
    }
}

/// The raw-call return shape: the layout the host writes into returned
/// memory. Objects come back as raw pointers and every enum degrades to a
/// 64-bit integer.
pub open spec fn spec_to_icall_return(t: TyV) -> Seq<char> {
    match t {
        TyV::Void => "()"@,
        TyV::GodotString => "sys::godot_string"@,
        TyV::F64 => "f64"@,
        TyV::I64 => "i64"@,
        TyV::Bool => "sys::godot_bool"@,
        TyV::Vector2 => "sys::godot_vector2"@,
        TyV::Vector3 => "sys::godot_vector3"@,
        TyV::Quat => "sys::godot_quat"@,
        TyV::Transform => "sys::godot_transform"@,
        TyV::Transform2D => "sys::godot_transform2d"@,
        TyV::Rect2 => "sys::godot_rect2"@,
        TyV::Plane => "sys::godot_plane"@,
        TyV::Basis => "sys::godot_basis"@,
        TyV::Color => "sys::godot_color"@,
        TyV::NodePath => "sys::godot_node_path"@,
        TyV::Variant => "sys::godot_variant"@,
        TyV::Aabb => "sys::godot_aabb"@,
        TyV::Rid => "sys::godot_rid"@,
        TyV::VariantArray => "sys::godot_array"@,
        TyV::Dictionary => "sys::godot_dictionary"@,
        TyV::ByteArray => "sys::godot_pool_byte_array"@,
        TyV::StringArray => "sys::godot_pool_string_array"@,
        TyV::Vector2Array => "sys::godot_pool_vector2_array"@,
        TyV::Vector3Array => "sys::godot_pool_vector3_array"@,
        TyV::ColorArray => "sys::godot_pool_color_array"@,
        TyV::Int32Array => "sys::godot_pool_int_array"@,
        TyV::Float32Array => "sys::godot_pool_real_array"@,
        TyV::Vector3Axis => "i64"@,
        TyV::GodotResult => "i64"@,
        TyV::VariantType => "i64"@,
        TyV::VariantOperator => "i64"@,
        TyV::Enum(_) => "i64"@,
        TyV::Object(_) => "*mut sys::godot_object"@,
    }
}

/// The host-side layout of a type, where one exists: `None` for the shapes
/// that never cross the boundary by value.
pub open spec fn spec_to_sys(t: TyV) -> Option<Seq<char>> {
    match t {
        TyV::Void => None,
        TyV::GodotString => Some("sys::godot_string"@),
        TyV::F64 => Some("sys::godot_real"@),
        TyV::I64 => Some("sys::godot_int"@),
        TyV::Bool => Some("sys::godot_bool"@),
        TyV::Vector2 => Some("sys::godot_vector2"@),
        TyV::Vector3 => Some("sys::godot_vector3"@),
        TyV::Vector3Axis => None,
        TyV::Quat => Some("sys::godot_quat"@),
        TyV::Transform => Some("sys::godot_transform"@),
        TyV::Transform2D => Some("sys::godot_transform2d"@),
        TyV::Rect2 => Some("sys::godot_rect2"@),
        TyV::Plane => Some("sys::godot_plane"@),
        TyV::Basis => Some("sys::godot_basis"@),
        TyV::Color => Some("sys::godot_color"@),
        TyV::NodePath => Some("sys::godot_node_path"@),
        TyV::Variant => Some("sys::godot_variant"@),
        TyV::Aabb => Some("sys::godot_aabb"@),
        TyV::Rid => Some("sys::godot_rid"@),
        TyV::VariantArray => Some("sys::godot_array"@),
        TyV::Dictionary => Some("sys::godot_dictionary"@),
        TyV::ByteArray => Some("sys::godot_pool_byte_array"@),
        TyV::StringArray => Some("sys::godot_pool_string_array"@),
        TyV::Vector2Array => Some("sys::godot_pool_vector2_array"@),
        TyV::Vector3Array => Some("sys::godot_pool_vector3_array"@),
        TyV::ColorArray => Some("sys::godot_pool_color_array"@),
        TyV::Int32Array => Some("sys::godot_pool_int_array"@),
        TyV::Float32Array => Some("sys::godot_pool_real_array"@),
        TyV::GodotResult => Some("sys::godot_error"@),
        TyV::VariantType => Some("sys::variant_type"@),
        TyV::VariantOperator => Some("sys::godot_variant_operator"@),
        TyV::Enum(_) => None,
        TyV::Object(_) => Some("sys::godot_object"@),
    }
}

/// The fixed-size math types whose memory layout is byte-compatible with
/// the host's: their post-call conversion is a reinterpretation.
pub open spec fn is_pod_math(t: TyV) -> bool {
    match t {
        TyV::Vector2 => true,
        TyV::Vector3 => true,
        TyV::Transform => true,
        TyV::Transform2D => true,
        TyV::Quat => true,
        TyV::Aabb => true,
        TyV::Rect2 => true,
        TyV::Basis => true,
        TyV::Plane => true,
        TyV::Color => true,
        _ => false,
    }
}

/// The reference-counted core types that are rebuilt from the raw value by
/// their own wrap constructor.
pub open spec fn is_wrap_constructed(t: TyV) -> bool {
    match t {
        TyV::GodotString => true,
        TyV::NodePath => true,
        TyV::VariantArray => true,
        TyV::Dictionary => true,
        TyV::ByteArray => true,
        TyV::StringArray => true,
        TyV::Vector2Array => true,
        TyV::Vector3Array => true,
        TyV::ColorArray => true,
        TyV::Int32Array => true,
        TyV::Float32Array => true,
        TyV::Variant => true,
        _ => false,
    }
}

/// The post-call conversion expression: the operation that turns a raw-call
/// return value (named `ret`) back into the stored-value shape.
pub open spec fn spec_to_return_post(t: TyV) -> Seq<char> {
    match t {
        TyV::Void => ""@,
        TyV::F64 => "ret as _"@,
        TyV::I64 => "ret as _"@,
        TyV::Bool => "ret as _"@,
        TyV::Enum(p) => spec_path_text(p) + "(ret)"@,
        TyV::Vector3Axis => "mem::transmute(ret as u32)"@,
        TyV::Rid => "Rid::from_sys(ret)"@,
        TyV::Object(p) => "ptr::NonNull::new(ret).map(|sys| <Ref<"@ + spec_path_text(p)
            + ", thread_access::Shared>>::move_from_sys(sys))"@,
        TyV::GodotResult => "GodotError::result_from_sys(ret as _)"@,
        TyV::VariantType => "VariantType::from_sys(ret as _)"@,
        TyV::VariantOperator => "VariantOperator::try_from_sys(ret as _).expect(\"enum variant should be valid\")"@,
        _ => {
            if is_pod_math(t) {
                "mem::transmute(ret)"@
            } else {
                spec_to_rust(t) + "::from_sys(ret)"@
            }
        },
    }
}

impl Ty {
    /// The stored-value shape of this tag, as Rust type text.
    pub fn to_rust(&self) -> (r: String)
        ensures
            r@ == spec_to_rust(self@),
    {
        match self {
            Ty::Void => "()".to_owned(),
            Ty::GodotString => "GodotString".to_owned(),
            Ty::F64 => "f64".to_owned(),
            Ty::I64 => "i64".to_owned(),
            Ty::Bool => "bool".to_owned(),
            Ty::Vector2 => "Vector2".to_owned(),
            Ty::Vector3 => "Vector3".to_owned(),
            Ty::Vector3Axis => "vector3::Axis".to_owned(),
            Ty::Quat => "Quat".to_owned(),
            Ty::Transform => "Transform".to_owned(),
            Ty::Transform2D => "Transform2D".to_owned(),
            Ty::Rect2 => "Rect2".to_owned(),
            Ty::Plane => "Plane".to_owned(),
            Ty::Basis => "Basis".to_owned(),
            Ty::Color => "Color".to_owned(),
            Ty::NodePath => "NodePath".to_owned(),
            Ty::Variant => "Variant".to_owned(),
            Ty::Aabb => "Aabb".to_owned(),
            Ty::Rid => "Rid".to_owned(),
            Ty::VariantArray => "VariantArray".to_owned(),
            Ty::Dictionary => "Dictionary".to_owned(),
            Ty::ByteArray => "ByteArray".to_owned(),
            Ty::StringArray => "StringArray".to_owned(),
            Ty::Vector2Array => "Vector2Array".to_owned(),
            Ty::Vector3Array => "Vector3Array".to_owned(),
            Ty::ColorArray => "ColorArray".to_owned(),
            Ty::Int32Array => "Int32Array".to_owned(),
            Ty::Float32Array => "Float32Array".to_owned(),
            Ty::GodotResult => "GodotResult".to_owned(),
            Ty::VariantType => "VariantType".to_owned(),
            Ty::VariantOperator => "VariantOperator".to_owned(),
            Ty::Enum(p) => path_text(p),
            Ty::Object(p) => {
                let mut s = "Option<Ref<".to_owned();
                let pt = path_text(p);
                s.append(pt.as_str());
                s.append(", thread_access::Shared>>");
                s
            },
        }
    }

    /// The argument-accepting shape of this tag, as Rust type text.
    pub fn to_rust_arg(&self) -> (r: String)
        ensures
            r@ == spec_to_rust_arg(self@),
    {
        match self {
            Ty::Variant => "impl OwnedToVariant".to_owned(),
            Ty::NodePath => "impl Into<NodePath>".to_owned(),
            Ty::GodotString => "impl Into<GodotString>".to_owned(),
            Ty::Object(p) => {
                let mut s = "impl AsArg<".to_owned();
                let pt = path_text(p);
                s.append(pt.as_str());
                s.append(">");
                s
            },
            _ => self.to_rust(),
        }
    }

    /// The raw-call argument shape of this tag, as Rust type text.
    pub fn to_icall_arg(&self) -> (r: String)
        ensures
            r@ == spec_to_icall_arg(self@),
    {
        match self {
            Ty::Object(_) => "*mut sys::godot_object".to_owned(),
            _ => self.to_rust(),
        }
    }

    /// The raw-call return shape of this tag, as Rust type text.
    pub fn to_icall_return(&self) -> (r: String)
        ensures
            r@ == spec_to_icall_return(self@),
    {
        match self {
            Ty::Void => "()".to_owned(),
            Ty::GodotString => "sys::godot_string".to_owned(),
            Ty::F64 => "f64".to_owned(),
            Ty::I64 => "i64".to_owned(),
            Ty::Bool => "sys::godot_bool".to_owned(),
            Ty::Vector2 => "sys::godot_vector2".to_owned(),
            Ty::Vector3 => "sys::godot_vector3".to_owned(),
            Ty::Quat => "sys::godot_quat".to_owned(),
            Ty::Transform => "sys::godot_transform".to_owned(),
            Ty::Transform2D => "sys::godot_transform2d".to_owned(),
            Ty::Rect2 => "sys::godot_rect2".to_owned(),
            Ty::Plane => "sys::godot_plane".to_owned(),
            Ty::Basis => "sys::godot_basis".to_owned(),
            Ty::Color => "sys::godot_color".to_owned(),
            Ty::NodePath => "sys::godot_node_path".to_owned(),
            Ty::Variant => "sys::godot_variant".to_owned(),
            Ty::Aabb => "sys::godot_aabb".to_owned(),
            Ty::Rid => "sys::godot_rid".to_owned(),
            Ty::VariantArray => "sys::godot_array".to_owned(),
            Ty::Dictionary => "sys::godot_dictionary".to_owned(),
            Ty::ByteArray => "sys::godot_pool_byte_array".to_owned(),
            Ty::StringArray => "sys::godot_pool_string_array".to_owned(),
            Ty::Vector2Array => "sys::godot_pool_vector2_array".to_owned(),
            Ty::Vector3Array => "sys::godot_pool_vector3_array".to_owned(),
            Ty::ColorArray => "sys::godot_pool_color_array".to_owned(),
            Ty::Int32Array => "sys::godot_pool_int_array".to_owned(),
            Ty::Float32Array => "sys::godot_pool_real_array".to_owned(),
            Ty::Vector3Axis => "i64".to_owned(),
            Ty::GodotResult => "i64".to_owned(),
            Ty::VariantType => "i64".to_owned(),
            Ty::VariantOperator => "i64".to_owned(),
            Ty::Enum(_) => "i64".to_owned(),
            Ty::Object(_) => "*mut sys::godot_object".to_owned(),
        }
    }

    /// The host-side layout of this tag, where one exists.
    pub fn to_sys(&self) -> (r: Option<String>)
        ensures
            (r is Some) == (spec_to_sys(self@) is Some),
            r matches Some(s) ==> Some(s@) == spec_to_sys(self@),
    {
        match self {
            Ty::Void => None,
            Ty::GodotString => Some("sys::godot_string".to_owned()),
            Ty::F64 => Some("sys::godot_real".to_owned()),
            Ty::I64 => Some("sys::godot_int".to_owned()),
            Ty::Bool => Some("sys::godot_bool".to_owned()),
            Ty::Vector2 => Some("sys::godot_vector2".to_owned()),
            Ty::Vector3 => Some("sys::godot_vector3".to_owned()),
            Ty::Vector3Axis => None,
            Ty::Quat => Some("sys::godot_quat".to_owned()),
            Ty::Transform => Some("sys::godot_transform".to_owned()),
            Ty::Transform2D => Some("sys::godot_transform2d".to_owned()),
            Ty::Rect2 => Some("sys::godot_rect2".to_owned()),
            Ty::Plane => Some("sys::godot_plane".to_owned()),
            Ty::Basis => Some("sys::godot_basis".to_owned()),
            Ty::Color => Some("sys::godot_color".to_owned()),
            Ty::NodePath => Some("sys::godot_node_path".to_owned()),
            Ty::Variant => Some("sys::godot_variant".to_owned()),
            Ty::Aabb => Some("sys::godot_aabb".to_owned()),
            Ty::Rid => Some("sys::godot_rid".to_owned()),
            Ty::VariantArray => Some("sys::godot_array".to_owned()),
            Ty::Dictionary => Some("sys::godot_dictionary".to_owned()),
            Ty::ByteArray => Some("sys::godot_pool_byte_array".to_owned()),
            Ty::StringArray => Some("sys::godot_pool_string_array".to_owned()),
            Ty::Vector2Array => Some("sys::godot_pool_vector2_array".to_owned()),
            Ty::Vector3Array => Some("sys::godot_pool_vector3_array".to_owned()),
            Ty::ColorArray => Some("sys::godot_pool_color_array".to_owned()),
            Ty::Int32Array => Some("sys::godot_pool_int_array".to_owned()),
            Ty::Float32Array => Some("sys::godot_pool_real_array".to_owned()),
            Ty::GodotResult => Some("sys::godot_error".to_owned()),
            Ty::VariantType => Some("sys::variant_type".to_owned()),
            Ty::VariantOperator => Some("sys::godot_variant_operator".to_owned()),
            Ty::Enum(_) => None,
            Ty::Object(_) => Some("sys::godot_object".to_owned()),
        }
    }

    /// The post-call conversion of this tag, as Rust expression text over a
    /// raw return value named `ret`.
    pub fn to_return_post(&self) -> (r: String)
        ensures
            r@ == spec_to_return_post(self@),
    {
        match self {
            Ty::Void => "".to_owned(),
            Ty::F64 => "ret as _".to_owned(),
            Ty::I64 => "ret as _".to_owned(),
            Ty::Bool => "ret as _".to_owned(),
            Ty::Enum(p) => {
                let mut s = path_text(p);
                s.append("(ret)");
                s
            },
            Ty::Vector2 => "mem::transmute(ret)".to_owned(),
            Ty::Vector3 => "mem::transmute(ret)".to_owned(),
            Ty::Transform => "mem::transmute(ret)".to_owned(),
            Ty::Transform2D => "mem::transmute(ret)".to_owned(),
            Ty::Quat => "mem::transmute(ret)".to_owned(),
            Ty::Aabb => "mem::transmute(ret)".to_owned(),
            Ty::Rect2 => "mem::transmute(ret)".to_owned(),
            Ty::Basis => "mem::transmute(ret)".to_owned(),
            Ty::Plane => "mem::transmute(ret)".to_owned(),
            Ty::Color => "mem::transmute(ret)".to_owned(),
            Ty::Vector3Axis => "mem::transmute(ret as u32)".to_owned(),
            Ty::Rid => "Rid::from_sys(ret)".to_owned(),
            Ty::Object(p) => {
                let mut s = "ptr::NonNull::new(ret).map(|sys| <Ref<".to_owned();
                let pt = path_text(p);
                s.append(pt.as_str());
                s.append(", thread_access::Shared>>::move_from_sys(sys))");
                s
            },
            Ty::GodotResult => "GodotError::result_from_sys(ret as _)".to_owned(),
            Ty::VariantType => "VariantType::from_sys(ret as _)".to_owned(),
            Ty::VariantOperator => "VariantOperator::try_from_sys(ret as _).expect(\"enum variant should be valid\")".to_owned(),
            _ => {
                let base = self.to_rust();
                let mut s = base;
                s.append("::from_sys(ret)");
                s
            },
        }
    }
}

/// The round-trip laws of the representations: for every tag, the post-call
/// conversion rebuilds exactly the stored-value shape from the raw-call
/// return shape. A byte-compatible math type crosses the boundary in its
/// own host layout and comes back by reinterpretation; a wrap-constructed
/// core type is rebuilt by the constructor of its own stored type; an enum
/// tag degrades to a 64-bit integer and is rebuilt by the constructor of
/// its own path; an object comes back as a nullable raw pointer promoted to
/// the optional handle of its own path.
pub proof fn lemma_representation_roundtrip(t: TyV)
    ensures
        is_pod_math(t) ==> spec_to_sys(t) == Some(spec_to_icall_return(t))
            && spec_to_return_post(t) == "mem::transmute(ret)"@,
        is_wrap_constructed(t) ==> spec_to_return_post(t) == spec_to_rust(t) + "::from_sys(ret)"@,
        t matches TyV::Enum(p) ==> spec_to_rust(t) == spec_path_text(p) && spec_to_return_post(t)
            == spec_path_text(p) + "(ret)"@ && spec_to_icall_return(t) == "i64"@,
        t matches TyV::Object(p) ==> spec_to_rust(t) == "Option<Ref<"@ + spec_path_text(p)
            + ", thread_access::Shared>>"@ && spec_to_icall_return(t) == "*mut sys::godot_object"@
            && spec_to_return_post(t) == "ptr::NonNull::new(ret).map(|sys| <Ref<"@
            + spec_path_text(p) + ", thread_access::Shared>>::move_from_sys(sys))"@,
        (t is F64 || t is I64 || t is Bool) ==> spec_to_return_post(t) == "ret as _"@,
        (t is F64 || t is I64) ==> spec_to_icall_return(t) == spec_to_rust(t),
{
}

} // verus!
