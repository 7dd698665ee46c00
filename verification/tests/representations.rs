use bindings_generator::Ty;
use bindings_generator::TypePath;

fn object_path() -> TypePath {
    TypePath {
        generated: true,
        module: "node".to_string(),
        name: "Node".to_string(),
    }
}

fn bare_enum_path() -> TypePath {
    TypePath {
        generated: false,
        module: "vector3".to_string(),
        name: "Axis".to_string(),
    }
}

#[test]
fn stored_value_shapes() {
    assert_eq!(Ty::Void.to_rust(), "()");
    assert_eq!(Ty::GodotString.to_rust(), "GodotString");
    assert_eq!(Ty::F64.to_rust(), "f64");
    assert_eq!(Ty::I64.to_rust(), "i64");
    assert_eq!(Ty::Vector3.to_rust(), "Vector3");
    assert_eq!(Ty::Vector3Axis.to_rust(), "vector3::Axis");
    assert_eq!(Ty::GodotResult.to_rust(), "GodotResult");
    assert_eq!(Ty::Enum(bare_enum_path()).to_rust(), "vector3::Axis");
    assert_eq!(
        Ty::Object(object_path()).to_rust(),
        "Option<Ref<crate::generated::node::Node, thread_access::Shared>>"
    );
}

#[test]
fn argument_shapes_are_looser_for_convertible_types() {
    assert_eq!(Ty::Variant.to_rust_arg(), "impl OwnedToVariant");
    assert_eq!(Ty::NodePath.to_rust_arg(), "impl Into<NodePath>");
    assert_eq!(Ty::GodotString.to_rust_arg(), "impl Into<GodotString>");
    assert_eq!(
        Ty::Object(object_path()).to_rust_arg(),
        "impl AsArg<crate::generated::node::Node>"
    );
    assert_eq!(Ty::I64.to_rust_arg(), "i64");
    assert_eq!(Ty::Vector2.to_rust_arg(), "Vector2");
}

#[test]
fn raw_call_argument_shapes() {
    assert_eq!(
        Ty::Object(object_path()).to_icall_arg(),
        "*mut sys::godot_object"
    );
    assert_eq!(Ty::Vector2.to_icall_arg(), "Vector2");
    assert_eq!(Ty::GodotString.to_icall_arg(), "GodotString");
}

#[test]
fn raw_call_return_shapes() {
    assert_eq!(Ty::Void.to_icall_return(), "()");
    assert_eq!(Ty::GodotString.to_icall_return(), "sys::godot_string");
    assert_eq!(Ty::Vector3.to_icall_return(), "sys::godot_vector3");
    assert_eq!(Ty::Vector3Axis.to_icall_return(), "i64");
    assert_eq!(Ty::GodotResult.to_icall_return(), "i64");
    assert_eq!(Ty::VariantType.to_icall_return(), "i64");
    assert_eq!(Ty::Enum(bare_enum_path()).to_icall_return(), "i64");
    assert_eq!(
        Ty::Object(object_path()).to_icall_return(),
        "*mut sys::godot_object"
    );
}

#[test]
fn host_side_layouts() {
    assert!(Ty::Void.to_sys().is_none());
    assert!(Ty::Vector3Axis.to_sys().is_none());
    assert!(Ty::Enum(bare_enum_path()).to_sys().is_none());
    assert_eq!(Ty::F64.to_sys().unwrap(), "sys::godot_real");
    assert_eq!(Ty::I64.to_sys().unwrap(), "sys::godot_int");
    assert_eq!(Ty::VariantType.to_sys().unwrap(), "sys::variant_type");
    assert_eq!(
        Ty::VariantOperator.to_sys().unwrap(),
        "sys::godot_variant_operator"
    );
    assert_eq!(Ty::GodotResult.to_sys().unwrap(), "sys::godot_error");
    assert_eq!(Ty::Object(object_path()).to_sys().unwrap(), "sys::godot_object");
}

#[test]
fn post_call_conversions() {
    assert_eq!(Ty::Void.to_return_post(), "");
    assert_eq!(Ty::F64.to_return_post(), "ret as _");
    assert_eq!(Ty::Bool.to_return_post(), "ret as _");
    assert_eq!(Ty::Vector2.to_return_post(), "mem::transmute(ret)");
    assert_eq!(Ty::Vector3Axis.to_return_post(), "mem::transmute(ret as u32)");
    assert_eq!(Ty::Rid.to_return_post(), "Rid::from_sys(ret)");
    assert_eq!(Ty::Dictionary.to_return_post(), "Dictionary::from_sys(ret)");
    assert_eq!(Ty::Variant.to_return_post(), "Variant::from_sys(ret)");
    assert_eq!(
        Ty::GodotResult.to_return_post(),
        "GodotError::result_from_sys(ret as _)"
    );
    assert_eq!(
        Ty::VariantType.to_return_post(),
        "VariantType::from_sys(ret as _)"
    );
    assert_eq!(
        Ty::VariantOperator.to_return_post(),
        "VariantOperator::try_from_sys(ret as _).expect(\"enum variant should be valid\")"
    );
    assert_eq!(
        Ty::Enum(bare_enum_path()).to_return_post(),
        "vector3::Axis(ret)"
    );
    assert_eq!(
        Ty::Object(object_path()).to_return_post(),
        "ptr::NonNull::new(ret).map(|sys| <Ref<crate::generated::node::Node, thread_access::Shared>>::move_from_sys(sys))"
    );
}

#[test]
fn vector3_round_trip_through_the_boundary() {
    let tag = Ty::from_src("Vector3");
    assert!(matches!(tag, Ty::Vector3));
    assert_eq!(tag.to_rust(), "Vector3");
    assert_eq!(tag.to_icall_return(), "sys::godot_vector3");
    assert_eq!(tag.to_sys().unwrap(), "sys::godot_vector3");
    assert_eq!(tag.to_return_post(), "mem::transmute(ret)");
}
