use bindings_generator::ty::type_src_well_formed;
use bindings_generator::Ty;

#[test]
fn classify_known_primitives() {
    assert!(matches!(Ty::from_src("void"), Ty::Void));
    assert!(matches!(Ty::from_src("String"), Ty::GodotString));
    assert!(matches!(Ty::from_src("float"), Ty::F64));
    assert!(matches!(Ty::from_src("int"), Ty::I64));
    assert!(matches!(Ty::from_src("bool"), Ty::Bool));
}

#[test]
fn classify_known_math_types() {
    assert!(matches!(Ty::from_src("Vector2"), Ty::Vector2));
    assert!(matches!(Ty::from_src("Vector3"), Ty::Vector3));
    assert!(matches!(Ty::from_src("Quat"), Ty::Quat));
    assert!(matches!(Ty::from_src("Transform"), Ty::Transform));
    assert!(matches!(Ty::from_src("Transform2D"), Ty::Transform2D));
    assert!(matches!(Ty::from_src("Rect2"), Ty::Rect2));
    assert!(matches!(Ty::from_src("Plane"), Ty::Plane));
    assert!(matches!(Ty::from_src("Basis"), Ty::Basis));
    assert!(matches!(Ty::from_src("Color"), Ty::Color));
    assert!(matches!(Ty::from_src("AABB"), Ty::Aabb));
    assert!(matches!(Ty::from_src("RID"), Ty::Rid));
    assert!(matches!(Ty::from_src("NodePath"), Ty::NodePath));
    assert!(matches!(Ty::from_src("Variant"), Ty::Variant));
}

#[test]
fn classify_known_collections() {
    assert!(matches!(Ty::from_src("Array"), Ty::VariantArray));
    assert!(matches!(Ty::from_src("Dictionary"), Ty::Dictionary));
    assert!(matches!(Ty::from_src("PoolByteArray"), Ty::ByteArray));
    assert!(matches!(Ty::from_src("PoolStringArray"), Ty::StringArray));
    assert!(matches!(Ty::from_src("PoolVector2Array"), Ty::Vector2Array));
    assert!(matches!(Ty::from_src("PoolVector3Array"), Ty::Vector3Array));
    assert!(matches!(Ty::from_src("PoolColorArray"), Ty::ColorArray));
    assert!(matches!(Ty::from_src("PoolIntArray"), Ty::Int32Array));
    assert!(matches!(Ty::from_src("PoolRealArray"), Ty::Float32Array));
}

#[test]
fn classify_special_enum_strings_hit_fixed_representations() {
    assert!(matches!(Ty::from_src("enum.Error"), Ty::GodotResult));
    assert!(matches!(Ty::from_src("enum.Variant::Type"), Ty::VariantType));
    assert!(matches!(
        Ty::from_src("enum.Variant::Operator"),
        Ty::VariantOperator
    ));
    assert!(matches!(Ty::from_src("enum.Vector3::Axis"), Ty::Vector3Axis));
}

#[test]
fn classify_unknown_name_falls_back_to_object() {
    match Ty::from_src("SomeClass") {
        Ty::Object(p) => {
            assert!(p.generated);
            assert_eq!(p.module, "some_class");
            assert_eq!(p.name, "SomeClass");
        }
        _ => panic!("expected an object tag"),
    }
}

#[test]
fn classify_enum_under_class_is_namespaced() {
    match Ty::from_src("enum.SomeClass::some_enum") {
        Ty::Enum(p) => {
            assert!(p.generated);
            assert_eq!(p.module, "some_class");
            assert_eq!(p.name, "SomeEnum");
        }
        _ => panic!("expected an enum tag"),
    }
}

#[test]
fn classify_enum_under_builtin_is_bare() {
    match Ty::from_src("enum.Vector2::Kind") {
        Ty::Enum(p) => {
            assert!(!p.generated);
            assert_eq!(p.module, "vector2");
            assert_eq!(p.name, "Kind");
        }
        _ => panic!("expected an enum tag"),
    }
}

#[test]
fn classify_enum_paths_differ_only_in_generated_namespace() {
    let bare = match Ty::from_src("enum.Vector2::Kind") {
        Ty::Enum(p) => p,
        _ => panic!("expected an enum tag"),
    };
    let nested = match Ty::from_src("enum.VECTOR2::Kind") {
        Ty::Enum(p) => p,
        _ => panic!("expected an enum tag"),
    };
    assert!(!bare.generated);
    assert!(nested.generated);
    assert_eq!(bare.module, nested.module);
    assert_eq!(bare.name, nested.name);
}

#[test]
fn well_formedness_of_raw_type_strings() {
    assert!(type_src_well_formed("int"));
    assert!(type_src_well_formed("Vector3"));
    assert!(type_src_well_formed("SomeClass"));
    assert!(type_src_well_formed("enum.Error"));
    assert!(type_src_well_formed("enum.SomeClass::SomeEnum"));
    assert!(!type_src_well_formed(""));
    assert!(!type_src_well_formed("enum.SomeClass"));
    assert!(!type_src_well_formed("enum.::SomeEnum"));
    assert!(!type_src_well_formed("enum.SomeClass::"));
    assert!(!type_src_well_formed("enum.enum.SomeClass::SomeEnum"));
}

#[test]
fn classify_enum_variant_name_is_camel_cased() {
    match Ty::from_src("enum.AnimationPlayer::animation_process_mode") {
        Ty::Enum(p) => {
            assert_eq!(p.module, "animation_player");
            assert_eq!(p.name, "AnimationProcessMode");
        }
        _ => panic!("expected an enum tag"),
    }
}
