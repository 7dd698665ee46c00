use bindings_generator::Api;
use bindings_generator::Enum;
use bindings_generator::EnumVariant;
use bindings_generator::GodotArgument;
use bindings_generator::GodotClass;
use bindings_generator::GodotMethod;
use bindings_generator::Property;
use bindings_generator::Ty;

fn class(name: &str, base: &str) -> GodotClass {
    GodotClass {
        name: name.to_string(),
        base_class: base.to_string(),
        api_type: "core".to_string(),
        singleton: false,
        is_reference: false,
        instantiable: true,
        properties: vec![],
        methods: vec![],
        enums: vec![],
        constants: vec![],
    }
}

fn singleton(name: &str) -> GodotClass {
    let mut c = class(name, "Object");
    c.singleton = true;
    c
}

fn method(name: &str, return_type: &str, args: Vec<GodotArgument>) -> GodotMethod {
    GodotMethod {
        name: name.to_string(),
        return_type: return_type.to_string(),
        is_editor: false,
        is_noscript: false,
        is_const: false,
        is_reverse: false,
        is_virtual: false,
        has_varargs: false,
        arguments: args,
    }
}

fn argument(name: &str, ty: &str) -> GodotArgument {
    GodotArgument {
        name: name.to_string(),
        ty: ty.to_string(),
        has_default_value: false,
        default_value: String::new(),
    }
}

fn variant(name: &str, value: i64) -> EnumVariant {
    EnumVariant {
        name: name.to_string(),
        value,
    }
}

#[test]
fn reserved_constructor_name_gets_an_alias() {
    let m = method("new", "void", vec![]);
    let n = m.get_name();
    assert_eq!(n.rust_name, "_new");
    assert_eq!(n.original_name, "new");
}

#[test]
fn ordinary_method_keeps_its_name() {
    let m = method("get_position", "Vector2", vec![]);
    let n = m.get_name();
    assert_eq!(n.rust_name, "get_position");
    assert_eq!(n.original_name, "get_position");
}

#[test]
fn method_and_argument_types_classify() {
    let m = method("travel", "int", vec![argument("target", "Vector3")]);
    assert!(matches!(m.get_return_type(), Ty::I64));
    assert!(matches!(m.arguments[0].get_type(), Ty::Vector3));
}

#[test]
fn refcounted_classification() {
    let mut c = class("ImageTexture", "Texture");
    assert!(!c.is_refcounted());
    c.is_reference = true;
    assert!(c.is_refcounted());
    let root = class("Reference", "Object");
    assert!(root.is_refcounted());
}

#[test]
fn pointer_safety_classification() {
    assert!(!class("Node", "Object").is_pointer_safe());
    assert!(singleton("Engine").is_pointer_safe());
    let mut c = class("ImageTexture", "Texture");
    c.is_reference = true;
    assert!(c.is_pointer_safe());
}

#[test]
fn singleton_thread_safety_deny_list() {
    assert!(!singleton("VisualServer").is_singleton_thread_safe());
    assert!(!singleton("PhysicsServer").is_singleton_thread_safe());
    assert!(!singleton("Physics3DServer").is_singleton_thread_safe());
    assert!(!singleton("Physics2DServer").is_singleton_thread_safe());
    assert!(singleton("ARVRServer").is_singleton_thread_safe());
    assert!(singleton("Engine").is_singleton_thread_safe());
}

#[test]
fn getter_lookup_scans_properties() {
    let mut c = class("Node2D", "CanvasItem");
    c.properties.push(Property {
        name: "position".to_string(),
        type_: "Vector2".to_string(),
        getter: "get_position".to_string(),
        setter: "set_position".to_string(),
        index: -1,
    });
    assert!(c.is_getter("get_position"));
    assert!(!c.is_getter("set_position"));
    assert!(!c.is_getter("get_rotation"));
}

#[test]
fn base_class_name_of_root_is_none() {
    assert!(class("Object", "").base_class_name().is_none());
    assert_eq!(class("Node", "Object").base_class_name().unwrap(), "Object");
}

#[test]
fn find_class_returns_first_exact_match() {
    let api = Api::from_classes(vec![class("Object", ""), class("Node", "Object")]);
    assert_eq!(api.find_class("Node").unwrap().base_class, "Object");
    assert!(api.find_class("Spatial").is_none());
}

#[test]
fn inheritance_follows_the_base_chain() {
    let api = Api::from_classes(vec![
        class("Object", ""),
        class("Node", "Object"),
        class("CanvasItem", "Node"),
        class("Node2D", "CanvasItem"),
    ]);
    let leaf = api.find_class("Node2D").unwrap();
    assert!(api.class_inherits(leaf, "CanvasItem"));
    assert!(api.class_inherits(leaf, "Node"));
    assert!(api.class_inherits(leaf, "Object"));
    assert!(!api.class_inherits(leaf, "Node2D"));
    assert!(!api.class_inherits(leaf, "Reference"));
    let root = api.find_class("Object").unwrap();
    assert!(!api.class_inherits(root, "Node"));
}

#[test]
fn base_class_resolves_through_the_api() {
    let api = Api::from_classes(vec![class("Object", ""), class("Node", "Object")]);
    let node = api.find_class("Node").unwrap();
    let parent = node.base_class(&api).unwrap();
    assert_eq!(parent.name, "Object");
    let root = api.find_class("Object").unwrap();
    assert!(root.base_class(&api).is_none());
}

#[test]
fn empty_manifest_loads_to_an_empty_api() {
    let api = Api::from_classes(vec![]);
    assert!(api.find_class("Object").is_none());
    assert!(api.classes.is_empty());
    assert!(api.api_underscore.is_empty());
}

#[test]
fn leading_underscore_classes_are_normalized() {
    let mut hidden = class("_Thing", "Object");
    hidden.methods.push(method(
        "make",
        "_Thing",
        vec![argument("other", "_Thing"), argument("count", "int")],
    ));
    hidden.properties.push(Property {
        name: "twin".to_string(),
        type_: "_Thing".to_string(),
        getter: "get_twin".to_string(),
        setter: "set_twin".to_string(),
        index: -1,
    });
    let api = Api::from_classes(vec![class("Object", ""), hidden]);
    assert!(api.find_class("Thing").is_some());
    assert!(api.find_class("_Thing").is_none());
    assert!(api.api_underscore.iter().any(|n| n == "Thing"));
    let thing = api.find_class("Thing").unwrap();
    assert_eq!(thing.methods[0].return_type, "Thing");
    assert_eq!(thing.methods[0].arguments[0].ty, "Thing");
    assert_eq!(thing.methods[0].arguments[1].ty, "int");
    assert_eq!(thing.methods[0].name, "make");
    assert_eq!(thing.methods[0].arguments[0].name, "other");
    assert_eq!(thing.properties[0].type_, "_Thing");
}

#[test]
fn enum_prefix_stripping_keeps_names_legal() {
    let mut e = Enum {
        name: "Axis".to_string(),
        values: vec![variant("AXIS_0", 0), variant("AXIS_1", 1)],
    };
    e.strip_common_prefix();
    assert_eq!(e.values[0].name, "_0");
    assert_eq!(e.values[0].value, 0);
    assert_eq!(e.values[1].name, "_1");
    assert_eq!(e.values[1].value, 1);
}

#[test]
fn enum_with_single_variant_is_untouched() {
    let mut e = Enum {
        name: "Mode".to_string(),
        values: vec![variant("MODE_SINGLE", 7)],
    };
    e.strip_common_prefix();
    assert_eq!(e.values[0].name, "MODE_SINGLE");
    assert_eq!(e.values[0].value, 7);
}

#[test]
fn enum_without_common_prefix_is_untouched() {
    let mut e = Enum {
        name: "Mixed".to_string(),
        values: vec![variant("ALPHA_X", 0), variant("BETA_Y", 1)],
    };
    e.strip_common_prefix();
    assert_eq!(e.values[0].name, "ALPHA_X");
    assert_eq!(e.values[1].name, "BETA_Y");
}

#[test]
fn enum_stripping_removes_every_shared_segment() {
    let mut e = Enum {
        name: "Mode".to_string(),
        values: vec![variant("TYPE_A_X", 1), variant("TYPE_A_Y", 2)],
    };
    e.strip_common_prefix();
    assert_eq!(e.values[0].name, "X");
    assert_eq!(e.values[1].name, "Y");
}

#[test]
fn enum_stripping_never_empties_a_name() {
    let mut e = Enum {
        name: "Mode".to_string(),
        values: vec![variant("AXIS_X", 0), variant("AXIS_", 1)],
    };
    e.strip_common_prefix();
    assert_eq!(e.values[0].name, "AXIS_X");
    assert_eq!(e.values[1].name, "AXIS_");
}

#[test]
fn enum_values_may_repeat_across_variants() {
    let mut e = Enum {
        name: "Dup".to_string(),
        values: vec![variant("KIND_ONE", 3), variant("KIND_TWO", 3)],
    };
    e.strip_common_prefix();
    assert_eq!(e.values[0].name, "ONE");
    assert_eq!(e.values[0].value, 3);
    assert_eq!(e.values[1].name, "TWO");
    assert_eq!(e.values[1].value, 3);
}

#[test]
fn loading_normalizes_enums_inside_classes() {
    let mut c = class("Spatial", "Node");
    c.enums.push(Enum {
        name: "RotationEditMode".to_string(),
        values: vec![
            variant("ROTATION_EDIT_MODE_EULER", 0),
            variant("ROTATION_EDIT_MODE_QUATERNION", 1),
        ],
    });
    let api = Api::from_classes(vec![c]);
    let spatial = api.find_class("Spatial").unwrap();
    assert_eq!(spatial.enums[0].values[0].name, "EULER");
    assert_eq!(spatial.enums[0].values[1].name, "QUATERNION");
}
