//! The schema model: in-memory descriptors for the classes, properties,
//! methods, arguments, enums and constants that the engine's manifest
//! exports, together with the simple classification queries on them.

use crate::strutil::str_eq;
use crate::ty::classify;
use crate::ty::wf_type_src;
use crate::ty::Ty;
use vstd::prelude::*;

verus! {

/// A property exported by a class: its raw type string and the names of its
/// accessor methods.
#[derive(Clone)]
pub struct Property {
    pub name: String,
    pub type_: String,
    pub getter: String,
    pub setter: String,
    pub index: i64,
}

pub struct PropertyV {
    pub name: Seq<char>,
    pub type_: Seq<char>,
    pub getter: Seq<char>,
    pub setter: Seq<char>,
    pub index: i64,
}

impl View for Property {
    type V = PropertyV;

    open spec fn view(&self) -> PropertyV {
        PropertyV {
            name: self.name@,
            type_: self.type_@,
            getter: self.getter@,
            setter: self.setter@,
            index: self.index,
        }
    }
}

/// One argument of an exported method: its raw type string and its optional
/// default value, kept as an unchecked literal.
#[derive(Clone)]
pub struct GodotArgument {
    pub name: String,
    pub ty: String,
    pub has_default_value: bool,
    pub default_value: String,
}

pub struct GodotArgumentV {
    pub name: Seq<char>,
    pub ty: Seq<char>,
    pub has_default_value: bool,
    pub default_value: Seq<char>,
}

impl View for GodotArgument {
    type V = GodotArgumentV;

    open spec fn view(&self) -> GodotArgumentV {
        GodotArgumentV {
            name: self.name@,
            ty: self.ty@,
            has_default_value: self.has_default_value,
            default_value: self.default_value@,
        }
    }
}

/// A method exported by a class.
#[derive(Clone)]
pub struct GodotMethod {
    pub name: String,
    pub return_type: String,
    pub is_editor: bool,
    pub is_noscript: bool,
    pub is_const: bool,
    pub is_reverse: bool,
    pub is_virtual: bool,
    pub has_varargs: bool,
    pub arguments: Vec<GodotArgument>,
}

pub struct GodotMethodV {
    pub name: Seq<char>,
    pub return_type: Seq<char>,
    pub is_editor: bool,
    pub is_noscript: bool,
    pub is_const: bool,
    pub is_reverse: bool,
    pub is_virtual: bool,
    pub has_varargs: bool,
    pub arguments: Seq<GodotArgumentV>,
}

impl View for GodotMethod {
    type V = GodotMethodV;

    open spec fn view(&self) -> GodotMethodV {
        GodotMethodV {
            name: self.name@,
            return_type: self.return_type@,
            is_editor: self.is_editor,
            is_noscript: self.is_noscript,
            is_const: self.is_const,
            is_reverse: self.is_reverse,
            is_virtual: self.is_virtual,
            has_varargs: self.has_varargs,
            arguments: self.arguments@.map_values(|a: GodotArgument| a@),
        }
    }
}

/// The two names a generated method carries: the name used in the generated
/// code and the name the engine registers the method under. They differ only
/// for a method whose manifest name collides with the reserved constructor
/// name.
#[derive(Clone, Copy, Debug)]
pub struct MethodName<'a> {
    pub rust_name: &'a str,
    pub original_name: &'a str,
}

/// One named value of an exported enum.
#[derive(Clone)]
pub struct EnumVariant {
    pub name: String,
    pub value: i64,
}

pub struct EnumVariantV {
    pub name: Seq<char>,
    pub value: i64,
}

impl View for EnumVariant {
    type V = EnumVariantV;

    open spec fn view(&self) -> EnumVariantV {
        EnumVariantV { name: self.name@, value: self.value }
    }
}

/// An enum exported by a class: a mapping of variant names to integer
/// values. Values need not be contiguous, and distinct variants may share a
/// value.
#[derive(Clone)]
pub struct Enum {
    pub name: String,
    pub values: Vec<EnumVariant>,
}

pub struct EnumV {
    pub name: Seq<char>,
    pub values: Seq<EnumVariantV>,
}

impl View for Enum {
    type V = EnumV;

    open spec fn view(&self) -> EnumV {
        EnumV { name: self.name@, values: self.values@.map_values(|v: EnumVariant| v@) }
    }
}

/// A named integer constant of a class.
#[derive(Clone)]
pub struct Constant {
    pub name: String,
    pub value: i64,
}

pub struct ConstantV {
    pub name: Seq<char>,
    pub value: i64,
}

impl View for Constant {
    type V = ConstantV;

    open spec fn view(&self) -> ConstantV {
        ConstantV { name: self.name@, value: self.value }
    }
}

/// One class of the engine's exported API.
#[derive(Clone)]
pub struct GodotClass {
    pub name: String,
    pub base_class: String,
    pub api_type: String,
    pub singleton: bool,
    pub is_reference: bool,
    pub instantiable: bool,
    pub properties: Vec<Property>,
    pub methods: Vec<GodotMethod>,
    pub enums: Vec<Enum>,
    pub constants: Vec<Constant>,
}

pub struct GodotClassV {
    pub name: Seq<char>,
    pub base_class: Seq<char>,
    pub api_type: Seq<char>,
    pub singleton: bool,
    pub is_reference: bool,
    pub instantiable: bool,
    pub properties: Seq<PropertyV>,
    pub methods: Seq<GodotMethodV>,
    pub enums: Seq<EnumV>,
    pub constants: Seq<ConstantV>,
}

impl View for GodotClass {
    type V = GodotClassV;

    open spec fn view(&self) -> GodotClassV {
        GodotClassV {
            name: self.name@,
            base_class: self.base_class@,
            api_type: self.api_type@,
            singleton: self.singleton,
            is_reference: self.is_reference,
            instantiable: self.instantiable,
            properties: self.properties@.map_values(|p: Property| p@),
            methods: self.methods@.map_values(|m: GodotMethod| m@),
            enums: self.enums@.map_values(|e: Enum| e@),
            constants: self.constants@.map_values(|c: Constant| c@),
        }
    }
}

/// Whether instances of the class are reference-counted: either the manifest
/// says so, or the class is the root reference-counted class itself.
pub open spec fn spec_is_refcounted(c: GodotClassV) -> bool {
    c.is_reference || c.name == "Reference"@
}

/// Whether an object pointer of this class may be treated as stable without
/// lifetime tracking by the binding layer.
pub open spec fn spec_is_pointer_safe(c: GodotClassV) -> bool {
    spec_is_refcounted(c) || c.singleton
}

/// The deny-list of singletons that are not safe to use from multiple
/// threads. Every other singleton is taken to be thread-safe.
pub open spec fn spec_singleton_thread_safe(name: Seq<char>) -> bool {
    !(name == "VisualServer"@ || name == "PhysicsServer"@ || name == "Physics3DServer"@ || name
        == "Physics2DServer"@)
}

/// Whether some property of the class names `name` as its getter.
pub open spec fn spec_is_getter(c: GodotClassV, name: Seq<char>) -> bool {
    exists|i: int| 0 <= i < c.properties.len() && c.properties[i].getter == name
}

impl GodotClass {
    /// The name of the base class, or `None` for a root class.
    pub fn base_class_name<'a>(&'a self) -> (r: Option<&'a str>)
        ensures
            match r {
                Some(s) => s@ == self.base_class@ && self.base_class@.len() > 0,
                None => self.base_class@.len() == 0,
            },
    {
        if self.base_class.as_str().is_empty() {
            None
        } else {
            Some(self.base_class.as_str())
        }
    }

    /// Whether this singleton may be used from multiple threads. Meaningful
    /// only for singletons; callers must check the singleton flag first.
    pub fn is_singleton_thread_safe(&self) -> (r: bool)
        requires
            self.singleton,
        ensures
            r == spec_singleton_thread_safe(self.name@),
    {
        let n = self.name.as_str();
        if str_eq(n, "VisualServer") || str_eq(n, "PhysicsServer") || str_eq(n, "Physics3DServer")
            || str_eq(n, "Physics2DServer") {
            false
        } else {
            true
        }
    }

    pub fn is_refcounted(&self) -> (r: bool)
        ensures
            r == spec_is_refcounted(self@),
    {
        self.is_reference || str_eq(self.name.as_str(), "Reference")
    }

    pub fn is_pointer_safe(&self) -> (r: bool)
        ensures
            r == spec_is_pointer_safe(self@),
    {
        self.is_refcounted() || self.singleton
    }

    /// Whether `name` is the getter of one of this class's properties.
    pub fn is_getter(&self, name: &str) -> (r: bool)
        ensures
            r == spec_is_getter(self@, name@),
    {
        let mut i: usize = 0;
        let n = self.properties.len();
        while i < n
            invariant
                n == self.properties.len(),
                0 <= i <= n,
                forall|j: int| 0 <= j < i ==> self@.properties[j].getter != name@,
        decreases n - i,
        {
            if str_eq(self.properties[i].getter.as_str(), name) {
                proof {
                    assert(self@.properties[i as int].getter == name@);
                }
                return true;
            }
            i = i + 1;
        }
        false
    }
}

impl GodotMethod {
    /// The pair of names the generated method carries. A method literally
    /// named `new` keeps its engine-side name but is generated under the
    /// alias `_new`, so that the generated constructor keeps the plain name.
    pub fn get_name<'a>(&'a self) -> (r: MethodName<'a>)
        ensures
            r.original_name@ == self.name@,
            self.name@ == "new"@ ==> r.rust_name@ == "_new"@,
            self.name@ != "new"@ ==> r.rust_name@ == self.name@,
    {
        if str_eq(self.name.as_str(), "new") {
            return MethodName { rust_name: "_new", original_name: "new" };
        }
        MethodName { rust_name: self.name.as_str(), original_name: self.name.as_str() }
    }

    /// The tag of this method's return type.
    pub fn get_return_type(&self) -> (t: Ty)
        requires
            wf_type_src(self.return_type@),
        ensures
            t@ == classify(self.return_type@),
    {
        Ty::from_src(self.return_type.as_str())
    }
}

impl GodotArgument {
    /// The tag of this argument's type.
    pub fn get_type(&self) -> (t: Ty)
        requires
            wf_type_src(self.ty@),
        ensures
            t@ == classify(self.ty@),
    {
        Ty::from_src(self.ty.as_str())
    }
}

} // verus!
