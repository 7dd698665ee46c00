//! The loaded schema: the class list with its lookup, the normalization
//! pass that strips the leading-underscore naming convention, and the
//! class-hierarchy queries with their laws.

use crate::enums::spec_strip_enum;
use crate::schema::Enum;
use crate::schema::EnumV;
use crate::schema::GodotArgument;
use crate::schema::GodotArgumentV;
use crate::schema::GodotClass;
use crate::schema::GodotClassV;
use crate::schema::GodotMethod;
use crate::schema::GodotMethodV;
use crate::strutil::str_eq;
use crate::strutil::substring;
use vstd::prelude::*;
use vstd::string::StrSliceExecFns;

verus! {

/// The whole loaded API: every class of the manifest, in manifest order,
/// and the set of class names that were loaded under a leading-underscore
/// name.
pub struct Api {
    pub classes: Vec<GodotClass>,
    pub api_underscore: Vec<String>,
}

pub struct ApiV {
    pub classes: Seq<GodotClassV>,
    pub api_underscore: Seq<Seq<char>>,
}

impl View for Api {
    type V = ApiV;

    open spec fn view(&self) -> ApiV {
        ApiV {
            classes: self.classes@.map_values(|c: GodotClass| c@),
            api_underscore: self.api_underscore@.map_values(|s: String| s@),
        }
    }
}

/// The first class carrying `name`, or `None`.
pub open spec fn spec_find(classes: Seq<GodotClassV>, name: Seq<char>) -> Option<GodotClassV>
    decreases classes.len(),
{
    if classes.len() == 0 {
        None
    } else if classes[0].name == name {
        Some(classes[0])
    } else {
        spec_find(classes.drop_first(), name)
    }
}

pub proof fn lemma_spec_find_skip(classes: Seq<GodotClassV>, name: Seq<char>, j: int)
    requires
        0 <= j <= classes.len(),
        forall|k: int| 0 <= k < j ==> classes[k].name != name,
    ensures
        spec_find(classes, name) == spec_find(classes.skip(j), name),
    decreases j,
{
    if j > 0 {
        lemma_spec_find_skip(classes.drop_first(), name, j - 1);
        assert(classes.drop_first().skip(j - 1) =~= classes.skip(j));
    } else {
        assert(classes.skip(0) =~= classes);
    }
}

/// `spec_find` succeeds exactly when some class carries the name, and what
/// it returns is a class of the list carrying that name.
pub proof fn lemma_spec_find_characterization(classes: Seq<GodotClassV>, name: Seq<char>)
    ensures
        (spec_find(classes, name) is Some) <==> (exists|j: int|
            0 <= j < classes.len() && classes[j].name == name),
        spec_find(classes, name) matches Some(p) ==> p.name == name && classes.contains(p),
    decreases classes.len(),
{
    if classes.len() == 0 {
    } else if classes[0].name == name {
    } else {
        lemma_spec_find_characterization(classes.drop_first(), name);
        if exists|j: int| 0 <= j < classes.len() && classes[j].name == name {
            let j = choose|j: int| 0 <= j < classes.len() && classes[j].name == name;
            assert(classes.drop_first()[j - 1].name == name);
        }
        if spec_find(classes.drop_first(), name) is Some {
            let p = spec_find(classes.drop_first(), name)->0;
            assert(classes.drop_first().contains(p));
            let j = choose|j: int|
                0 <= j < classes.drop_first().len() && classes.drop_first()[j] == p;
            assert(classes[j + 1] == p);
        }
    }
}

/// In a list with pairwise distinct names, looking a class's own name up
/// gives that class back.
pub proof fn lemma_find_in_unique(classes: Seq<GodotClassV>, i: int)
    requires
        unique_class_names(classes),
        0 <= i < classes.len(),
    ensures
        spec_find(classes, classes[i].name) == Some(classes[i]),
    decreases classes.len(),
{
    if i == 0 {
    } else {
        assert(classes[0].name != classes[i].name);
        assert(forall|a: int, b: int|
            0 <= a < b < classes.drop_first().len() ==> classes.drop_first()[a].name
                != classes.drop_first()[b].name) by {
            assert(forall|a: int, b: int|
                0 <= a < b < classes.drop_first().len() ==> classes.drop_first()[a]
                    == classes[a + 1] && classes.drop_first()[b] == classes[b + 1]);
        }
        lemma_find_in_unique(classes.drop_first(), i - 1);
    }
}

/// Whether `class` inherits (directly or transitively) from the class named
/// `anc`, following at most `fuel` steps of the base-class chain.
pub open spec fn spec_inherits_n(
    classes: Seq<GodotClassV>,
    class: GodotClassV,
    anc: Seq<char>,
    fuel: nat,
) -> bool
    decreases fuel,
{
    if fuel == 0 {
        false
    } else if class.base_class == anc {
        true
    } else {
        match spec_find(classes, class.base_class) {
            Some(parent) => spec_inherits_n(classes, parent, anc, (fuel - 1) as nat),
            None => false,
        }
    }
}

/// Whether `class` inherits from the class named `anc`. The fuel bound
/// covers every chain an acyclic schema can have: a chain that is longer
/// than the class list must revisit a class.
pub open spec fn spec_inherits(classes: Seq<GodotClassV>, class: GodotClassV, anc: Seq<char>) -> bool {
    spec_inherits_n(classes, class, anc, classes.len() + 1)
}

pub open spec fn unique_class_names(classes: Seq<GodotClassV>) -> bool {
    forall|i: int, j: int| 0 <= i < j < classes.len() ==> classes[i].name != classes[j].name
}

/// A rank assignment witnessing that the base-class relation has no cycle:
/// whenever a class's base resolves, the base's rank is strictly smaller.
pub open spec fn ranked_hierarchy(classes: Seq<GodotClassV>, rank: Map<Seq<char>, nat>) -> bool {
    forall|i: int|
        #![trigger classes[i]]
        0 <= i < classes.len() ==> match spec_find(classes, classes[i].base_class) {
            Some(parent) => rank[parent.name] < rank[classes[i].name],
            None => true,
        }
}

/// The schema's inheritance relation is acyclic: some rank assignment
/// witnesses it.
pub open spec fn acyclic_hierarchy(classes: Seq<GodotClassV>) -> bool {
    exists|rank: Map<Seq<char>, nat>| ranked_hierarchy(classes, rank)
}

proof fn lemma_inherits_rank(
    classes: Seq<GodotClassV>,
    rank: Map<Seq<char>, nat>,
    cur: GodotClassV,
    target: GodotClassV,
    fuel: nat,
)
    requires
        ranked_hierarchy(classes, rank),
        unique_class_names(classes),
        classes.contains(cur),
        classes.contains(target),
        spec_inherits_n(classes, cur, target.name, fuel),
    ensures
        rank[target.name] < rank[cur.name],
    decreases fuel,
{
    let i = choose|i: int| 0 <= i < classes.len() && classes[i] == cur;
    if cur.base_class == target.name {
        let t = choose|t: int| 0 <= t < classes.len() && classes[t] == target;
        lemma_find_in_unique(classes, t);
        assert(spec_find(classes, classes[i].base_class) == Some(target));
        assert(rank[target.name] < rank[classes[i].name]);
    } else {
        lemma_spec_find_characterization(classes, cur.base_class);
        let parent = spec_find(classes, cur.base_class)->0;
        assert(spec_find(classes, classes[i].base_class) == Some(parent));
        lemma_inherits_rank(classes, rank, parent, target, (fuel - 1) as nat);
    }
}

/// A class of an acyclic schema never inherits from itself. (A schema where
/// a class names itself as its own base is malformed: no rank assignment
/// admits it.)
pub proof fn lemma_inherits_irreflexive(classes: Seq<GodotClassV>, class: GodotClassV)
    requires
        acyclic_hierarchy(classes),
        unique_class_names(classes),
        classes.contains(class),
    ensures
        !spec_inherits(classes, class, class.name),
{
    if spec_inherits(classes, class, class.name) {
        let rank = choose|rank: Map<Seq<char>, nat>| ranked_hierarchy(classes, rank);
        lemma_inherits_rank(classes, rank, class, class, (classes.len() + 1) as nat);
        assert(false);
    }
}

/// Inheritance is transitive along the base-class chain: when `a`'s base
/// resolves to `b` and `b`'s base resolves to `c`, `a` inherits from `c`.
pub proof fn lemma_inherits_transitive_step(
    classes: Seq<GodotClassV>,
    a: GodotClassV,
    b: GodotClassV,
    c: GodotClassV,
)
    requires
        spec_find(classes, a.base_class) == Some(b),
        spec_find(classes, b.base_class) == Some(c),
    ensures
        spec_inherits(classes, a, c.name),
{
    lemma_spec_find_characterization(classes, a.base_class);
    lemma_spec_find_characterization(classes, b.base_class);
    assert(c.name == b.base_class);
    assert(classes.len() >= 1);
    if a.base_class == c.name {
    } else {
        assert(spec_inherits_n(classes, b, c.name, classes.len() as nat));
    }
}

impl Api {
    /// Looks a class up by exact name. Absence is not an error here; callers
    /// decide whether it is fatal.
    pub fn find_class<'a>(&'a self, name: &str) -> (r: Option<&'a GodotClass>)
        ensures
            match r {
                Some(c) => spec_find(self@.classes, name@) == Some(c@),
                None => spec_find(self@.classes, name@) is None,
            },
    {
        let n = self.classes.len();
        let mut i: usize = 0;
        while i < n
            invariant
                n == self.classes.len(),
                0 <= i <= n,
                forall|j: int| 0 <= j < i ==> self@.classes[j].name != name@,
            decreases n - i,
        {
            if str_eq(self.classes[i].name.as_str(), name) {
                proof {
                    lemma_spec_find_skip(self@.classes, name@, i as int);
                    assert(self@.classes.skip(i as int)[0] == self@.classes[i as int]);
                }
                return Some(&self.classes[i]);
            }
            i = i + 1;
        }
        proof {
            lemma_spec_find_skip(self@.classes, name@, n as int);
        }
        None
    }

    /// Whether `class` inherits from the class named `base_class_name`,
    /// following the base-class chain.
    pub fn class_inherits(&self, class: &GodotClass, base_class_name: &str) -> (r: bool)
        ensures
            r == spec_inherits(self@.classes, class@, base_class_name@),
    {
        if str_eq(class.base_class.as_str(), base_class_name) {
            return true;
        }
        match self.find_class(class.base_class.as_str()) {
            Some(parent) => self.inherits_rec(parent, base_class_name, self.classes.len()),
            None => false,
        }
    }

    fn inherits_rec(&self, class: &GodotClass, anc: &str, fuel: usize) -> (r: bool)
        ensures
            r == spec_inherits_n(self@.classes, class@, anc@, fuel as nat),
        decreases fuel,
    {
        if fuel == 0 {
            return false;
        }
        if str_eq(class.base_class.as_str(), anc) {
            return true;
        }
        match self.find_class(class.base_class.as_str()) {
            Some(parent) => self.inherits_rec(parent, anc, fuel - 1),
            None => false,
        }
    }
}

impl GodotClass {
    /// The resolved base class, or `None` for a root class. The manifest
    /// contract guarantees that every non-root class's base resolves; a
    /// schema that breaks it cannot be queried here.
    pub fn base_class<'a>(&self, api: &'a Api) -> (r: Option<&'a GodotClass>)
        requires
            self.base_class@.len() > 0 ==> spec_find(api@.classes, self.base_class@) is Some,
        ensures
            match r {
                Some(c) => self.base_class@.len() > 0 && spec_find(api@.classes, self.base_class@)
                    == Some(c@),
                None => self.base_class@.len() == 0,
            },
    {
        match self.base_class_name() {
            Some(name) => {
                match api.find_class(name) {
                    Some(c) => Some(c),
                    None => {
                        proof {
                            assert(false);
                        }
                        None
                    },
                }
            },
            None => None,
        }
    }
}

/// A name with its leading underscore removed, when it has one.
pub open spec fn strip_us(s: Seq<char>) -> Seq<char> {
    if s.len() > 0 && s[0] == '_' {
        s.drop_first()
    } else {
        s
    }
}

pub open spec fn starts_underscore(s: Seq<char>) -> bool {
    s.len() > 0 && s[0] == '_'
}

pub open spec fn spec_strip_arg(a: GodotArgumentV) -> GodotArgumentV {
    GodotArgumentV {
        name: a.name,
        ty: strip_us(a.ty),
        has_default_value: a.has_default_value,
        default_value: a.default_value,
    }
}

pub open spec fn spec_strip_method(m: GodotMethodV) -> GodotMethodV {
    GodotMethodV {
        name: m.name,
        return_type: strip_us(m.return_type),
        is_editor: m.is_editor,
        is_noscript: m.is_noscript,
        is_const: m.is_const,
        is_reverse: m.is_reverse,
        is_virtual: m.is_virtual,
        has_varargs: m.has_varargs,
        arguments: m.arguments.map_values(|a: GodotArgumentV| spec_strip_arg(a)),
    }
}

/// The underscore-stripping pass on one class: the class's own name and
/// every type reference in its methods lose a leading underscore; method
/// and argument names themselves are untouched.
pub open spec fn spec_strip_class(c: GodotClassV) -> GodotClassV {
    GodotClassV {
        name: strip_us(c.name),
        base_class: c.base_class,
        api_type: c.api_type,
        singleton: c.singleton,
        is_reference: c.is_reference,
        instantiable: c.instantiable,
        properties: c.properties,
        methods: c.methods.map_values(|m: GodotMethodV| spec_strip_method(m)),
        enums: c.enums,
        constants: c.constants,
    }
}

/// The stripped names of the classes that were loaded under a
/// leading-underscore name, in manifest order.
pub open spec fn underscored_names(classes: Seq<GodotClassV>) -> Seq<Seq<char>>
    decreases classes.len(),
{
    if classes.len() == 0 {
        Seq::empty()
    } else {
        let init = underscored_names(classes.drop_last());
        if starts_underscore(classes.last().name) {
            init.push(classes.last().name.drop_first())
        } else {
            init
        }
    }
}

pub proof fn lemma_underscored_names_contains(classes: Seq<GodotClassV>, i: int)
    requires
        0 <= i < classes.len(),
        starts_underscore(classes[i].name),
    ensures
        underscored_names(classes).contains(classes[i].name.drop_first()),
    decreases classes.len(),
{
    if i == classes.len() - 1 {
        let names = underscored_names(classes);
        assert(names.last() == classes[i].name.drop_first());
    } else {
        lemma_underscored_names_contains(classes.drop_last(), i);
        let sub = underscored_names(classes.drop_last());
        let j = choose|j: int| 0 <= j < sub.len() && sub[j] == classes[i].name.drop_first();
        assert(underscored_names(classes)[j] == sub[j]);
    }
}

fn strip_string(s: String) -> (r: String)
    ensures
        r@ == strip_us(s@),
{
    let st = s.as_str();
    let n = st.unicode_len();
    if n > 0 && st.get_char(0) == '_' {
        substring(st, 1, n)
    } else {
        s
    }
}

fn strip_arg(a: GodotArgument) -> (r: GodotArgument)
    ensures
        r@ == spec_strip_arg(a@),
{
    let GodotArgument { name, ty, has_default_value, default_value } = a;
    GodotArgument { name, ty: strip_string(ty), has_default_value, default_value }
}

fn strip_args(args: Vec<GodotArgument>) -> (r: Vec<GodotArgument>)
    ensures
        r@.map_values(|a: GodotArgument| a@) == args@.map_values(|a: GodotArgument| a@).map_values(
            |a: GodotArgumentV| spec_strip_arg(a),
        ),
{
    let ghost orig = args@;
    let mut rest = args;
    let mut out: Vec<GodotArgument> = Vec::new();
    while rest.len() > 0
        invariant
            out@.len() + rest@.len() == orig.len(),
            rest@ == orig.skip(out@.len() as int),
            forall|j: int| 0 <= j < out@.len() ==> out@[j]@ == spec_strip_arg(orig[j]@),
        decreases rest@.len(),
    {
        let ghost i = out@.len() as int;
        let a = rest.remove(0);
        proof {
            assert(a == orig[i]);
            assert(orig.skip(i).remove(0) =~= orig.skip(i + 1));
        }
        out.push(strip_arg(a));
    }
    proof {
        assert(out@.map_values(|a: GodotArgument| a@) =~= orig.map_values(|a: GodotArgument| a@)
            .map_values(|a: GodotArgumentV| spec_strip_arg(a)));
    }
    out
}

fn strip_method(m: GodotMethod) -> (r: GodotMethod)
    ensures
        r@ == spec_strip_method(m@),
{
    let GodotMethod {
        name,
        return_type,
        is_editor,
        is_noscript,
        is_const,
        is_reverse,
        is_virtual,
        has_varargs,
        arguments,
    } = m;
    let r = GodotMethod {
        name,
        return_type: strip_string(return_type),
        is_editor,
        is_noscript,
        is_const,
        is_reverse,
        is_virtual,
        has_varargs,
        arguments: strip_args(arguments),
    };
    r
}

fn strip_methods(methods: Vec<GodotMethod>) -> (r: Vec<GodotMethod>)
    ensures
        r@.map_values(|m: GodotMethod| m@) == methods@.map_values(|m: GodotMethod| m@).map_values(
            |m: GodotMethodV| spec_strip_method(m),
        ),
{
    let ghost orig = methods@;
    let mut rest = methods;
    let mut out: Vec<GodotMethod> = Vec::new();
    while rest.len() > 0
        invariant
            out@.len() + rest@.len() == orig.len(),
            rest@ == orig.skip(out@.len() as int),
            forall|j: int| 0 <= j < out@.len() ==> out@[j]@ == spec_strip_method(orig[j]@),
        decreases rest@.len(),
    {
        let ghost i = out@.len() as int;
        let m = rest.remove(0);
        proof {
            assert(m == orig[i]);
            assert(orig.skip(i).remove(0) =~= orig.skip(i + 1));
        }
        out.push(strip_method(m));
    }
    proof {
        assert(out@.map_values(|m: GodotMethod| m@) =~= orig.map_values(|m: GodotMethod| m@)
            .map_values(|m: GodotMethodV| spec_strip_method(m)));
    }
    out
}

fn strip_class(c: GodotClass) -> (r: GodotClass)
    ensures
        r@ == spec_strip_class(c@),
{
    let GodotClass {
        name,
        base_class,
        api_type,
        singleton,
        is_reference,
        instantiable,
        properties,
        methods,
        enums,
        constants,
    } = c;
    GodotClass {
        name: strip_string(name),
        base_class,
        api_type,
        singleton,
        is_reference,
        instantiable,
        properties,
        methods: strip_methods(methods),
        enums,
        constants,
    }
}

impl Api {
    /// The leading-underscore pass: strips the naming convention from every
    /// class name and every method type reference, and records which class
    /// names carried it.
    fn strip_leading_underscores(&mut self)
        ensures
            final(self)@.classes == old(self)@.classes.map_values(
                |c: GodotClassV| spec_strip_class(c),
            ),
            final(self)@.api_underscore == old(self)@.api_underscore + underscored_names(
                old(self)@.classes,
            ),
    {
        let n = self.classes.len();
        let mut i: usize = 0;
        while i < n
            invariant
                n == self.classes.len(),
                n == old(self)@.classes.len(),
                0 <= i <= n,
                forall|j: int| i <= j < n ==> self@.classes[j] == old(self)@.classes[j],
                forall|j: int|
                    0 <= j < i ==> self@.classes[j] == spec_strip_class(old(self)@.classes[j]),
                self@.api_underscore == old(self)@.api_underscore + underscored_names(
                    old(self)@.classes.take(i as int),
                ),
            decreases n - i,
        {
            let ghost pre = self@.classes;
            let c = self.classes.remove(i);
            let flag = starts_underscore_exec(&c);
            let c2 = strip_class(c);
            let nm = c2.name.clone();
            self.classes.insert(i, c2);
            proof {
                assert(self@.classes =~= pre.update(i as int, spec_strip_class(
                    old(self)@.classes[i as int],
                )));
                assert(old(self)@.classes.take(i + 1).drop_last() =~= old(self)@.classes.take(
                    i as int,
                ));
            }
            if flag {
                let ghost pre_us = self@.api_underscore;
                self.api_underscore.push(nm);
                proof {
                    assert(self@.api_underscore =~= pre_us.push(nm@));
                    let t = old(self)@.classes.take(i + 1);
                    assert(t.last() == old(self)@.classes[i as int]);
                    assert(underscored_names(t) == underscored_names(t.drop_last()).push(
                        t.last().name.drop_first(),
                    ));
                    assert(nm@ == old(self)@.classes[i as int].name.drop_first());
                    assert(pre_us == old(self)@.api_underscore + underscored_names(
                        old(self)@.classes.take(i as int),
                    ));
                    assert(pre_us.push(nm@) =~= old(self)@.api_underscore + underscored_names(
                        old(self)@.classes.take(i as int),
                    ).push(nm@));
                    assert(self@.api_underscore =~= old(self)@.api_underscore + underscored_names(
                        old(self)@.classes.take(i + 1),
                    ));
                }
            } else {
                proof {
                    assert(underscored_names(old(self)@.classes.take(i + 1)) == underscored_names(
                        old(self)@.classes.take(i as int),
                    ));
                }
            }
            i = i + 1;
        }
        proof {
            assert(old(self)@.classes.take(n as int) =~= old(self)@.classes);
            assert(self@.classes =~= old(self)@.classes.map_values(
                |c: GodotClassV| spec_strip_class(c),
            ));
        }
    }
}

fn starts_underscore_exec(c: &GodotClass) -> (r: bool)
    ensures
        r == starts_underscore(c.name@),
{
    let st = c.name.as_str();
    let n = st.unicode_len();
    n > 0 && st.get_char(0) == '_'
}

/// The enum-normalization pass on one class: every enum's common variant
/// prefix stripped.
pub open spec fn spec_strip_enums_class(c: GodotClassV) -> GodotClassV {
    GodotClassV {
        name: c.name,
        base_class: c.base_class,
        api_type: c.api_type,
        singleton: c.singleton,
        is_reference: c.is_reference,
        instantiable: c.instantiable,
        properties: c.properties,
        methods: c.methods,
        enums: c.enums.map_values(|e: EnumV| spec_strip_enum(e)),
        constants: c.constants,
    }
}

/// The whole load-time normalization: the leading-underscore pass over the
/// classes, then the prefix-stripping pass over every enum. Both run once;
/// nothing mutates the model afterwards.
pub open spec fn spec_normalize(classes: Seq<GodotClassV>) -> ApiV {
    ApiV {
        classes: classes.map_values(
            |c: GodotClassV| spec_strip_enums_class(spec_strip_class(c)),
        ),
        api_underscore: underscored_names(classes),
    }
}

fn strip_enum_list(enums: Vec<Enum>) -> (r: Vec<Enum>)
    ensures
        r@.map_values(|e: Enum| e@) == enums@.map_values(|e: Enum| e@).map_values(
            |e: EnumV| spec_strip_enum(e),
        ),
{
    let ghost orig = enums@;
    let mut rest = enums;
    let mut out: Vec<Enum> = Vec::new();
    while rest.len() > 0
        invariant
            out@.len() + rest@.len() == orig.len(),
            rest@ == orig.skip(out@.len() as int),
            forall|j: int| 0 <= j < out@.len() ==> out@[j]@ == spec_strip_enum(orig[j]@),
        decreases rest@.len(),
    {
        let ghost i = out@.len() as int;
        let mut e = rest.remove(0);
        proof {
            assert(e == orig[i]);
            assert(orig.skip(i).remove(0) =~= orig.skip(i + 1));
        }
        e.strip_common_prefix();
        out.push(e);
    }
    proof {
        assert(out@.map_values(|e: Enum| e@) =~= orig.map_values(|e: Enum| e@).map_values(
            |e: EnumV| spec_strip_enum(e),
        ));
    }
    out
}

fn strip_enums_class(c: GodotClass) -> (r: GodotClass)
    ensures
        r@ == spec_strip_enums_class(c@),
{
    let GodotClass {
        name,
        base_class,
        api_type,
        singleton,
        is_reference,
        instantiable,
        properties,
        methods,
        enums,
        constants,
    } = c;
    GodotClass {
        name,
        base_class,
        api_type,
        singleton,
        is_reference,
        instantiable,
        properties,
        methods,
        enums: strip_enum_list(enums),
        constants,
    }
}

impl Api {
    /// Builds the schema model from freshly parsed classes and runs the two
    /// normalization passes over it.
    pub fn from_classes(classes: Vec<GodotClass>) -> (api: Api)
        ensures
            api@ == spec_normalize(classes@.map_values(|c: GodotClass| c@)),
    {
        let ghost orig = classes@.map_values(|c: GodotClass| c@);
        let mut api = Api { classes, api_underscore: Vec::new() };
        proof {
            assert(api@.classes =~= orig);
            assert(api@.api_underscore =~= Seq::<Seq<char>>::empty());
        }
        api.strip_leading_underscores();
        proof {
            assert(api@.api_underscore =~= underscored_names(orig));
        }
        let ghost mid = api@.classes;
        let n = api.classes.len();
        let mut i: usize = 0;
        while i < n
            invariant
                n == api.classes.len(),
                n == mid.len(),
                0 <= i <= n,
                api@.api_underscore == underscored_names(orig),
                forall|j: int| i <= j < n ==> api@.classes[j] == mid[j],
                forall|j: int| 0 <= j < i ==> api@.classes[j] == spec_strip_enums_class(mid[j]),
            decreases n - i,
        {
            let ghost pre = api@.classes;
            let c = api.classes.remove(i);
            let c2 = strip_enums_class(c);
            api.classes.insert(i, c2);
            proof {
                assert(api@.classes =~= pre.update(
                    i as int,
                    spec_strip_enums_class(mid[i as int]),
                ));
            }
            i = i + 1;
        }
        proof {
            assert(api@.classes =~= spec_normalize(orig).classes);
            assert(api@ == spec_normalize(orig));
        }
        api
    }
}

/// Laws of the leading-underscore normalization: a class loaded under a
/// leading-underscore name is afterwards found under the stripped name, the
/// stripped name is recorded as was-private, and a lookup under the original
/// underscored name fails. (A name that begins with a doubled underscore
/// strips to a name that still carries the convention; the law leaves such
/// schemas out.)
pub proof fn lemma_underscore_normalization(classes: Seq<GodotClassV>, i: int)
    requires
        0 <= i < classes.len(),
        starts_underscore(classes[i].name),
        forall|j: int|
            0 <= j < classes.len() ==> !(starts_underscore(#[trigger] classes[j].name)
                && classes[j].name.len() >= 2 && classes[j].name[1] == '_'),
    ensures
        spec_find(spec_normalize(classes).classes, classes[i].name.drop_first()) is Some,
        spec_normalize(classes).api_underscore.contains(classes[i].name.drop_first()),
        spec_find(spec_normalize(classes).classes, classes[i].name) is None,
{
    let newc = spec_normalize(classes).classes;
    assert(forall|j: int|
        0 <= j < classes.len() ==> #[trigger] newc[j].name == strip_us(classes[j].name));
    assert(newc[i].name == classes[i].name.drop_first());
    lemma_spec_find_characterization(newc, classes[i].name.drop_first());
    lemma_underscored_names_contains(classes, i);
    assert forall|j: int| 0 <= j < newc.len() implies #[trigger] newc[j].name
        != classes[i].name by {
        if starts_underscore(classes[j].name) {
            assert(newc[j].name == classes[j].name.drop_first());
            if newc[j].name == classes[i].name {
                assert(classes[i].name.len() >= 1);
                assert(classes[j].name.len() >= 2);
                assert(classes[j].name[1] == classes[j].name.drop_first()[0]);
                assert(classes[j].name[1] == '_');
                assert(false);
            }
        } else {
            if newc[j].name == classes[i].name {
                assert(classes[j].name.len() >= 1 && classes[j].name[0] == '_');
                assert(false);
            }
        }
    }
    lemma_spec_find_characterization(newc, classes[i].name);
}

} // verus!
