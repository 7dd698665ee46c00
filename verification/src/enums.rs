//! The enum normalizer: repeatedly strips the longest common
//! underscore-terminated prefix from an enum's variant names, then keeps the
//! names legal identifiers by prefixing an underscore to any name that would
//! start with a digit.

use crate::casing::is_numeric_char;
use crate::casing::numeric_char;
use crate::schema::Enum;
use crate::schema::EnumV;
use crate::schema::EnumVariant;
use crate::schema::EnumVariantV;
use crate::strutil::find_first_underscore;
use crate::strutil::find_underscore;
use crate::strutil::starts_with_str;
use crate::strutil::substring;
use vstd::prelude::*;
use vstd::string::StrSliceExecFns;
use vstd::string::StringExecFns;

verus! {

/// The variant names of an enum, in order.
pub open spec fn enum_names(vs: Seq<EnumVariantV>) -> Seq<Seq<char>> {
    vs.map_values(|v: EnumVariantV| v.name)
}

/// The length of the candidate prefix of one stripping round: the first
/// name's first underscore-terminated segment, underscore included.
pub open spec fn round_len(names: Seq<Seq<char>>) -> int {
    find_underscore(names[0]) + 1
}

/// Whether one more stripping round applies: the first name has an
/// underscore-terminated segment of at least one character, and every name
/// both starts with that segment and keeps at least one character after it.
/// (The last condition stops a round that would strip a name to nothing.)
pub open spec fn can_strip_round(names: Seq<Seq<char>>) -> bool {
    &&& names.len() > 0
    &&& 0 < find_underscore(names[0]) < names[0].len()
    &&& forall|i: int|
        0 <= i < names.len() ==> #[trigger] names[i].len() > round_len(names)
            && names[i].subrange(0, round_len(names)) == names[0].subrange(0, round_len(names))
}

/// One stripping round: the candidate prefix removed from every name.
pub open spec fn strip_round(names: Seq<Seq<char>>) -> Seq<Seq<char>> {
    names.map_values(|n: Seq<char>| n.skip(round_len(names)))
}

/// All stripping rounds, applied until none applies.
pub open spec fn strip_rounds(names: Seq<Seq<char>>) -> Seq<Seq<char>>
    decreases (if can_strip_round(names) {
        names[0].len() + 1
    } else {
        0
    }),
    via strip_rounds_decreases
{
    if can_strip_round(names) {
        strip_rounds(strip_round(names))
    } else {
        names
    }
}

#[via_fn]
proof fn strip_rounds_decreases(names: Seq<Seq<char>>) {
    if can_strip_round(names) {
        let next = strip_round(names);
        assert(next[0] == names[0].skip(round_len(names)));
        assert(names[0].len() > round_len(names));
    }
}

/// Stripping rounds never add or drop a name.
pub proof fn lemma_strip_rounds_len(names: Seq<Seq<char>>)
    ensures
        strip_rounds(names).len() == names.len(),
    decreases (if can_strip_round(names) {
        names[0].len() + 1
    } else {
        0
    }),
{
    if can_strip_round(names) {
        let next = strip_round(names);
        assert(next[0] == names[0].skip(round_len(names)));
        assert(names[0].len() > round_len(names));
        lemma_strip_rounds_len(next);
    }
}

/// A stripped name that would start with a digit is prefixed with `_` so
/// that it stays a legal identifier.
pub open spec fn fix_name(s: Seq<char>) -> Seq<char> {
    if s.len() > 0 && numeric_char(s[0]) {
        seq!['_'] + s
    } else {
        s
    }
}

/// The whole normalization of one enum: an enum with at most one variant is
/// untouched; otherwise every shared underscore-terminated prefix segment is
/// stripped from the variant names and digit-leading results are patched.
/// Values are never changed.
pub open spec fn spec_strip_enum(e: EnumV) -> EnumV {
    if e.values.len() <= 1 {
        e
    } else {
        let stripped = strip_rounds(enum_names(e.values));
        EnumV {
            name: e.name,
            values: Seq::new(
                e.values.len(),
                |i: int| EnumVariantV { name: fix_name(stripped[i]), value: e.values[i].value },
            ),
        }
    }
}

impl Enum {
    /// Strips the variants' common underscore-delimited prefix segments.
    pub fn strip_common_prefix(&mut self)
        ensures
            final(self)@ == spec_strip_enum(old(self)@),
    {
        if self.values.len() <= 1 {
            return ;
        }
        let n = self.values.len();
        loop
            invariant
                n == self.values.len(),
                n == old(self)@.values.len(),
                2 <= n,
                self@.name == old(self)@.name,
                forall|i: int|
                    0 <= i < n ==> self@.values[i].value == old(self)@.values[i].value,
                strip_rounds(enum_names(self@.values)) == strip_rounds(
                    enum_names(old(self)@.values),
                ),
            ensures
                n == self.values.len(),
                n == old(self)@.values.len(),
                self@.name == old(self)@.name,
                forall|i: int|
                    0 <= i < n ==> self@.values[i].value == old(self)@.values[i].value,
                enum_names(self@.values) == strip_rounds(enum_names(old(self)@.values)),
            decreases self@.values[0].name.len(),
        {
            let ghost cur = self@.values;
            proof {
                assert(enum_names(cur)[0] == cur[0].name);
                assert(forall|x: int|
                    0 <= x < n ==> #[trigger] enum_names(cur)[x] == cur[x].name);
            }
            // Binding the length bounds the underscore index, so that the
            // prefix length below cannot overflow.
            let _name_len = self.values[0].name.as_str().unicode_len();
            let u = match find_first_underscore(self.values[0].name.as_str()) {
                Some(u) => u,
                None => {
                    proof {
                        assert(!can_strip_round(enum_names(cur)));
                    }
                    break ;
                },
            };
            if u == 0 {
                proof {
                    assert(!can_strip_round(enum_names(cur)));
                }
                break ;
            }
            let k = u + 1;
            let prefix = substring(self.values[0].name.as_str(), 0, k);
            let mut ok = true;
            let mut j: usize = 0;
            while j < n
                invariant
                    n == self.values.len(),
                    n == cur.len(),
                    0 <= j <= n,
                    self@.values == cur,
                    self@.name == old(self)@.name,
                    0 < k <= cur[0].name.len(),
                    prefix@.len() == k,
                    prefix@ == cur[0].name.subrange(0, k as int),
                    ok <==> (forall|jj: int|
                        0 <= jj < j ==> #[trigger] cur[jj].name.len() > k
                            && cur[jj].name.subrange(0, k as int) == prefix@),
                decreases n - j,
            {
                let nmlen = self.values[j].name.as_str().unicode_len();
                let here = nmlen > k && starts_with_str(self.values[j].name.as_str(), prefix.as_str());
                proof {
                    assert(self.values@[j as int]@ == cur[j as int]);
                    assert(here == (cur[j as int].name.len() > k && cur[j as int].name.subrange(
                        0,
                        k as int,
                    ) == prefix@));
                }
                let ghost ok0 = ok;
                ok = ok && here;
                proof {
                    if ok {
                        assert forall|jj: int| 0 <= jj < j + 1 implies #[trigger] cur[jj].name.len()
                            > k && cur[jj].name.subrange(0, k as int) == prefix@ by {
                            if jj < j {
                                assert(cur[jj].name.len() > k && cur[jj].name.subrange(0, k as int)
                                    == prefix@);
                            }
                        }
                    } else {
                        if !ok0 {
                            let w = choose|jj: int|
                                0 <= jj < j && !(cur[jj].name.len() > k && cur[jj].name.subrange(
                                    0,
                                    k as int,
                                ) == prefix@);
                            assert(!(cur[w].name.len() > k && cur[w].name.subrange(0, k as int)
                                == prefix@));
                        } else {
                            assert(!(cur[j as int].name.len() > k && cur[j as int].name.subrange(
                                0,
                                k as int,
                            ) == prefix@));
                        }
                    }
                }
                j = j + 1;
            }
            if !ok {
                proof {
                    let jj = choose|jj: int|
                        0 <= jj < n && !(cur[jj].name.len() > k && cur[jj].name.subrange(
                            0,
                            k as int,
                        ) == prefix@);
                    assert(enum_names(cur)[jj] == cur[jj].name);
                    assert(!can_strip_round(enum_names(cur)));
                }
                break ;
            }
            proof {
                assert(forall|jj: int|
                    0 <= jj < n ==> #[trigger] enum_names(cur)[jj].len() > k && enum_names(
                        cur,
                    )[jj].subrange(0, k as int) == enum_names(cur)[0].subrange(0, k as int));
                assert(can_strip_round(enum_names(cur)));
            }
            let ghost target = strip_round(enum_names(cur));
            let mut j: usize = 0;
            while j < n
                invariant
                    n == self.values.len(),
                    n == cur.len(),
                    0 <= j <= n,
                    self@.name == old(self)@.name,
                    can_strip_round(enum_names(cur)),
                    k == round_len(enum_names(cur)),
                    target == strip_round(enum_names(cur)),
                    forall|i: int| j <= i < n ==> self@.values[i] == cur[i],
                    forall|i: int|
                        0 <= i < j ==> self@.values[i].value == cur[i].value
                            && self@.values[i].name == cur[i].name.skip(k as int),
                decreases n - j,
            {
                let ghost pre = self@.values;
                let v = self.values.remove(j);
                let EnumVariant { name, value } = v;
                let nmlen = name.as_str().unicode_len();
                proof {
                    assert(enum_names(cur)[j as int] == cur[j as int].name);
                    assert(cur[j as int].name.len() > k);
                }
                let nn = substring(name.as_str(), k, nmlen);
                self.values.insert(j, EnumVariant { name: nn, value });
                proof {
                    assert(self@.values =~= pre.update(
                        j as int,
                        EnumVariantV { name: cur[j as int].name.skip(k as int), value: cur[j as int].value },
                    ));
                }
                j = j + 1;
            }
            proof {
                assert(enum_names(self@.values) =~= target);
                assert(strip_rounds(enum_names(cur)) == strip_rounds(target));
                assert(self@.values[0].name.len() < cur[0].name.len()) by {
                    assert(enum_names(cur)[0].len() > k);
                }
            }
        }
        let ghost base = self@.values;
        let mut i: usize = 0;
        while i < n
            invariant
                n == self.values.len(),
                n == base.len(),
                0 <= i <= n,
                self@.name == old(self)@.name,
                forall|ii: int| i <= ii < n ==> self@.values[ii] == base[ii],
                forall|ii: int|
                    0 <= ii < i ==> self@.values[ii].value == base[ii].value
                        && self@.values[ii].name == fix_name(base[ii].name),
            decreases n - i,
        {
            let ghost pre = self@.values;
            let v = self.values.remove(i);
            let EnumVariant { name, value } = v;
            let nmlen = name.as_str().unicode_len();
            let leading_digit = nmlen > 0 && is_numeric_char(name.as_str().get_char(0));
            let fixed: String = if leading_digit {
                proof {
                    reveal_strlit("_");
                }
                let r = "_".to_owned().concat(name.as_str());
                proof {
                    assert(r@ =~= fix_name(base[i as int].name));
                }
                r
            } else {
                name
            };
            self.values.insert(i, EnumVariant { name: fixed, value });
            proof {
                assert(self@.values =~= pre.update(
                    i as int,
                    EnumVariantV { name: fix_name(base[i as int].name), value: base[i as int].value },
                ));
            }
            i = i + 1;
        }
        proof {
            let result = spec_strip_enum(old(self)@);
            assert(forall|ii: int|
                0 <= ii < n ==> #[trigger] base[ii].name == strip_rounds(
                    enum_names(old(self)@.values),
                )[ii]) by {
                assert(forall|ii: int|
                    0 <= ii < n ==> #[trigger] enum_names(base)[ii] == base[ii].name);
            }
            assert(self@.values =~= result.values);
            assert(self@.name == result.name);
            assert(self@ == result);
        }
    }
}

/// The laws of the enum normalizer: an enum with a single variant is never
/// modified; an enum whose variants share no underscore-terminated prefix
/// keeps its names (unless a name already starts with a digit); values are
/// never changed; and a stripped name that starts with a digit is prefixed
/// with an underscore.
pub proof fn lemma_strip_enum_props(e: EnumV)
    ensures
        e.values.len() <= 1 ==> spec_strip_enum(e) == e,
        spec_strip_enum(e).name == e.name,
        spec_strip_enum(e).values.len() == e.values.len(),
        forall|i: int|
            0 <= i < e.values.len() ==> #[trigger] spec_strip_enum(e).values[i].value
                == e.values[i].value,
        (!can_strip_round(enum_names(e.values)) && forall|i: int|
            0 <= i < e.values.len() ==> !(#[trigger] e.values[i].name.len() > 0 && numeric_char(
                e.values[i].name[0],
            ))) ==> spec_strip_enum(e).values == e.values,
        e.values.len() > 1 ==> forall|i: int|
            0 <= i < e.values.len() && strip_rounds(enum_names(e.values))[i].len() > 0
                && numeric_char(strip_rounds(enum_names(e.values))[i][0])
                ==> #[trigger] spec_strip_enum(e).values[i].name == seq!['_'] + strip_rounds(
                enum_names(e.values),
            )[i],
{
    lemma_strip_rounds_len(enum_names(e.values));
    if e.values.len() > 1 {
        if !can_strip_round(enum_names(e.values)) && forall|i: int|
            0 <= i < e.values.len() ==> !(#[trigger] e.values[i].name.len() > 0 && numeric_char(
                e.values[i].name[0],
            )) {
            assert(strip_rounds(enum_names(e.values)) == enum_names(e.values));
            assert(spec_strip_enum(e).values =~= e.values) by {
                assert(forall|i: int|
                    0 <= i < e.values.len() ==> enum_names(e.values)[i] == #[trigger] e.values[i].name);
            }
        }
    }
}

} // verus!
