//! Construction and classification of lattice types.
//!
//! Constructors canonicalize as they build: `new_atom` turns the atom
//! names `true` and `false` into boolean literal types, and `union_of`
//! flattens nested unions so that a union never holds another union as a
//! direct member (the well-formedness invariant [`ty_wf`]).

use vstd::prelude::*;

use crate::erl_type::ErlType;
use crate::erl_type::TypeModel;
use crate::erl_type::lemma_tys_view;
use crate::erl_type::tys_view;

verus! {

/// The characters of the atom name `true`.
pub open spec fn true_name() -> Seq<char> {
    seq!['t', 'r', 'u', 'e']
}

/// The characters of the atom name `false`.
pub open spec fn false_name() -> Seq<char> {
    seq!['f', 'a', 'l', 's', 'e']
}

/// The canonical model of an atom literal type: the names `true` and
/// `false` denote boolean literal types, every other name an atom literal.
pub open spec fn atom_model(name: Seq<char>) -> TypeModel {
    if name == true_name() {
        TypeModel::Boolean(Option::Some(true))
    } else if name == false_name() {
        TypeModel::Boolean(Option::Some(false))
    } else {
        TypeModel::Atom(Option::Some(name))
    }
}

/// The literals `"true"` and `"false"` spell [`true_name`] and
/// [`false_name`].
pub proof fn lemma_boolean_names()
    ensures
        "true"@ == true_name(),
        "false"@ == false_name(),
{
    reveal_strlit("true");
    reveal_strlit("false");
    assert("true"@ =~= true_name());
    assert("false"@ =~= false_name());
}

/// Splice the members of directly nested unions into the enclosing
/// sequence, left to right, one level deep.
pub open spec fn flatten_prefix(ms: Seq<TypeModel>, n: int) -> Seq<TypeModel>
    decreases n,
{
    if n <= 0 {
        Seq::empty()
    } else {
        flatten_prefix(ms, n - 1) + union_contrib(ms[n - 1])
    }
}

/// What one member contributes to a flattened union.
pub open spec fn union_contrib(m: TypeModel) -> Seq<TypeModel> {
    match m {
        TypeModel::Union(inner) => inner,
        _ => seq![m],
    }
}

/// The model `union_of` must produce: flatten, then collapse the empty
/// union to the bottom type and the singleton union to its member.
pub open spec fn union_model(ms: Seq<TypeModel>) -> TypeModel {
    let f = flatten_prefix(ms, ms.len() as int);
    if f.len() == 0 {
        TypeModel::NoneType
    } else if f.len() == 1 {
        f[0]
    } else {
        TypeModel::Union(f)
    }
}

/// Well-formedness of a type model: every union is flat (no union as a
/// direct member) and has at least two members.
pub open spec fn ty_wf(t: TypeModel) -> bool
    decreases t,
{
    match t {
        TypeModel::Union(ms) => ms.len() >= 2 && tys_wf(ms) && (forall|i: int|
            0 <= i < ms.len() ==> !(#[trigger] ms[i] is Union)),
        TypeModel::List(inner) => ty_wf(*inner),
        TypeModel::StronglyTypedList { elements, tail } => tys_wf(elements) && match tail {
            Option::Some(b) => ty_wf(*b),
            Option::None => true,
        },
        TypeModel::Tuple { elements } => tys_wf(elements),
        TypeModel::Fn { args, ret } => ty_wf(*ret) && match args {
            Option::Some(a) => tys_wf(a),
            Option::None => true,
        },
        _ => true,
    }
}

/// Well-formedness of every type in a sequence.
pub open spec fn tys_wf(ts: Seq<TypeModel>) -> bool
    decreases ts,
{
    if ts.len() == 0 {
        true
    } else {
        ty_wf(ts[0]) && tys_wf(ts.drop_first())
    }
}

/// `tys_wf` is the pointwise statement.
pub proof fn lemma_tys_wf(ts: Seq<TypeModel>)
    ensures
        tys_wf(ts) <==> (forall|i: int| 0 <= i < ts.len() ==> ty_wf(#[trigger] ts[i])),
    decreases ts.len(),
{
    if ts.len() > 0 {
        lemma_tys_wf(ts.drop_first());
        assert(forall|i: int| 1 <= i < ts.len() ==> ts.drop_first()[i - 1] == ts[i]);
    }
}

/// The flattening constructor upholds the lattice invariant: built from
/// well-formed members, the union it returns is well-formed, so a union
/// never holds another union as a direct member.
pub proof fn lemma_union_of_wf(ms: Seq<TypeModel>)
    requires
        forall|i: int| 0 <= i < ms.len() ==> ty_wf(#[trigger] ms[i]),
    ensures
        ty_wf(union_model(ms)),
{
    lemma_flatten_wf(ms, ms.len() as int);
    let f = flatten_prefix(ms, ms.len() as int);
    if f.len() >= 2 {
        lemma_tys_wf(f);
    }
}

/// Every type in a flattened prefix is well-formed and is not a union.
proof fn lemma_flatten_wf(ms: Seq<TypeModel>, k: int)
    requires
        k <= ms.len(),
        forall|i: int| 0 <= i < ms.len() ==> ty_wf(#[trigger] ms[i]),
    ensures
        forall|j: int|
            0 <= j < flatten_prefix(ms, k).len() ==> (ty_wf(#[trigger] flatten_prefix(ms, k)[j])
                && !(flatten_prefix(ms, k)[j] is Union)),
    decreases k,
{
    if k > 0 {
        lemma_flatten_wf(ms, k - 1);
        let prev = flatten_prefix(ms, k - 1);
        let piece = union_contrib(ms[k - 1]);
        assert(ty_wf(ms[k - 1]));
        match ms[k - 1] {
            TypeModel::Union(inner) => {
                lemma_tys_wf(inner);
                assert(piece == inner);
            },
            _ => {
                assert(piece =~= seq![ms[k - 1]]);
            },
        }
        assert forall|j: int|
            0 <= j < flatten_prefix(ms, k).len() implies (ty_wf(
            #[trigger] flatten_prefix(ms, k)[j],
        ) && !(flatten_prefix(ms, k)[j] is Union)) by {
            if j < prev.len() {
                assert(flatten_prefix(ms, k)[j] == prev[j]);
            } else {
                assert(flatten_prefix(ms, k)[j] == piece[j - prev.len()]);
            }
        }
    }
}

/// The union of two non-union members is the two-member union.
pub proof fn lemma_union_model_pair(a: TypeModel, b: TypeModel)
    requires
        !(a is Union),
        !(b is Union),
    ensures
        union_model(seq![a, b]) == TypeModel::Union(seq![a, b]),
{
    let s = seq![a, b];
    assert(flatten_prefix(s, 0) =~= Seq::<TypeModel>::empty());
    assert(flatten_prefix(s, 1) =~= seq![a]);
    assert(flatten_prefix(s, 2) =~= seq![a, b]);
}

/// Decide equality of a string slice's characters with another's.
pub fn str_eq(a: &str, b: &str) -> (r: bool)
    ensures
        r == (a@ == b@),
{
    let sa = a.to_owned();
    let sb = b.to_owned();
    sa == sb
}

impl ErlType {
    /// The top type.
    pub fn any() -> (r: ErlType)
        ensures
            r@ == TypeModel::Any,
    {
        ErlType::Any
    }

    /// The bottom type.
    pub fn none_type() -> (r: ErlType)
        ensures
            r@ == TypeModel::NoneType,
    {
        ErlType::NoneType
    }

    /// A fresh type variable with the given identifier.
    pub fn new_tvar(id: u64) -> (r: ErlType)
        ensures
            r@ == TypeModel::TVar(id as int),
    {
        ErlType::TVar(id)
    }

    /// The type of all integers.
    pub fn integer() -> (r: ErlType)
        ensures
            r@ == TypeModel::Integer(Option::None),
    {
        ErlType::Integer(Option::None)
    }

    /// The type of one exact integer.
    pub fn integer_literal(value: i64) -> (r: ErlType)
        ensures
            r@ == TypeModel::Integer(Option::Some(value as int)),
    {
        ErlType::Integer(Option::Some(value))
    }

    /// The type of all floats.
    pub fn float() -> (r: ErlType)
        ensures
            r@ == TypeModel::Float,
    {
        ErlType::Float
    }

    /// The type of all numbers.
    pub fn number() -> (r: ErlType)
        ensures
            r@ == TypeModel::Number,
    {
        ErlType::Number
    }

    /// The type of all atoms.
    pub fn atom() -> (r: ErlType)
        ensures
            r@ == TypeModel::Atom(Option::None),
    {
        ErlType::Atom(Option::None)
    }

    /// The type of all booleans.
    pub fn boolean() -> (r: ErlType)
        ensures
            r@ == TypeModel::Boolean(Option::None),
    {
        ErlType::Boolean(Option::None)
    }

    /// The type of the empty list.
    pub fn nil() -> (r: ErlType)
        ensures
            r@ == TypeModel::Nil,
    {
        ErlType::Nil
    }

    /// The type of all lists.
    pub fn any_list() -> (r: ErlType)
        ensures
            r@ == TypeModel::AnyList,
    {
        ErlType::AnyList
    }

    /// The type of strings.
    pub fn string_type() -> (r: ErlType)
        ensures
            r@ == TypeModel::StringType,
    {
        ErlType::StringType
    }

    /// The type of one exact atom, with boolean names canonicalized.
    pub fn new_atom(name: &str) -> (r: ErlType)
        ensures
            r@ == atom_model(name@),
    {
        proof {
            lemma_boolean_names();
        }
        if str_eq(name, "true") {
            ErlType::Boolean(Option::Some(true))
        } else if str_eq(name, "false") {
            ErlType::Boolean(Option::Some(false))
        } else {
            ErlType::Atom(Option::Some(name.to_owned()))
        }
    }

    /// A homogeneous list of the given element type.
    pub fn list_of(element: ErlType) -> (r: ErlType)
        ensures
            r@ == TypeModel::List(Box::new(element@)),
    {
        ErlType::List(Box::new(element))
    }

    /// A tuple of the given element types.
    pub fn new_tuple(elements: Vec<ErlType>) -> (r: ErlType)
        ensures
            r@ == (TypeModel::Tuple { elements: tys_view(elements@) }),
    {
        ErlType::Tuple { elements }
    }

    /// A positionally-typed list ending in nil.
    pub fn new_strongly_typed_list(elements: Vec<ErlType>) -> (r: ErlType)
        ensures
            r@ == (TypeModel::StronglyTypedList {
                elements: tys_view(elements@),
                tail: Option::None,
            }),
    {
        ErlType::StronglyTypedList { elements, tail: Option::None }
    }

    /// A function type that constrains only the return type; the declared
    /// arity is informational and the argument list is left unconstrained.
    pub fn new_fn_type_of_any_args(_arity: usize, ret: ErlType) -> (r: ErlType)
        ensures
            r@ == (TypeModel::Fn { args: Option::None, ret: Box::new(ret@) }),
    {
        ErlType::Fn { args: Option::None, ret: Box::new(ret) }
    }

    /// A function type with known argument types and return type.
    pub fn new_fn_type(args: Vec<ErlType>, ret: ErlType) -> (r: ErlType)
        ensures
            r@ == (TypeModel::Fn {
                args: Option::Some(tys_view(args@)),
                ret: Box::new(ret@),
            }),
    {
        ErlType::Fn { args: Option::Some(args), ret: Box::new(ret) }
    }

    /// Whether this is the float type.
    pub fn is_float(&self) -> (r: bool)
        ensures
            r == (self@ is Float),
    {
        matches!(self, ErlType::Float)
    }

    /// Whether this is an integer type, literal or not.
    pub fn is_integer(&self) -> (r: bool)
        ensures
            r == (self@ is Integer),
    {
        matches!(self, ErlType::Integer(_))
    }

    /// Whether this is an atom or boolean type, literal or not.
    pub fn is_atom(&self) -> (r: bool)
        ensures
            r == (self@ is Atom || self@ is Boolean),
    {
        matches!(self, ErlType::Atom(_) | ErlType::Boolean(_))
    }

    /// Whether this is the empty-list type.
    pub fn is_nil(&self) -> (r: bool)
        ensures
            r == (self@ is Nil),
    {
        matches!(self, ErlType::Nil)
    }

    /// Whether this is a list type of any shape, the empty list and
    /// strings included.
    pub fn is_list(&self) -> (r: bool)
        ensures
            r == (self@ is Nil || self@ is AnyList || self@ is List
                || self@ is StronglyTypedList || self@ is StringType),
    {
        matches!(
            self,
            ErlType::Nil | ErlType::AnyList | ErlType::List(_) | ErlType::StronglyTypedList { .. }
                | ErlType::StringType
        )
    }

    /// Whether this is exactly the literal atom type for `name`
    /// (boolean names canonicalize, so `is_lit_atom("true")` holds of the
    /// literal boolean `true`).
    pub fn is_lit_atom(&self, name: &str) -> (r: bool)
        ensures
            r == (self@ == atom_model(name@)),
    {
        proof {
            lemma_boolean_names();
        }
        match self {
            ErlType::Atom(Option::Some(a)) => {
                let boolean_name = str_eq(name, "true") || str_eq(name, "false");
                if boolean_name {
                    proof {
                        assert(atom_model(name@) is Boolean);
                        assert(self@ is Atom);
                    }
                    false
                } else {
                    let r = str_eq(a.as_str(), name);
                    proof {
                        assert(atom_model(name@) == TypeModel::Atom(Option::Some(name@)));
                    }
                    r
                }
            },
            ErlType::Boolean(Option::Some(b)) => {
                let r = if *b {
                    str_eq(name, "true")
                } else {
                    str_eq(name, "false")
                };
                r
            },
            _ => {
                proof {
                    assert(!(self@ == atom_model(name@)));
                }
                false
            },
        }
    }

    /// Build the union of the given member types, splicing members that
    /// are themselves unions (one level, enough for canonical members),
    /// collapsing the empty union to `NoneType` and a singleton union to
    /// its member. Canonical inputs give a canonical result.
    pub fn union_of(members: Vec<ErlType>) -> (r: ErlType)
        ensures
            r@ == union_model(tys_view(members@)),
    {
        proof {
            lemma_tys_view(members@);
        }
        let ghost vms: Seq<TypeModel> = tys_view(members@);
        let n = members.len();
        let mut flat: Vec<ErlType> = Vec::new();
        let mut i: usize = 0;
        while i < n
            invariant
                n == members.len(),
                0 <= i <= n,
                vms == tys_view(members@),
                vms.len() == members@.len(),
                forall|k: int| 0 <= k < members@.len() ==> vms[k] == members@[k]@,
                tys_view(flat@).len() == flat@.len(),
                forall|k: int| 0 <= k < flat@.len() ==> tys_view(flat@)[k] == flat@[k]@,
                tys_view(flat@) == flatten_prefix(vms, i as int),
            decreases n - i,
        {
            match &members[i] {
                ErlType::Union(inner) => {
                    proof {
                        lemma_tys_view(inner@);
                    }
                    let m = inner.len();
                    let mut j: usize = 0;
                    while j < m
                        invariant
                            m == inner.len(),
                            0 <= j <= m,
                            0 <= i < members@.len(),
                            members@[i as int] is Union,
                            inner == members@[i as int]->Union_0,
                            vms == tys_view(members@),
                            vms.len() == members@.len(),
                            forall|k: int| 0 <= k < members@.len() ==> vms[k] == members@[k]@,
                            tys_view(inner@).len() == inner@.len(),
                            forall|k: int|
                                0 <= k < inner@.len() ==> tys_view(inner@)[k] == inner@[k]@,
                            tys_view(flat@).len() == flat@.len(),
                            forall|k: int|
                                0 <= k < flat@.len() ==> tys_view(flat@)[k] == flat@[k]@,
                            tys_view(flat@) == flatten_prefix(vms, i as int) + tys_view(
                                inner@,
                            ).take(j as int),
                        decreases m - j,
                    {
                        let c = inner[j].clone();
                        let ghost oldf = flat@;
                        let ghost target = flatten_prefix(vms, i as int) + tys_view(inner@).take(
                            j as int + 1,
                        );
                        flat.push(c);
                        proof {
                            lemma_tys_view(flat@);
                            assert(flat@ == oldf.push(c));
                            assert forall|k: int|
                                0 <= k < flat@.len() implies tys_view(flat@)[k] == target[k] by {
                                if k < oldf.len() {
                                    assert(flat@[k] == oldf[k]);
                                    assert(tys_view(oldf)[k] == oldf[k]@);
                                } else {
                                    assert(flat@[k] == c);
                                    assert(tys_view(inner@)[j as int] == inner@[j as int]@);
                                }
                            }
                            assert(tys_view(flat@) =~= target);
                        }
                        j = j + 1;
                    }
                    proof {
                        assert(tys_view(inner@).take(m as int) =~= tys_view(inner@));
                        assert(vms[i as int] == TypeModel::Union(tys_view(inner@)));
                        assert(union_contrib(vms[i as int]) == tys_view(inner@));
                        assert(tys_view(flat@) =~= flatten_prefix(vms, i as int + 1));
                    }
                },
                _ => {
                    let c = members[i].clone();
                    let ghost oldf = flat@;
                    let ghost target = flatten_prefix(vms, i as int + 1);
                    flat.push(c);
                    proof {
                        lemma_tys_view(flat@);
                        assert(flat@ == oldf.push(c));
                        assert(!(vms[i as int] is Union));
                        assert(union_contrib(vms[i as int]) =~= seq![members@[i as int]@]);
                        assert(target =~= flatten_prefix(vms, i as int) + seq![
                            members@[i as int]@,
                        ]);
                        assert forall|k: int|
                            0 <= k < flat@.len() implies tys_view(flat@)[k] == target[k] by {
                            if k < oldf.len() {
                                assert(flat@[k] == oldf[k]);
                                assert(tys_view(oldf)[k] == oldf[k]@);
                            } else {
                                assert(flat@[k] == c);
                            }
                        }
                        assert(tys_view(flat@) =~= target);
                    }
                },
            }
            i = i + 1;
        }
        proof {
            assert(tys_view(flat@) == flatten_prefix(vms, vms.len() as int));
        }
        if flat.len() == 0 {
            ErlType::NoneType
        } else if flat.len() == 1 {
            let mut flat = flat;
            let single = flat.pop().unwrap();
            proof {
                assert(single@ == tys_view(flat@ + seq![single])[0]);
            }
            single
        } else {
            ErlType::Union(flat)
        }
    }
}

} // verus!


