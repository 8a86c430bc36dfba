//! Structural subtyping over the type lattice.
//!
//! `subtype_model(a, b)` holds iff every value describable by `a` is also
//! describable by `b`. The rules, following the lattice design:
//! - `NoneType` is a subtype of everything; everything is a subtype of `Any`.
//! - A literal type is a subtype of its base type; `boolean` is a subtype
//!   of `atom`; `integer` and `float` are subtypes of `number`, but
//!   `number` is a subtype of neither.
//! - A union is a subtype of `T` iff every member is; `T` is a subtype of a
//!   union iff `T` is a subtype of at least one member.
//! - `list(A)` is a subtype of `list(B)` iff `A` is a subtype of `B`; the
//!   unqualified list type is a strict supertype of every specific list.
//! - Tuple and record subtyping is element-wise and arity-sensitive.
//! - Function types are compared covariantly in the return type and in the
//!   arguments; an absent argument list constrains nothing.

use vstd::prelude::*;

use crate::erl_type::ErlType;
use crate::erl_type::TypeModel;
use crate::erl_type::MapFieldModel;
use crate::erl_type::RecordFieldModel;
use crate::erl_type::lemma_map_fields_view;
use crate::erl_type::lemma_record_fields_view;
use crate::erl_type::lemma_tys_view;
use crate::erl_type::map_fields_view;
use crate::erl_type::record_fields_view;
use crate::erl_type::tys_view;

verus! {

/// The structural subtyping relation over type models.
pub open spec fn subtype_model(a: TypeModel, b: TypeModel) -> bool
    decreases a, b,
{
    match (a, b) {
        (TypeModel::NoneType, _) => true,
        (_, TypeModel::Any) => true,
        (TypeModel::Union(ms), bb) => all_subtype(ms, bb),
        (aa, TypeModel::Union(ms)) => any_subtype(aa, ms),
        (TypeModel::TVar(x), TypeModel::TVar(y)) => x == y,
        (TypeModel::Integer(x), TypeModel::Integer(y)) => match y {
            Option::None => true,
            Option::Some(_) => x == y,
        },
        (TypeModel::Integer(_), TypeModel::Number) => true,
        (TypeModel::Float, TypeModel::Float) => true,
        (TypeModel::Float, TypeModel::Number) => true,
        (TypeModel::Number, TypeModel::Number) => true,
        (TypeModel::Boolean(x), TypeModel::Boolean(y)) => match y {
            Option::None => true,
            Option::Some(_) => x == y,
        },
        (TypeModel::Boolean(_), TypeModel::Atom(y)) => match y {
            Option::None => true,
            Option::Some(_) => false,
        },
        (TypeModel::Atom(x), TypeModel::Atom(y)) => match y {
            Option::None => true,
            Option::Some(_) => x == y,
        },
        (TypeModel::Nil, TypeModel::Nil) => true,
        (TypeModel::Nil, TypeModel::AnyList) => true,
        (TypeModel::Nil, TypeModel::List(_)) => true,
        (TypeModel::Nil, TypeModel::StronglyTypedList { elements, tail }) => elements.len() == 0
            && tail is None,
        (TypeModel::AnyList, TypeModel::AnyList) => true,
        (TypeModel::List(_), TypeModel::AnyList) => true,
        (TypeModel::List(x), TypeModel::List(y)) => subtype_model(*x, *y),
        (TypeModel::StronglyTypedList { .. }, TypeModel::AnyList) => true,
        (TypeModel::StronglyTypedList { elements, tail }, TypeModel::List(y)) => all_subtype(
            elements,
            *y,
        ) && match tail {
            Option::None => true,
            Option::Some(t) => subtype_model(*t, TypeModel::List(y)),
        },
        (
            TypeModel::StronglyTypedList { elements: e1, tail: t1 },
            TypeModel::StronglyTypedList { elements: e2, tail: t2 },
        ) => pairwise_subtype(e1, e2) && match (t1, t2) {
            (Option::None, Option::None) => true,
            (Option::Some(x), Option::Some(y)) => subtype_model(*x, *y),
            _ => false,
        },
        (TypeModel::StringType, TypeModel::StringType) => true,
        (TypeModel::StringType, TypeModel::AnyList) => true,
        (TypeModel::Tuple { elements: e1 }, TypeModel::Tuple { elements: e2 }) => pairwise_subtype(
            e1,
            e2,
        ),
        (TypeModel::Record { tag: g1, fields: f1 }, TypeModel::Record { tag: g2, fields: f2 }) => g1
            == g2 && record_fields_subtype(f1, f2),
        (TypeModel::MapType { fields: f1 }, TypeModel::MapType { fields: f2 }) => map_fields_subtype(
            f1,
            f2,
        ),
        (TypeModel::Fn { args: a1, ret: r1 }, TypeModel::Fn { args: a2, ret: r2 }) => subtype_model(
            *r1,
            *r2,
        ) && match (a1, a2) {
            (_, Option::None) => true,
            (Option::None, Option::Some(_)) => true,
            (Option::Some(x), Option::Some(y)) => pairwise_subtype(x, y),
        },
        (TypeModel::Binary, TypeModel::Binary) => true,
        (TypeModel::Pid, TypeModel::Pid) => true,
        (TypeModel::Reference, TypeModel::Reference) => true,
        _ => false,
    }
}

/// Every member of `ms` is a subtype of `b`.
pub open spec fn all_subtype(ms: Seq<TypeModel>, b: TypeModel) -> bool
    decreases ms, b,
{
    if ms.len() == 0 {
        true
    } else {
        subtype_model(ms[0], b) && all_subtype(ms.drop_first(), b)
    }
}

/// `a` is a subtype of at least one member of `ms`.
pub open spec fn any_subtype(a: TypeModel, ms: Seq<TypeModel>) -> bool
    decreases a, ms,
{
    if ms.len() == 0 {
        false
    } else {
        subtype_model(a, ms[0]) || any_subtype(a, ms.drop_first())
    }
}

/// Same length and element-wise subtyping.
pub open spec fn pairwise_subtype(xs: Seq<TypeModel>, ys: Seq<TypeModel>) -> bool
    decreases xs, ys,
{
    if xs.len() != ys.len() {
        false
    } else if xs.len() == 0 {
        true
    } else {
        subtype_model(xs[0], ys[0]) && pairwise_subtype(xs.drop_first(), ys.drop_first())
    }
}

/// Same length, equal field names, and element-wise field subtyping.
pub open spec fn record_fields_subtype(xs: Seq<RecordFieldModel>, ys: Seq<RecordFieldModel>) -> bool
    decreases xs, ys,
{
    if xs.len() != ys.len() {
        false
    } else if xs.len() == 0 {
        true
    } else {
        xs[0].name == ys[0].name && subtype_model(xs[0].ty, ys[0].ty) && record_fields_subtype(
            xs.drop_first(),
            ys.drop_first(),
        )
    }
}

/// Same length, equal key types, and element-wise value subtyping.
pub open spec fn map_fields_subtype(xs: Seq<MapFieldModel>, ys: Seq<MapFieldModel>) -> bool
    decreases xs, ys,
{
    if xs.len() != ys.len() {
        false
    } else if xs.len() == 0 {
        true
    } else {
        xs[0].key == ys[0].key && subtype_model(xs[0].value, ys[0].value) && map_fields_subtype(
            xs.drop_first(),
            ys.drop_first(),
        )
    }
}

/// `all_subtype` is the pointwise universal statement.
pub proof fn lemma_all_subtype(ms: Seq<TypeModel>, b: TypeModel)
    ensures
        all_subtype(ms, b) <==> (forall|i: int|
            0 <= i < ms.len() ==> subtype_model(ms[i], b)),
    decreases ms.len(),
{
    if ms.len() > 0 {
        lemma_all_subtype(ms.drop_first(), b);
        assert(forall|i: int|
            1 <= i < ms.len() ==> ms.drop_first()[i - 1] == ms[i]);
    }
}

/// `any_subtype` is the pointwise existential statement.
pub proof fn lemma_any_subtype(a: TypeModel, ms: Seq<TypeModel>)
    ensures
        any_subtype(a, ms) <==> (exists|i: int|
            0 <= i < ms.len() && subtype_model(a, ms[i])),
    decreases ms.len(),
{
    if ms.len() > 0 {
        lemma_any_subtype(a, ms.drop_first());
        assert(forall|i: int|
            1 <= i < ms.len() ==> ms.drop_first()[i - 1] == ms[i]);
        if ms.len() > 0 && subtype_model(a, ms[0]) {
            assert(exists|i: int| 0 <= i < ms.len() && subtype_model(a, ms[i])) by {
                assert(subtype_model(a, ms[0]));
            }
        }
        if any_subtype(a, ms.drop_first()) {
            let j = choose|j: int|
                0 <= j < ms.drop_first().len() && subtype_model(a, ms.drop_first()[j]);
            assert(ms.drop_first()[j] == ms[j + 1]);
        }
        if exists|i: int| 0 <= i < ms.len() && subtype_model(a, ms[i]) {
            let i = choose|i: int| 0 <= i < ms.len() && subtype_model(a, ms[i]);
            if i > 0 {
                assert(ms.drop_first()[i - 1] == ms[i]);
            }
        }
    }
}

/// `pairwise_subtype` is the pointwise universal statement on equal lengths.
pub proof fn lemma_pairwise_subtype(xs: Seq<TypeModel>, ys: Seq<TypeModel>)
    ensures
        pairwise_subtype(xs, ys) <==> (xs.len() == ys.len() && forall|i: int|
            0 <= i < xs.len() ==> subtype_model(xs[i], ys[i])),
    decreases xs.len(),
{
    if xs.len() == ys.len() && xs.len() > 0 {
        lemma_pairwise_subtype(xs.drop_first(), ys.drop_first());
        assert(forall|i: int|
            1 <= i < xs.len() ==> xs.drop_first()[i - 1] == xs[i]);
        assert(forall|i: int|
            1 <= i < ys.len() ==> ys.drop_first()[i - 1] == ys[i]);
    }
}

/// `record_fields_subtype` is the pointwise statement on equal lengths.
pub proof fn lemma_record_fields_subtype(xs: Seq<RecordFieldModel>, ys: Seq<RecordFieldModel>)
    ensures
        record_fields_subtype(xs, ys) <==> (xs.len() == ys.len() && forall|i: int|
            0 <= i < xs.len() ==> (xs[i].name == ys[i].name && subtype_model(xs[i].ty, ys[i].ty))),
    decreases xs.len(),
{
    if xs.len() == ys.len() && xs.len() > 0 {
        lemma_record_fields_subtype(xs.drop_first(), ys.drop_first());
        assert(forall|i: int|
            1 <= i < xs.len() ==> xs.drop_first()[i - 1] == xs[i]);
        assert(forall|i: int|
            1 <= i < ys.len() ==> ys.drop_first()[i - 1] == ys[i]);
    }
}

/// `map_fields_subtype` is the pointwise statement on equal lengths.
pub proof fn lemma_map_fields_subtype(xs: Seq<MapFieldModel>, ys: Seq<MapFieldModel>)
    ensures
        map_fields_subtype(xs, ys) <==> (xs.len() == ys.len() && forall|i: int|
            0 <= i < xs.len() ==> (xs[i].key == ys[i].key && subtype_model(
                xs[i].value,
                ys[i].value,
            ))),
    decreases xs.len(),
{
    if xs.len() == ys.len() && xs.len() > 0 {
        lemma_map_fields_subtype(xs.drop_first(), ys.drop_first());
        assert(forall|i: int|
            1 <= i < xs.len() ==> xs.drop_first()[i - 1] == xs[i]);
        assert(forall|i: int|
            1 <= i < ys.len() ==> ys.drop_first()[i - 1] == ys[i]);
    }
}

impl ErlType {
    /// Decide the subtyping relation: the result is exactly
    /// `subtype_model(self@, other@)`.
    pub fn is_subtype_of(&self, other: &ErlType) -> (r: bool)
        ensures
            r == subtype_model(self@, other@),
        decreases *self, *other,
    {
        match (self, other) {
            (ErlType::NoneType, _) => true,
            (_, ErlType::Any) => true,
            (ErlType::Union(ms), _) => all_subtype_exec(ms, other),
            (_, ErlType::Union(ms)) => any_subtype_exec(self, ms),
            (ErlType::TVar(x), ErlType::TVar(y)) => x == y,
            (ErlType::Integer(x), ErlType::Integer(y)) => match y {
                Option::None => true,
                Option::Some(yv) => match x {
                    Option::Some(xv) => xv == yv,
                    Option::None => false,
                },
            },
            (ErlType::Integer(_), ErlType::Number) => true,
            (ErlType::Float, ErlType::Float) => true,
            (ErlType::Float, ErlType::Number) => true,
            (ErlType::Number, ErlType::Number) => true,
            (ErlType::Boolean(x), ErlType::Boolean(y)) => match y {
                Option::None => true,
                Option::Some(yv) => match x {
                    Option::Some(xv) => xv == yv,
                    Option::None => false,
                },
            },
            (ErlType::Boolean(_), ErlType::Atom(y)) => match y {
                Option::None => true,
                Option::Some(_) => false,
            },
            (ErlType::Atom(x), ErlType::Atom(y)) => match y {
                Option::None => true,
                Option::Some(yv) => match x {
                    Option::Some(xv) => *xv == *yv,
                    Option::None => false,
                },
            },
            (ErlType::Nil, ErlType::Nil) => true,
            (ErlType::Nil, ErlType::AnyList) => true,
            (ErlType::Nil, ErlType::List(_)) => true,
            (ErlType::Nil, ErlType::StronglyTypedList { elements, tail }) => {
                proof {
                    lemma_tys_view(elements@);
                }
                elements.len() == 0 && tail.is_none()
            },
            (ErlType::AnyList, ErlType::AnyList) => true,
            (ErlType::List(_), ErlType::AnyList) => true,
            (ErlType::List(x), ErlType::List(y)) => x.is_subtype_of(y),
            (ErlType::StronglyTypedList { .. }, ErlType::AnyList) => true,
            (ErlType::StronglyTypedList { elements, tail }, ErlType::List(y)) => {
                let head_ok = all_subtype_exec(elements, y);
                let tail_ok = match tail {
                    Option::None => true,
                    Option::Some(t) => t.is_subtype_of(other),
                };
                head_ok && tail_ok
            },
            (
                ErlType::StronglyTypedList { elements: e1, tail: t1 },
                ErlType::StronglyTypedList { elements: e2, tail: t2 },
            ) => {
                let heads_ok = pairwise_subtype_exec(e1, e2);
                let tails_ok = match (t1, t2) {
                    (Option::None, Option::None) => true,
                    (Option::Some(x), Option::Some(y)) => x.is_subtype_of(y),
                    _ => false,
                };
                heads_ok && tails_ok
            },
            (ErlType::StringType, ErlType::StringType) => true,
            (ErlType::StringType, ErlType::AnyList) => true,
            (ErlType::Tuple { elements: e1 }, ErlType::Tuple { elements: e2 }) => {
                pairwise_subtype_exec(e1, e2)
            },
            (ErlType::Record { tag: g1, fields: f1 }, ErlType::Record { tag: g2, fields: f2 }) => {
                let tags_ok = *g1 == *g2;
                tags_ok && record_fields_subtype_exec(f1, f2)
            },
            (ErlType::MapType { fields: f1 }, ErlType::MapType { fields: f2 }) => {
                map_fields_subtype_exec(f1, f2)
            },
            (ErlType::Fn { args: a1, ret: r1 }, ErlType::Fn { args: a2, ret: r2 }) => {
                let ret_ok = r1.is_subtype_of(r2);
                let args_ok = match (a1, a2) {
                    (_, Option::None) => true,
                    (Option::None, Option::Some(_)) => true,
                    (Option::Some(x), Option::Some(y)) => pairwise_subtype_exec(x, y),
                };
                ret_ok && args_ok
            },
            (ErlType::Binary, ErlType::Binary) => true,
            (ErlType::Pid, ErlType::Pid) => true,
            (ErlType::Reference, ErlType::Reference) => true,
            _ => false,
        }
    }
}

/// Decide `all_subtype` over the models of `ms` and `b`.
fn all_subtype_exec(ms: &Vec<ErlType>, b: &ErlType) -> (r: bool)
    ensures
        r == all_subtype(tys_view(ms@), b@),
    decreases ms@, *b,
{
    proof {
        lemma_tys_view(ms@);
        lemma_all_subtype(tys_view(ms@), b@);
    }
    let n = ms.len();
    let mut i: usize = 0;
    while i < n
        invariant
            n == ms.len(),
            0 <= i <= n,
            forall|j: int| 0 <= j < i ==> subtype_model(tys_view(ms@)[j], b@),
            tys_view(ms@).len() == ms@.len(),
            forall|j: int| 0 <= j < ms@.len() ==> tys_view(ms@)[j] == ms@[j]@,
        decreases n - i,
    {
        if !ms[i].is_subtype_of(b) {
            proof {
                assert(tys_view(ms@)[i as int] == ms@[i as int]@);
                assert(!subtype_model(tys_view(ms@)[i as int], b@));
                lemma_all_subtype(tys_view(ms@), b@);
            }
            return false;
        }
        i = i + 1;
    }
    proof {
        lemma_all_subtype(tys_view(ms@), b@);
    }
    true
}

/// Decide `any_subtype` over the model of `a` and the models of `ms`.
fn any_subtype_exec(a: &ErlType, ms: &Vec<ErlType>) -> (r: bool)
    ensures
        r == any_subtype(a@, tys_view(ms@)),
    decreases *a, ms@,
{
    proof {
        lemma_tys_view(ms@);
        lemma_any_subtype(a@, tys_view(ms@));
    }
    let n = ms.len();
    let mut i: usize = 0;
    while i < n
        invariant
            n == ms.len(),
            0 <= i <= n,
            forall|j: int| 0 <= j < i ==> !subtype_model(a@, tys_view(ms@)[j]),
            tys_view(ms@).len() == ms@.len(),
            forall|j: int| 0 <= j < ms@.len() ==> tys_view(ms@)[j] == ms@[j]@,
        decreases n - i,
    {
        if a.is_subtype_of(&ms[i]) {
            proof {
                assert(tys_view(ms@)[i as int] == ms@[i as int]@);
                assert(subtype_model(a@, tys_view(ms@)[i as int]));
                lemma_any_subtype(a@, tys_view(ms@));
            }
            return true;
        }
        i = i + 1;
    }
    proof {
        lemma_any_subtype(a@, tys_view(ms@));
    }
    false
}

/// Decide `pairwise_subtype` over the models of `xs` and `ys`.
pub(crate) fn pairwise_subtype_exec(xs: &Vec<ErlType>, ys: &Vec<ErlType>) -> (r: bool)
    ensures
        r == pairwise_subtype(tys_view(xs@), tys_view(ys@)),
    decreases xs@, ys@,
{
    proof {
        lemma_tys_view(xs@);
        lemma_tys_view(ys@);
        lemma_pairwise_subtype(tys_view(xs@), tys_view(ys@));
    }
    if xs.len() != ys.len() {
        return false;
    }
    let n = xs.len();
    let mut i: usize = 0;
    while i < n
        invariant
            n == xs.len(),
            xs.len() == ys.len(),
            0 <= i <= n,
            forall|j: int| 0 <= j < i ==> subtype_model(tys_view(xs@)[j], tys_view(ys@)[j]),
            tys_view(xs@).len() == xs@.len(),
            forall|j: int| 0 <= j < xs@.len() ==> tys_view(xs@)[j] == xs@[j]@,
            tys_view(ys@).len() == ys@.len(),
            forall|j: int| 0 <= j < ys@.len() ==> tys_view(ys@)[j] == ys@[j]@,
        decreases n - i,
    {
        if !xs[i].is_subtype_of(&ys[i]) {
            proof {
                assert(tys_view(xs@)[i as int] == xs@[i as int]@);
                assert(tys_view(ys@)[i as int] == ys@[i as int]@);
                assert(!subtype_model(tys_view(xs@)[i as int], tys_view(ys@)[i as int]));
                lemma_pairwise_subtype(tys_view(xs@), tys_view(ys@));
            }
            return false;
        }
        i = i + 1;
    }
    proof {
        lemma_pairwise_subtype(tys_view(xs@), tys_view(ys@));
    }
    true
}

/// Decide `record_fields_subtype` over the models of `xs` and `ys`.
fn record_fields_subtype_exec(
    xs: &Vec<crate::erl_type::RecordFieldType>,
    ys: &Vec<crate::erl_type::RecordFieldType>,
) -> (r: bool)
    ensures
        r == record_fields_subtype(record_fields_view(xs@), record_fields_view(ys@)),
    decreases xs@, ys@,
{
    proof {
        lemma_record_fields_view(xs@);
        lemma_record_fields_view(ys@);
        lemma_record_fields_subtype(record_fields_view(xs@), record_fields_view(ys@));
    }
    if xs.len() != ys.len() {
        return false;
    }
    let n = xs.len();
    let mut i: usize = 0;
    while i < n
        invariant
            n == xs.len(),
            xs.len() == ys.len(),
            0 <= i <= n,
            forall|j: int|
                0 <= j < i ==> (record_fields_view(xs@)[j].name == record_fields_view(ys@)[j].name
                    && subtype_model(
                    record_fields_view(xs@)[j].ty,
                    record_fields_view(ys@)[j].ty,
                )),
            record_fields_view(xs@).len() == xs@.len(),
            forall|j: int| 0 <= j < xs@.len() ==> record_fields_view(xs@)[j] == xs@[j]@,
            record_fields_view(ys@).len() == ys@.len(),
            forall|j: int| 0 <= j < ys@.len() ==> record_fields_view(ys@)[j] == ys@[j]@,
        decreases n - i,
    {
        let names_eq = xs[i].name == ys[i].name;
        if !(names_eq && xs[i].ty.is_subtype_of(&ys[i].ty)) {
            proof {
                assert(record_fields_view(xs@)[i as int] == xs@[i as int]@);
                assert(record_fields_view(ys@)[i as int] == ys@[i as int]@);
                lemma_record_fields_subtype(record_fields_view(xs@), record_fields_view(ys@));
            }
            return false;
        }
        i = i + 1;
    }
    proof {
        lemma_record_fields_subtype(record_fields_view(xs@), record_fields_view(ys@));
    }
    true
}

/// Decide `map_fields_subtype` over the models of `xs` and `ys`.
fn map_fields_subtype_exec(
    xs: &Vec<crate::erl_type::MapFieldType>,
    ys: &Vec<crate::erl_type::MapFieldType>,
) -> (r: bool)
    ensures
        r == map_fields_subtype(map_fields_view(xs@), map_fields_view(ys@)),
    decreases xs@, ys@,
{
    proof {
        lemma_map_fields_view(xs@);
        lemma_map_fields_view(ys@);
        lemma_map_fields_subtype(map_fields_view(xs@), map_fields_view(ys@));
    }
    if xs.len() != ys.len() {
        return false;
    }
    let n = xs.len();
    let mut i: usize = 0;
    while i < n
        invariant
            n == xs.len(),
            xs.len() == ys.len(),
            0 <= i <= n,
            forall|j: int|
                0 <= j < i ==> (map_fields_view(xs@)[j].key == map_fields_view(ys@)[j].key
                    && subtype_model(map_fields_view(xs@)[j].value, map_fields_view(ys@)[j].value)),
            map_fields_view(xs@).len() == xs@.len(),
            forall|j: int| 0 <= j < xs@.len() ==> map_fields_view(xs@)[j] == xs@[j]@,
            map_fields_view(ys@).len() == ys@.len(),
            forall|j: int| 0 <= j < ys@.len() ==> map_fields_view(ys@)[j] == ys@[j]@,
        decreases n - i,
    {
        let keys_eq = xs[i].key.ty_eq(&ys[i].key);
        if !(keys_eq && xs[i].value.is_subtype_of(&ys[i].value)) {
            proof {
                assert(map_fields_view(xs@)[i as int] == xs@[i as int]@);
                assert(map_fields_view(ys@)[i as int] == ys@[i as int]@);
                lemma_map_fields_subtype(map_fields_view(xs@), map_fields_view(ys@));
            }
            return false;
        }
        i = i + 1;
    }
    proof {
        lemma_map_fields_subtype(map_fields_view(xs@), map_fields_view(ys@));
    }
    true
}

} // verus!
