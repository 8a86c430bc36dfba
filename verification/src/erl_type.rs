//! The type lattice: every static type the inference engine can describe,
//! together with the structural subtyping relation over it.
//!
//! The lattice has `NoneType` at the bottom and `Any` at the top. Primitive
//! types may carry an optional literal value (`Integer(Some(3))` is the type
//! of the literal `3`). Unions are kept flat: a well-formed union never holds
//! another union as a direct member; [`ErlType::union_of`] flattens on
//! construction.
//!
//! Every executable type has a ghost model ([`TypeModel`]) reached through
//! `@`; all contracts in this crate speak of those models.

use vstd::prelude::*;

verus! {

/// A static type in the lattice.
///
/// Literal atoms `true` and `false` are canonicalized to
/// `Boolean(Some(..))` by [`ErlType::new_atom`], so a canonical
/// `Atom(Some(name))` never carries the name of a boolean literal.
#[derive(Debug)]
pub enum ErlType {
    /// Bottom of the lattice: no value has this type.
    NoneType,
    /// Top of the lattice: every value has this type.
    Any,
    /// A unification type variable, opaque to subtyping.
    TVar(u64),
    /// Any integer, or one exact integer value.
    Integer(Option<i64>),
    /// Any floating-point number.
    Float,
    /// Any number: supertype of both `Integer` and `Float`.
    Number,
    /// Any atom, or one exact atom value.
    Atom(Option<String>),
    /// Any boolean, or one exact boolean value.
    Boolean(Option<bool>),
    /// The empty list.
    Nil,
    /// Any list, regardless of its element type.
    AnyList,
    /// A homogeneous list with the given element type.
    List(Box<ErlType>),
    /// A list whose element types are known positionally; `tail` is the
    /// type of the improper tail, `None` meaning the list ends in nil.
    StronglyTypedList { elements: Vec<ErlType>, tail: Option<Box<ErlType>> },
    /// A string: a list of character codes.
    StringType,
    /// A tuple with the given element types in order.
    Tuple { elements: Vec<ErlType> },
    /// A flat union of member types; canonical members are never unions.
    Union(Vec<ErlType>),
    /// A record with a tag and named, typed fields in order.
    Record { tag: String, fields: Vec<RecordFieldType> },
    /// A map from key types to value types.
    MapType { fields: Vec<MapFieldType> },
    /// A function type. `args` of `None` places no constraint on the
    /// arguments (used when only the return type is being checked).
    Fn { args: Option<Vec<ErlType>>, ret: Box<ErlType> },
    /// A binary or bitstring.
    Binary,
    /// A process identifier.
    Pid,
    /// A unique reference value.
    Reference,
}

/// One named field of a record type.
#[derive(Debug)]
pub struct RecordFieldType {
    /// Field name.
    pub name: String,
    /// Field type.
    pub ty: ErlType,
}

/// One key/value pair of a map type.
#[derive(Debug)]
pub struct MapFieldType {
    /// Key type.
    pub key: ErlType,
    /// Value type.
    pub value: ErlType,
}

/// Ghost model of [`ErlType`]: the same shape over `Seq` and `int`.
#[verifier::ext_equal]
pub enum TypeModel {
    /// Bottom of the lattice.
    NoneType,
    /// Top of the lattice.
    Any,
    /// A type variable.
    TVar(int),
    /// Any integer, or one exact integer value.
    Integer(Option<int>),
    /// Any floating-point number.
    Float,
    /// Any number.
    Number,
    /// Any atom, or one exact atom value.
    Atom(Option<Seq<char>>),
    /// Any boolean, or one exact boolean value.
    Boolean(Option<bool>),
    /// The empty list.
    Nil,
    /// Any list.
    AnyList,
    /// A homogeneous list.
    List(Box<TypeModel>),
    /// A positionally-typed list with an optional improper tail type.
    StronglyTypedList { elements: Seq<TypeModel>, tail: Option<Box<TypeModel>> },
    /// A string.
    StringType,
    /// A tuple.
    Tuple { elements: Seq<TypeModel> },
    /// A flat union.
    Union(Seq<TypeModel>),
    /// A record.
    Record { tag: Seq<char>, fields: Seq<RecordFieldModel> },
    /// A map.
    MapType { fields: Seq<MapFieldModel> },
    /// A function type.
    Fn { args: Option<Seq<TypeModel>>, ret: Box<TypeModel> },
    /// A binary or bitstring.
    Binary,
    /// A process identifier.
    Pid,
    /// A unique reference value.
    Reference,
}

/// Ghost model of a record field type.
#[verifier::ext_equal]
pub struct RecordFieldModel {
    /// Field name.
    pub name: Seq<char>,
    /// Field type.
    pub ty: TypeModel,
}

/// Ghost model of a map field type.
#[verifier::ext_equal]
pub struct MapFieldModel {
    /// Key type.
    pub key: TypeModel,
    /// Value type.
    pub value: TypeModel,
}

/// Model of one executable type.
pub open spec fn ty_view(t: ErlType) -> TypeModel
    decreases t,
{
    match t {
        ErlType::NoneType => TypeModel::NoneType,
        ErlType::Any => TypeModel::Any,
        ErlType::TVar(n) => TypeModel::TVar(n as int),
        ErlType::Integer(v) => TypeModel::Integer(match v {
            Option::Some(i) => Option::Some(i as int),
            Option::None => Option::None,
        }),
        ErlType::Float => TypeModel::Float,
        ErlType::Number => TypeModel::Number,
        ErlType::Atom(v) => TypeModel::Atom(match v {
            Option::Some(s) => Option::Some(s@),
            Option::None => Option::None,
        }),
        ErlType::Boolean(v) => TypeModel::Boolean(v),
        ErlType::Nil => TypeModel::Nil,
        ErlType::AnyList => TypeModel::AnyList,
        ErlType::List(inner) => TypeModel::List(Box::new(ty_view(*inner))),
        ErlType::StronglyTypedList { elements, tail } => TypeModel::StronglyTypedList {
            elements: tys_view(elements@),
            tail: match tail {
                Option::Some(b) => Option::Some(Box::new(ty_view(*b))),
                Option::None => Option::None,
            },
        },
        ErlType::StringType => TypeModel::StringType,
        ErlType::Tuple { elements } => TypeModel::Tuple { elements: tys_view(elements@) },
        ErlType::Union(members) => TypeModel::Union(tys_view(members@)),
        ErlType::Record { tag, fields } => TypeModel::Record {
            tag: tag@,
            fields: record_fields_view(fields@),
        },
        ErlType::MapType { fields } => TypeModel::MapType { fields: map_fields_view(fields@) },
        ErlType::Fn { args, ret } => TypeModel::Fn {
            args: match args {
                Option::Some(a) => Option::Some(tys_view(a@)),
                Option::None => Option::None,
            },
            ret: Box::new(ty_view(*ret)),
        },
        ErlType::Binary => TypeModel::Binary,
        ErlType::Pid => TypeModel::Pid,
        ErlType::Reference => TypeModel::Reference,
    }
}

/// Models of a sequence of executable types, in order.
pub open spec fn tys_view(ts: Seq<ErlType>) -> Seq<TypeModel>
    decreases ts,
{
    if ts.len() == 0 {
        Seq::empty()
    } else {
        seq![ty_view(ts[0])] + tys_view(ts.drop_first())
    }
}

/// Models of record fields, in order.
pub open spec fn record_fields_view(fs: Seq<RecordFieldType>) -> Seq<RecordFieldModel>
    decreases fs,
{
    if fs.len() == 0 {
        Seq::empty()
    } else {
        seq![RecordFieldModel { name: fs[0].name@, ty: ty_view(fs[0].ty) }]
            + record_fields_view(fs.drop_first())
    }
}

/// Models of map fields, in order.
pub open spec fn map_fields_view(fs: Seq<MapFieldType>) -> Seq<MapFieldModel>
    decreases fs,
{
    if fs.len() == 0 {
        Seq::empty()
    } else {
        seq![MapFieldModel { key: ty_view(fs[0].key), value: ty_view(fs[0].value) }]
            + map_fields_view(fs.drop_first())
    }
}

impl View for ErlType {
    type V = TypeModel;

    open spec fn view(&self) -> TypeModel {
        ty_view(*self)
    }
}

impl View for RecordFieldType {
    type V = RecordFieldModel;

    open spec fn view(&self) -> RecordFieldModel {
        RecordFieldModel { name: self.name@, ty: ty_view(self.ty) }
    }
}

impl View for MapFieldType {
    type V = MapFieldModel;

    open spec fn view(&self) -> MapFieldModel {
        MapFieldModel { key: ty_view(self.key), value: ty_view(self.value) }
    }
}

impl ErlType {
    /// Decide structural equality of the two types' models.
    pub fn ty_eq(&self, other: &ErlType) -> (r: bool)
        ensures
            r == (self@ == other@),
        decreases *self, *other,
    {
        match (self, other) {
            (ErlType::NoneType, ErlType::NoneType) => true,
            (ErlType::Any, ErlType::Any) => true,
            (ErlType::TVar(x), ErlType::TVar(y)) => x == y,
            (ErlType::Integer(x), ErlType::Integer(y)) => match (x, y) {
                (Option::None, Option::None) => true,
                (Option::Some(a), Option::Some(b)) => a == b,
                _ => false,
            },
            (ErlType::Float, ErlType::Float) => true,
            (ErlType::Number, ErlType::Number) => true,
            (ErlType::Atom(x), ErlType::Atom(y)) => match (x, y) {
                (Option::None, Option::None) => true,
                (Option::Some(a), Option::Some(b)) => *a == *b,
                _ => false,
            },
            (ErlType::Boolean(x), ErlType::Boolean(y)) => match (x, y) {
                (Option::None, Option::None) => true,
                (Option::Some(a), Option::Some(b)) => a == b,
                _ => false,
            },
            (ErlType::Nil, ErlType::Nil) => true,
            (ErlType::AnyList, ErlType::AnyList) => true,
            (ErlType::List(x), ErlType::List(y)) => x.ty_eq(y),
            (
                ErlType::StronglyTypedList { elements: e1, tail: t1 },
                ErlType::StronglyTypedList { elements: e2, tail: t2 },
            ) => {
                let heads_eq = tys_eq_exec(e1, e2);
                let tails_eq = match (t1, t2) {
                    (Option::None, Option::None) => true,
                    (Option::Some(a), Option::Some(b)) => a.ty_eq(b),
                    _ => false,
                };
                heads_eq && tails_eq
            },
            (ErlType::StringType, ErlType::StringType) => true,
            (ErlType::Tuple { elements: e1 }, ErlType::Tuple { elements: e2 }) => tys_eq_exec(
                e1,
                e2,
            ),
            (ErlType::Union(m1), ErlType::Union(m2)) => tys_eq_exec(m1, m2),
            (ErlType::Record { tag: g1, fields: f1 }, ErlType::Record { tag: g2, fields: f2 }) => {
                let tags_eq = *g1 == *g2;
                tags_eq && record_fields_eq_exec(f1, f2)
            },
            (ErlType::MapType { fields: f1 }, ErlType::MapType { fields: f2 }) => {
                map_fields_eq_exec(f1, f2)
            },
            (ErlType::Fn { args: a1, ret: r1 }, ErlType::Fn { args: a2, ret: r2 }) => {
                let args_eq = match (a1, a2) {
                    (Option::None, Option::None) => true,
                    (Option::Some(x), Option::Some(y)) => tys_eq_exec(x, y),
                    _ => false,
                };
                args_eq && r1.ty_eq(r2)
            },
            (ErlType::Binary, ErlType::Binary) => true,
            (ErlType::Pid, ErlType::Pid) => true,
            (ErlType::Reference, ErlType::Reference) => true,
            _ => false,
        }
    }
}

impl Clone for ErlType {
    /// Deep copy; the copy has the same model as the original.
    fn clone(&self) -> (r: Self)
        ensures
            r@ == self@,
        decreases *self,
    {
        match self {
            ErlType::NoneType => ErlType::NoneType,
            ErlType::Any => ErlType::Any,
            ErlType::TVar(n) => ErlType::TVar(*n),
            ErlType::Integer(v) => ErlType::Integer(match v {
                Option::Some(i) => Option::Some(*i),
                Option::None => Option::None,
            }),
            ErlType::Float => ErlType::Float,
            ErlType::Number => ErlType::Number,
            ErlType::Atom(v) => ErlType::Atom(match v {
                Option::Some(s) => Option::Some(s.clone()),
                Option::None => Option::None,
            }),
            ErlType::Boolean(v) => ErlType::Boolean(*v),
            ErlType::Nil => ErlType::Nil,
            ErlType::AnyList => ErlType::AnyList,
            ErlType::List(inner) => ErlType::List(Box::new((**inner).clone())),
            ErlType::StronglyTypedList { elements, tail } => ErlType::StronglyTypedList {
                elements: clone_tys(elements),
                tail: match tail {
                    Option::Some(b) => Option::Some(Box::new((**b).clone())),
                    Option::None => Option::None,
                },
            },
            ErlType::StringType => ErlType::StringType,
            ErlType::Tuple { elements } => ErlType::Tuple { elements: clone_tys(elements) },
            ErlType::Union(members) => ErlType::Union(clone_tys(members)),
            ErlType::Record { tag, fields } => ErlType::Record {
                tag: tag.clone(),
                fields: clone_record_fields(fields),
            },
            ErlType::MapType { fields } => ErlType::MapType { fields: clone_map_fields(fields) },
            ErlType::Fn { args, ret } => ErlType::Fn {
                args: match args {
                    Option::Some(a) => Option::Some(clone_tys(a)),
                    Option::None => Option::None,
                },
                ret: Box::new((**ret).clone()),
            },
            ErlType::Binary => ErlType::Binary,
            ErlType::Pid => ErlType::Pid,
            ErlType::Reference => ErlType::Reference,
        }
    }
}

/// Deep copy of a type vector; the copy has the same models in order.
fn clone_tys(xs: &Vec<ErlType>) -> (r: Vec<ErlType>)
    ensures
        tys_view(r@) == tys_view(xs@),
        r@.len() == xs@.len(),
    decreases xs@,
{
    proof {
        lemma_tys_view(xs@);
    }
    let n = xs.len();
    let mut r: Vec<ErlType> = Vec::new();
    let mut i: usize = 0;
    while i < n
        invariant
            n == xs.len(),
            0 <= i <= n,
            r@.len() == i,
            forall|j: int| 0 <= j < i ==> r@[j]@ == xs@[j]@,
        decreases n - i,
    {
        r.push(xs[i].clone());
        i = i + 1;
    }
    proof {
        lemma_tys_view(r@);
        assert(tys_view(r@) =~= tys_view(xs@));
    }
    r
}

/// Deep copy of a record field vector.
fn clone_record_fields(xs: &Vec<RecordFieldType>) -> (r: Vec<RecordFieldType>)
    ensures
        record_fields_view(r@) == record_fields_view(xs@),
        r@.len() == xs@.len(),
    decreases xs@,
{
    proof {
        lemma_record_fields_view(xs@);
    }
    let n = xs.len();
    let mut r: Vec<RecordFieldType> = Vec::new();
    let mut i: usize = 0;
    while i < n
        invariant
            n == xs.len(),
            0 <= i <= n,
            r@.len() == i,
            forall|j: int| 0 <= j < i ==> r@[j]@ == xs@[j]@,
        decreases n - i,
    {
        let f = RecordFieldType { name: xs[i].name.clone(), ty: xs[i].ty.clone() };
        r.push(f);
        i = i + 1;
    }
    proof {
        lemma_record_fields_view(r@);
        assert(record_fields_view(r@) =~= record_fields_view(xs@));
    }
    r
}

/// Deep copy of a map field vector.
fn clone_map_fields(xs: &Vec<MapFieldType>) -> (r: Vec<MapFieldType>)
    ensures
        map_fields_view(r@) == map_fields_view(xs@),
        r@.len() == xs@.len(),
    decreases xs@,
{
    proof {
        lemma_map_fields_view(xs@);
    }
    let n = xs.len();
    let mut r: Vec<MapFieldType> = Vec::new();
    let mut i: usize = 0;
    while i < n
        invariant
            n == xs.len(),
            0 <= i <= n,
            r@.len() == i,
            forall|j: int| 0 <= j < i ==> r@[j]@ == xs@[j]@,
        decreases n - i,
    {
        let f = MapFieldType { key: xs[i].key.clone(), value: xs[i].value.clone() };
        r.push(f);
        i = i + 1;
    }
    proof {
        lemma_map_fields_view(r@);
        assert(map_fields_view(r@) =~= map_fields_view(xs@));
    }
    r
}

/// Decide equality of the models of two type sequences.
fn tys_eq_exec(xs: &Vec<ErlType>, ys: &Vec<ErlType>) -> (r: bool)
    ensures
        r == (tys_view(xs@) == tys_view(ys@)),
    decreases xs@, ys@,
{
    proof {
        lemma_tys_view(xs@);
        lemma_tys_view(ys@);
    }
    if xs.len() != ys.len() {
        return false;
    }
    let n = xs.len();
    let mut i: usize = 0;
    while i < n
        invariant
            n == xs.len(),
            xs.len() == ys.len(),
            0 <= i <= n,
            forall|j: int| 0 <= j < i ==> tys_view(xs@)[j] == tys_view(ys@)[j],
            tys_view(xs@).len() == xs@.len(),
            forall|j: int| 0 <= j < xs@.len() ==> tys_view(xs@)[j] == xs@[j]@,
            tys_view(ys@).len() == ys@.len(),
            forall|j: int| 0 <= j < ys@.len() ==> tys_view(ys@)[j] == ys@[j]@,
        decreases n - i,
    {
        if !xs[i].ty_eq(&ys[i]) {
            proof {
                assert(tys_view(xs@)[i as int] == xs@[i as int]@);
                assert(tys_view(ys@)[i as int] == ys@[i as int]@);
                assert(tys_view(xs@)[i as int] != tys_view(ys@)[i as int]);
            }
            return false;
        }
        i = i + 1;
    }
    proof {
        assert(tys_view(xs@) =~= tys_view(ys@));
    }
    true
}

/// Decide equality of the models of two record field sequences.
fn record_fields_eq_exec(xs: &Vec<RecordFieldType>, ys: &Vec<RecordFieldType>) -> (r: bool)
    ensures
        r == (record_fields_view(xs@) == record_fields_view(ys@)),
    decreases xs@, ys@,
{
    proof {
        lemma_record_fields_view(xs@);
        lemma_record_fields_view(ys@);
    }
    if xs.len() != ys.len() {
        return false;
    }
    let n = xs.len();
    let mut i: usize = 0;
    while i < n
        invariant
            n == xs.len(),
            xs.len() == ys.len(),
            0 <= i <= n,
            forall|j: int| 0 <= j < i ==> record_fields_view(xs@)[j] == record_fields_view(ys@)[j],
            record_fields_view(xs@).len() == xs@.len(),
            forall|j: int| 0 <= j < xs@.len() ==> record_fields_view(xs@)[j] == xs@[j]@,
            record_fields_view(ys@).len() == ys@.len(),
            forall|j: int| 0 <= j < ys@.len() ==> record_fields_view(ys@)[j] == ys@[j]@,
        decreases n - i,
    {
        let names_eq = xs[i].name == ys[i].name;
        if !(names_eq && xs[i].ty.ty_eq(&ys[i].ty)) {
            proof {
                assert(record_fields_view(xs@)[i as int] == xs@[i as int]@);
                assert(record_fields_view(ys@)[i as int] == ys@[i as int]@);
                assert(record_fields_view(xs@)[i as int] != record_fields_view(ys@)[i as int]);
            }
            return false;
        }
        proof {
            assert(record_fields_view(xs@)[i as int] =~= record_fields_view(ys@)[i as int]);
        }
        i = i + 1;
    }
    proof {
        assert(record_fields_view(xs@) =~= record_fields_view(ys@));
    }
    true
}

/// Decide equality of the models of two map field sequences.
fn map_fields_eq_exec(xs: &Vec<MapFieldType>, ys: &Vec<MapFieldType>) -> (r: bool)
    ensures
        r == (map_fields_view(xs@) == map_fields_view(ys@)),
    decreases xs@, ys@,
{
    proof {
        lemma_map_fields_view(xs@);
        lemma_map_fields_view(ys@);
    }
    if xs.len() != ys.len() {
        return false;
    }
    let n = xs.len();
    let mut i: usize = 0;
    while i < n
        invariant
            n == xs.len(),
            xs.len() == ys.len(),
            0 <= i <= n,
            forall|j: int| 0 <= j < i ==> map_fields_view(xs@)[j] == map_fields_view(ys@)[j],
            map_fields_view(xs@).len() == xs@.len(),
            forall|j: int| 0 <= j < xs@.len() ==> map_fields_view(xs@)[j] == xs@[j]@,
            map_fields_view(ys@).len() == ys@.len(),
            forall|j: int| 0 <= j < ys@.len() ==> map_fields_view(ys@)[j] == ys@[j]@,
        decreases n - i,
    {
        if !(xs[i].key.ty_eq(&ys[i].key) && xs[i].value.ty_eq(&ys[i].value)) {
            proof {
                assert(map_fields_view(xs@)[i as int] == xs@[i as int]@);
                assert(map_fields_view(ys@)[i as int] == ys@[i as int]@);
                assert(map_fields_view(xs@)[i as int] != map_fields_view(ys@)[i as int]);
            }
            return false;
        }
        proof {
            assert(map_fields_view(xs@)[i as int] =~= map_fields_view(ys@)[i as int]);
        }
        i = i + 1;
    }
    proof {
        assert(map_fields_view(xs@) =~= map_fields_view(ys@));
    }
    true
}

/// `tys_view` maps the sequence pointwise.
pub proof fn lemma_tys_view(ts: Seq<ErlType>)
    ensures
        tys_view(ts).len() == ts.len(),
        forall|i: int| 0 <= i < ts.len() ==> tys_view(ts)[i] == ty_view(ts[i]),
    decreases ts.len(),
{
    if ts.len() > 0 {
        lemma_tys_view(ts.drop_first());
        assert forall|i: int| 0 <= i < ts.len() implies tys_view(ts)[i] == ty_view(ts[i]) by {
            if i > 0 {
                assert(tys_view(ts)[i] == tys_view(ts.drop_first())[i - 1]);
                assert(ts.drop_first()[i - 1] == ts[i]);
            }
        }
    }
}

/// `record_fields_view` maps the sequence pointwise.
pub proof fn lemma_record_fields_view(fs: Seq<RecordFieldType>)
    ensures
        record_fields_view(fs).len() == fs.len(),
        forall|i: int| 0 <= i < fs.len() ==> record_fields_view(fs)[i] == fs[i]@,
    decreases fs.len(),
{
    if fs.len() > 0 {
        lemma_record_fields_view(fs.drop_first());
        assert forall|i: int| 0 <= i < fs.len() implies record_fields_view(fs)[i] == fs[i]@ by {
            if i > 0 {
                assert(record_fields_view(fs)[i] == record_fields_view(fs.drop_first())[i - 1]);
                assert(fs.drop_first()[i - 1] == fs[i]);
            }
        }
    }
}

/// `map_fields_view` maps the sequence pointwise.
pub proof fn lemma_map_fields_view(fs: Seq<MapFieldType>)
    ensures
        map_fields_view(fs).len() == fs.len(),
        forall|i: int| 0 <= i < fs.len() ==> map_fields_view(fs)[i] == fs[i]@,
    decreases fs.len(),
{
    if fs.len() > 0 {
        lemma_map_fields_view(fs.drop_first());
        assert forall|i: int| 0 <= i < fs.len() implies map_fields_view(fs)[i] == fs[i]@ by {
            if i > 0 {
                assert(map_fields_view(fs)[i] == map_fields_view(fs.drop_first())[i - 1]);
                assert(fs.drop_first()[i - 1] == fs[i]);
            }
        }
    }
}

} // verus!
