//! Values of the component model and their conversion from and to Ruby
//! objects, directed by the component type.
//!
//! Ruby values reach the library as `RbInput`: the kind of the value
//! together with the answers that Ruby gives to each conversion that a
//! component type may ask of it (`Integer` to `i8`, `to_str`, `to_ary`, the
//! `name` of a `Variant`, ...). The conversion decides, from the type, which
//! answers it uses and how it combines them, and which errors it raises.
//! Values go back to Ruby as `RbOutput`, a description of the Ruby object
//! to build.
use vstd::prelude::*;
use crate::component_type::{ComponentType, RecordField, VariantCase};
use crate::errors::{err_view, with_context, ErrView, ErrorClass, ExceptionMessage, RbError};
use crate::text::{decimal, format_decimal, join, str_eq};

verus! {

// ---------------------------------------------------------------------------
// Values
// ---------------------------------------------------------------------------

/// The mathematical value of a component value. Floats are kept by their
/// IEEE bits.
pub enum ValModel {
    Bool(bool),
    S8(i8),
    U8(u8),
    S16(i16),
    U16(u16),
    S32(i32),
    U32(u32),
    S64(i64),
    U64(u64),
    Float32(u32),
    Float64(u64),
    Char(char),
    Text(Seq<char>),
    List(Seq<ValModel>),
    Record(Seq<(Seq<char>, ValModel)>),
    Tuple(Seq<ValModel>),
    Variant(Seq<char>, Option<Box<ValModel>>),
    Enum(Seq<char>),
    Optional(Option<Box<ValModel>>),
    /// `true` for the `ok` branch, with the branch's payload.
    Outcome(bool, Option<Box<ValModel>>),
    Flags(Seq<Seq<char>>),
    Resource,
}

/// A value of the component model, as a component function takes and
/// returns it. `f32` and `f64` values are held by their bits.
#[derive(Debug, PartialEq)]
pub enum ComponentVal {
    Bool(bool),
    S8(i8),
    U8(u8),
    S16(i16),
    U16(u16),
    S32(i32),
    U32(u32),
    S64(i64),
    U64(u64),
    Float32(u32),
    Float64(u64),
    Char(char),
    String(String),
    List(Vec<ComponentVal>),
    Record(Vec<(String, ComponentVal)>),
    Tuple(Vec<ComponentVal>),
    Variant(String, Option<Box<ComponentVal>>),
    Enum(String),
    Option(Option<Box<ComponentVal>>),
    Result(Result<Option<Box<ComponentVal>>, Option<Box<ComponentVal>>>),
    Flags(Vec<String>),
    /// A resource handle (`own<T>` or `borrow<T>`).
    Resource,
}

/// The mathematical value of a component value.
pub open spec fn val_view(v: ComponentVal) -> ValModel
    decreases v,
{
    match v {
        ComponentVal::Bool(b) => ValModel::Bool(b),
        ComponentVal::S8(x) => ValModel::S8(x),
        ComponentVal::U8(x) => ValModel::U8(x),
        ComponentVal::S16(x) => ValModel::S16(x),
        ComponentVal::U16(x) => ValModel::U16(x),
        ComponentVal::S32(x) => ValModel::S32(x),
        ComponentVal::U32(x) => ValModel::U32(x),
        ComponentVal::S64(x) => ValModel::S64(x),
        ComponentVal::U64(x) => ValModel::U64(x),
        ComponentVal::Float32(x) => ValModel::Float32(x),
        ComponentVal::Float64(x) => ValModel::Float64(x),
        ComponentVal::Char(c) => ValModel::Char(c),
        ComponentVal::String(s) => ValModel::Text(s@),
        ComponentVal::List(vs) => ValModel::List(vals_view(vs@)),
        ComponentVal::Record(fs) => ValModel::Record(fields_view(fs@)),
        ComponentVal::Tuple(vs) => ValModel::Tuple(vals_view(vs@)),
        ComponentVal::Variant(name, payload) => ValModel::Variant(name@, match payload {
            Some(p) => Some(Box::new(val_view(*p))),
            None => None,
        }),
        ComponentVal::Enum(name) => ValModel::Enum(name@),
        ComponentVal::Option(inner) => ValModel::Optional(match inner {
            Some(p) => Some(Box::new(val_view(*p))),
            None => None,
        }),
        ComponentVal::Result(r) => match r {
            Ok(payload) => ValModel::Outcome(true, match payload {
                Some(p) => Some(Box::new(val_view(*p))),
                None => None,
            }),
            Err(payload) => ValModel::Outcome(false, match payload {
                Some(p) => Some(Box::new(val_view(*p))),
                None => None,
            }),
        },
        ComponentVal::Flags(names) => ValModel::Flags(names_view(names@)),
        ComponentVal::Resource => ValModel::Resource,
    }
}

/// The values of a sequence of component values.
pub open spec fn vals_view(vs: Seq<ComponentVal>) -> Seq<ValModel>
    decreases vs,
{
    if vs.len() == 0 {
        Seq::empty()
    } else {
        vals_view(vs.drop_last()).push(val_view(vs.last()))
    }
}

/// The names and values of a record's fields.
pub open spec fn fields_view(fs: Seq<(String, ComponentVal)>) -> Seq<(Seq<char>, ValModel)>
    decreases fs,
{
    if fs.len() == 0 {
        Seq::empty()
    } else {
        fields_view(fs.drop_last()).push((fs.last().0@, val_view(fs.last().1)))
    }
}

/// The character sequences of a list of names.
pub open spec fn names_view(names: Seq<String>) -> Seq<Seq<char>> {
    names.map_values(|n: String| n@)
}

/// The value of a conversion's outcome.
pub open spec fn result_view(r: Result<ComponentVal, RbError>) -> Result<ValModel, ErrView> {
    match r {
        Ok(v) => Ok(val_view(v)),
        Err(e) => Err(err_view(e)),
    }
}

proof fn lemma_char_view(c: char)
    ensures
        val_view(ComponentVal::Char(c)) == ValModel::Char(c),
{
}

proof fn lemma_vals_push(vs: Seq<ComponentVal>, v: ComponentVal)
    ensures
        vals_view(vs.push(v)) == vals_view(vs).push(val_view(v)),
{
    assert(vs.push(v).drop_last() =~= vs);
}

proof fn lemma_fields_push(fs: Seq<(String, ComponentVal)>, f: (String, ComponentVal))
    ensures
        fields_view(fs.push(f)) == fields_view(fs).push((f.0@, val_view(f.1))),
{
    assert(fs.push(f).drop_last() =~= fs);
}

// ---------------------------------------------------------------------------
// Ruby values handed to the conversion
// ---------------------------------------------------------------------------

/// What a Ruby value is, as far as the conversion distinguishes it.
#[derive(Clone, Copy, Debug, PartialEq, Eq, Structural)]
pub enum RbKind {
    Nil,
    True,
    False,
    Other,
}

/// A Ruby value with Ruby's answer to each conversion that a component type
/// may ask of it. Each answer is what Ruby returns or raises for that
/// conversion of this value.
#[derive(Debug)]
pub struct RbInput {
    pub kind: RbKind,
    /// The name of the value's class.
    pub classname: String,
    /// The value's `inspect`.
    pub inspect: String,
    pub as_s8: Result<i8, RbError>,
    pub as_u8: Result<u8, RbError>,
    pub as_s16: Result<i16, RbError>,
    pub as_u16: Result<u16, RbError>,
    pub as_s32: Result<i32, RbError>,
    pub as_u32: Result<u32, RbError>,
    pub as_s64: Result<i64, RbError>,
    pub as_u64: Result<u64, RbError>,
    /// The bits of the `f32` that the value converts to.
    pub as_f32: Result<u32, RbError>,
    /// The bits of the `f64` that the value converts to.
    pub as_f64: Result<u64, RbError>,
    /// The character of the value's `to_s`.
    pub as_char: Result<char, RbError>,
    /// The value as a `String` (`to_str`), as UTF-8.
    pub as_string: Result<String, RbError>,
    /// The value as an `Array` of `String`s.
    pub as_flags: Result<Vec<String>, RbError>,
    /// The value as an `Array` (`to_ary`).
    pub as_array: Result<Vec<RbInput>, RbError>,
    /// The value as a `Hash` (`to_hash`): its entries with `String` keys.
    pub as_hash: Result<Vec<(String, RbInput)>, RbError>,
    /// The value's `name`, as a `String`.
    pub variant_name: Result<String, RbError>,
    /// The value's `value`.
    pub variant_value: Result<Box<RbInput>, RbError>,
    /// The value's `ok?`.
    pub is_ok: Result<bool, RbError>,
    /// The value's `ok`.
    pub ok_value: Result<Box<RbInput>, RbError>,
    /// The value's `error`.
    pub error_value: Result<Box<RbInput>, RbError>,
}

// ---------------------------------------------------------------------------
// From Ruby: what the conversion gives
// ---------------------------------------------------------------------------

/// The message of the error for a non-boolean value given for a `bool`.
pub open spec fn bool_error_message(classname: Seq<char>) -> Seq<char> {
    "no implicit conversion of "@ + classname + " into boolean"@
}

/// The message of the error for an array of the wrong length.
pub open spec fn tuple_length_message(given: nat, expected: nat) -> Seq<char> {
    "invalid array length for tuple (given "@ + decimal(given) + ", expected "@ + decimal(expected) + ")"@
}

/// The list of case names as `Array#inspect` shows them.
pub open spec fn cases_display(cases: Seq<VariantCase>) -> Seq<char> {
    "["@ + join(cases.map_values(|c: VariantCase| "\""@ + c.name@ + "\""@), ", "@) + "]"@
}

/// The message of the error for a name that is none of the variant's cases.
pub open spec fn invalid_case_message(name: Seq<char>, cases: Seq<VariantCase>) -> Seq<char> {
    "invalid variant case \""@ + name + "\", valid cases: "@ + cases_display(cases)
}

/// The message of the error for a value given to a case without payload.
pub open spec fn unexpected_payload_message(name: Seq<char>, got: Seq<char>) -> Seq<char> {
    "expected no value for variant case \""@ + name + "\", got "@ + got
}

/// The message of the error for a record field that the Hash lacks.
pub open spec fn missing_field_message(name: Seq<char>) -> Seq<char> {
    "struct field missing: "@ + name
}

/// The message of the error for a value in an `ok` branch without type.
pub open spec fn ok_branch_message(got: Seq<char>) -> Seq<char> {
    "expected nil for result<_, E> ok branch, got "@ + got
}

/// The message of the error for a value in an `error` branch without type.
pub open spec fn error_branch_message(got: Seq<char>) -> Seq<char> {
    "expected nil for result<O, _> error branch, got "@ + got
}

/// The text appended to an error in the list item at `index`.
pub open spec fn list_item_context(index: nat) -> Seq<char> {
    " (list item at index "@ + decimal(index) + ")"@
}

/// The text appended to an error in the tuple value at `index`.
pub open spec fn tuple_value_context(index: nat) -> Seq<char> {
    " (tuple value at index "@ + decimal(index) + ")"@
}

/// The text appended to an error in the record field `name`.
pub open spec fn struct_field_context(name: Seq<char>) -> Seq<char> {
    " (struct field \""@ + name + "\")"@
}

/// The text appended to an error in the payload of the case `name`.
pub open spec fn variant_value_context(name: Seq<char>) -> Seq<char> {
    " (variant value for \""@ + name + "\")"@
}

/// A conversion that Ruby answered: its value, or its error.
pub open spec fn answered<T>(r: Result<T, RbError>, f: spec_fn(T) -> ValModel) -> Result<ValModel, ErrView> {
    match r {
        Ok(x) => Ok(f(x)),
        Err(e) => Err(err_view(e)),
    }
}

/// The position of the first case named `name`, if any.
pub open spec fn find_case(cases: Seq<VariantCase>, name: Seq<char>) -> Option<int>
    decreases cases.len(),
{
    if cases.len() == 0 {
        None
    } else if cases[0].name@ == name {
        Some(0)
    } else {
        match find_case(cases.drop_first(), name) {
            Some(i) => Some(i + 1),
            None => None,
        }
    }
}

/// The value of the first entry with key `key`, if any.
pub open spec fn hash_get(entries: Seq<(String, RbInput)>, key: Seq<char>) -> Option<RbInput>
    decreases entries.len(),
{
    if entries.len() == 0 {
        None
    } else if entries[0].0@ == key {
        Some(entries[0].1)
    } else {
        hash_get(entries.drop_first(), key)
    }
}

/// What converting the Ruby value `n` to a value of type `t` gives.
pub open spec fn to_val(n: RbInput, t: ComponentType) -> Result<ValModel, ErrView>
    decreases t, 0nat,
{
    match t {
        ComponentType::Bool => match n.kind {
            RbKind::True => Ok(ValModel::Bool(true)),
            RbKind::False => Ok(ValModel::Bool(false)),
            _ => Err(ErrView::Raised(ErrorClass::Type, bool_error_message(n.classname@))),
        },
        ComponentType::S8 => answered(n.as_s8, |x: i8| ValModel::S8(x)),
        ComponentType::U8 => answered(n.as_u8, |x: u8| ValModel::U8(x)),
        ComponentType::S16 => answered(n.as_s16, |x: i16| ValModel::S16(x)),
        ComponentType::U16 => answered(n.as_u16, |x: u16| ValModel::U16(x)),
        ComponentType::S32 => answered(n.as_s32, |x: i32| ValModel::S32(x)),
        ComponentType::U32 => answered(n.as_u32, |x: u32| ValModel::U32(x)),
        ComponentType::S64 => answered(n.as_s64, |x: i64| ValModel::S64(x)),
        ComponentType::U64 => answered(n.as_u64, |x: u64| ValModel::U64(x)),
        ComponentType::Float32 => answered(n.as_f32, |x: u32| ValModel::Float32(x)),
        ComponentType::Float64 => answered(n.as_f64, |x: u64| ValModel::Float64(x)),
        ComponentType::Char => match n.as_char {
            Ok(c) => Ok(ValModel::Char(c)),
            Err(e) => Err(err_view(e)),
        },
        ComponentType::String => answered(n.as_string, |s: String| ValModel::Text(s@)),
        ComponentType::Enum(_) => answered(n.as_string, |s: String| ValModel::Enum(s@)),
        ComponentType::Flags(_) => answered(n.as_flags, |v: Vec<String>| ValModel::Flags(names_view(v@))),
        ComponentType::List(inner) => match n.as_array {
            Err(e) => Err(err_view(e)),
            Ok(items) => match list_vals(items@, *inner) {
                Ok(vs) => Ok(ValModel::List(vs)),
                Err(e) => Err(e),
            },
        },
        ComponentType::Tuple(types) => match n.as_array {
            Err(e) => Err(err_view(e)),
            Ok(items) => if items@.len() != types@.len() {
                Err(ErrView::Raised(ErrorClass::Type, tuple_length_message(items@.len(), types@.len())))
            } else {
                match tuple_vals(items@, types@) {
                    Ok(vs) => Ok(ValModel::Tuple(vs)),
                    Err(e) => Err(e),
                }
            },
        },
        ComponentType::Record(fields) => match n.as_hash {
            Err(e) => Err(err_view(e)),
            Ok(entries) => match record_vals(entries@, fields@) {
                Ok(fs) => Ok(ValModel::Record(fs)),
                Err(e) => Err(e),
            },
        },
        ComponentType::Variant(cases) => match n.variant_name {
            Err(e) => Err(err_view(e)),
            Ok(name) => match find_case(cases@, name@) {
                None => Err(ErrView::Raised(ErrorClass::Base, invalid_case_message(name@, cases@))),
                Some(i) => match n.variant_value {
                    Err(e) => Err(err_view(e)),
                    Ok(v) => case_val(*v, cases@, i, name@),
                },
            },
        },
        ComponentType::Option(inner) => if n.kind == RbKind::Nil {
            Ok(ValModel::Optional(None))
        } else {
            match to_val(n, *inner) {
                Ok(x) => Ok(ValModel::Optional(Some(Box::new(x)))),
                Err(e) => Err(e),
            }
        },
        ComponentType::Result { ok, err } => match n.is_ok {
            Err(e) => Err(err_view(e)),
            Ok(true) => match n.ok_value {
                Err(e) => Err(err_view(e)),
                Ok(v) => match ok {
                    Some(ot) => match to_val(*v, *ot) {
                        Ok(x) => Ok(ValModel::Outcome(true, Some(Box::new(x)))),
                        Err(e) => Err(e),
                    },
                    None => if v.kind == RbKind::Nil {
                        Ok(ValModel::Outcome(true, None))
                    } else {
                        Err(ErrView::Raised(ErrorClass::Base, ok_branch_message(v.inspect@)))
                    },
                },
            },
            Ok(false) => match n.error_value {
                Err(e) => Err(err_view(e)),
                Ok(v) => match err {
                    Some(et) => match to_val(*v, *et) {
                        Ok(x) => Ok(ValModel::Outcome(false, Some(Box::new(x)))),
                        Err(e) => Err(e),
                    },
                    None => if v.kind == RbKind::Nil {
                        Ok(ValModel::Outcome(false, None))
                    } else {
                        Err(ErrView::Raised(ErrorClass::Base, error_branch_message(v.inspect@)))
                    },
                },
            },
        },
    }
}

/// The payload of the variant case at `i` for the Ruby value `v`.
pub open spec fn case_val(v: RbInput, cases: Seq<VariantCase>, i: int, name: Seq<char>) -> Result<ValModel, ErrView>
    decreases cases, 0nat,
{
    if 0 <= i < cases.len() {
        match cases[i].ty {
            Some(pt) => match to_val(v, pt) {
                Ok(x) => Ok(ValModel::Variant(name, Some(Box::new(x)))),
                Err(e) => Err(with_context(e, variant_value_context(name))),
            },
            None => if v.kind == RbKind::Nil {
                Ok(ValModel::Variant(name, None))
            } else {
                Err(ErrView::Raised(ErrorClass::Base, unexpected_payload_message(name, v.inspect@)))
            },
        }
    } else {
        Ok(ValModel::Variant(name, None))
    }
}

/// The items of a list, each converted to `t`; the first error, with the
/// item's index, if any.
pub open spec fn list_vals(items: Seq<RbInput>, t: ComponentType) -> Result<Seq<ValModel>, ErrView>
    decreases t, items.len(),
{
    if items.len() == 0 {
        Ok(Seq::empty())
    } else {
        match list_vals(items.drop_last(), t) {
            Err(e) => Err(e),
            Ok(vs) => match to_val(items.last(), t) {
                Ok(v) => Ok(vs.push(v)),
                Err(e) => Err(with_context(e, list_item_context((items.len() - 1) as nat))),
            },
        }
    }
}

/// The items of a tuple, each converted to its type; the first error, with
/// the item's index, if any.
pub open spec fn tuple_vals(items: Seq<RbInput>, types: Seq<ComponentType>) -> Result<Seq<ValModel>, ErrView>
    decreases types, 0nat,
{
    if types.len() == 0 || items.len() == 0 {
        Ok(Seq::empty())
    } else {
        match tuple_vals(items.drop_last(), types.drop_last()) {
            Err(e) => Err(e),
            Ok(vs) => match to_val(items.last(), types.last()) {
                Ok(v) => Ok(vs.push(v)),
                Err(e) => Err(with_context(e, tuple_value_context((types.len() - 1) as nat))),
            },
        }
    }
}

/// The fields of a record, each looked up in the Hash's entries and
/// converted to its type; the first error, if any.
pub open spec fn record_vals(entries: Seq<(String, RbInput)>, fields: Seq<RecordField>) -> Result<Seq<(Seq<char>, ValModel)>, ErrView>
    decreases fields, 0nat,
{
    if fields.len() == 0 {
        Ok(Seq::empty())
    } else {
        match record_vals(entries, fields.drop_last()) {
            Err(e) => Err(e),
            Ok(fs) => {
                let f = fields.last();
                match hash_get(entries, f.name@) {
                    None => Err(ErrView::Raised(ErrorClass::Base, missing_field_message(f.name@))),
                    Some(v) => match to_val(v, f.ty) {
                        Ok(x) => Ok(fs.push((f.name@, x))),
                        Err(e) => Err(with_context(e, struct_field_context(f.name@))),
                    },
                }
            },
        }
    }
}

// ---------------------------------------------------------------------------
// From Ruby: the conversion
// ---------------------------------------------------------------------------

/// Once a prefix of the items fails, the whole list fails with its error.
proof fn lemma_list_err_prefix(items: Seq<RbInput>, t: ComponentType, k: int)
    requires
        0 <= k <= items.len(),
        list_vals(items.take(k), t) is Err,
    ensures
        list_vals(items, t) == list_vals(items.take(k), t),
    decreases items.len(),
{
    if items.len() == k {
        assert(items.take(k) =~= items);
    } else {
        assert(items.drop_last().take(k) =~= items.take(k));
        lemma_list_err_prefix(items.drop_last(), t, k);
    }
}

/// Once a prefix of the items fails, the whole tuple fails with its error.
proof fn lemma_tuple_err_prefix(items: Seq<RbInput>, types: Seq<ComponentType>, k: int)
    requires
        0 <= k <= items.len(),
        items.len() == types.len(),
        tuple_vals(items.take(k), types.take(k)) is Err,
    ensures
        tuple_vals(items, types) == tuple_vals(items.take(k), types.take(k)),
    decreases items.len(),
{
    if items.len() == k {
        assert(items.take(k) =~= items);
        assert(types.take(k) =~= types);
    } else {
        assert(items.drop_last().take(k) =~= items.take(k));
        assert(types.drop_last().take(k) =~= types.take(k));
        lemma_tuple_err_prefix(items.drop_last(), types.drop_last(), k);
    }
}

/// Once a prefix of the fields fails, the whole record fails with its error.
proof fn lemma_record_err_prefix(entries: Seq<(String, RbInput)>, fields: Seq<RecordField>, k: int)
    requires
        0 <= k <= fields.len(),
        record_vals(entries, fields.take(k)) is Err,
    ensures
        record_vals(entries, fields) == record_vals(entries, fields.take(k)),
    decreases fields.len(),
{
    if fields.len() == k {
        assert(fields.take(k) =~= fields);
    } else {
        assert(fields.drop_last().take(k) =~= fields.take(k));
        lemma_record_err_prefix(entries, fields.drop_last(), k);
    }
}

/// A copy of an error.
pub fn copy_error(e: &RbError) -> (r: RbError)
    ensures
        r == *e,
        err_view(r) == err_view(*e),
{
    match e {
        RbError::Error { class, message } => RbError::Error { class: *class, message: message.clone() },
        RbError::Exception { class, message } => RbError::Exception { class: *class, message: message.clone() },
        RbError::Jump => RbError::Jump,
    }
}

/// A copy of a list of names.
fn copy_names(names: &Vec<String>) -> (r: Vec<String>)
    ensures
        names_view(r@) == names_view(names@),
{
    let mut out: Vec<String> = Vec::new();
    let mut i: usize = 0;
    while i < names.len()
        invariant
            i <= names@.len(),
            out@.len() == i,
            forall|j: int| 0 <= j < i ==> (#[trigger] out@[j])@ == names@[j]@,
        decreases names@.len() - i,
    {
        out.push(names[i].clone());
        i = i + 1;
    }
    assert(names_view(out@) =~= names_view(names@));
    out
}

/// The position of the first entry with key `key`.
fn hash_position(entries: &Vec<(String, RbInput)>, key: &str) -> (r: Option<usize>)
    ensures
        match r {
            Some(j) => j < entries@.len() && hash_get(entries@, key@) == Some(entries@[j as int].1),
            None => hash_get(entries@, key@) is None,
        },
{
    let mut i: usize = 0;
    assert(entries@.skip(0) =~= entries@);
    while i < entries.len()
        invariant
            i <= entries@.len(),
            hash_get(entries@, key@) == hash_get(entries@.skip(i as int), key@),
        decreases entries@.len() - i,
    {
        if str_eq(entries[i].0.as_str(), key) {
            assert(entries@.skip(i as int)[0] == entries@[i as int]);
            return Some(i);
        }
        assert(entries@.skip(i as int).drop_first() =~= entries@.skip(i + 1));
        i = i + 1;
    }
    None
}

/// The position of the first case named `name`.
fn case_position(cases: &Vec<VariantCase>, name: &str) -> (r: Option<usize>)
    ensures
        match r {
            Some(j) => j < cases@.len() && find_case(cases@, name@) == Some(j as int),
            None => find_case(cases@, name@) is None,
        },
{
    let mut i: usize = 0;
    assert(cases@.skip(0) =~= cases@);
    while i < cases.len()
        invariant
            i <= cases@.len(),
            find_case(cases@, name@) == match find_case(cases@.skip(i as int), name@) {
                Some(j) => Some(j + i),
                None => None::<int>,
            },
        decreases cases@.len() - i,
    {
        assert(cases@.skip(i as int)[0] == cases@[i as int]);
        if str_eq(cases[i].name.as_str(), name) {
            return Some(i);
        }
        assert(cases@.skip(i as int).drop_first() =~= cases@.skip(i + 1));
        i = i + 1;
    }
    None
}

/// The names of the cases as `Array#inspect` shows them.
fn display_cases(cases: &Vec<VariantCase>) -> (s: String)
    ensures
        s@ == cases_display(cases@),
{
    let ghost parts = cases@.map_values(|c: VariantCase| "\""@ + c.name@ + "\""@);
    let mut s = String::new();
    let mut i: usize = 0;
    while i < cases.len()
        invariant
            i <= cases@.len(),
            parts == cases@.map_values(|c: VariantCase| "\""@ + c.name@ + "\""@),
            s@ == join(parts.take(i as int), ", "@),
        decreases cases@.len() - i,
    {
        if i > 0 {
            s.append(", ");
        }
        s.append("\"");
        s.append(cases[i].name.as_str());
        s.append("\"");
        assert(parts.take(i + 1).drop_last() =~= parts.take(i as int));
        i = i + 1;
    }
    assert(parts.take(cases@.len() as int) =~= parts);
    let mut r = String::from_str("[");
    r.append(s.as_str());
    r.append("]");
    r
}

/// The text appended to an error in the list item at `index`.
fn list_context(index: usize) -> (s: String)
    ensures
        s@ == list_item_context(index as nat),
{
    let mut s = String::from_str(" (list item at index ");
    let d = format_decimal(index as u64);
    s.append(d.as_str());
    s.append(")");
    s
}

/// The text appended to an error in the tuple value at `index`.
fn tuple_context(index: usize) -> (s: String)
    ensures
        s@ == tuple_value_context(index as nat),
{
    let mut s = String::from_str(" (tuple value at index ");
    let d = format_decimal(index as u64);
    s.append(d.as_str());
    s.append(")");
    s
}

/// A message made of a prefix and a name.
fn prefixed_message(prefix: &str, name: &str) -> (s: String)
    ensures
        s@ == prefix@ + name@,
{
    let mut s = String::from_str(prefix);
    s.append(name);
    s
}

/// A message made of a prefix, a name and a suffix.
fn framed(prefix: &str, name: &str, suffix: &str) -> (s: String)
    ensures
        s@ == prefix@ + name@ + suffix@,
{
    let mut s = String::from_str(prefix);
    s.append(name);
    s.append(suffix);
    s
}

/// Converts the Ruby value `value` to a component value of type `ty`.
#[verifier::loop_isolation(false)]
pub fn rb_to_component_val(value: &RbInput, ty: &ComponentType) -> (r: Result<ComponentVal, RbError>)
    ensures
        result_view(r) == to_val(*value, *ty),
    decreases ty, 1nat,
{
    match ty {
        ComponentType::Bool => match value.kind {
            RbKind::True => Ok(ComponentVal::Bool(true)),
            RbKind::False => Ok(ComponentVal::Bool(false)),
            _ => {
                let m = framed("no implicit conversion of ", value.classname.as_str(), " into boolean");
                Err(RbError::Error { class: ErrorClass::Type, message: m })
            },
        },
        ComponentType::S8 | ComponentType::U8 | ComponentType::S16 | ComponentType::U16
        | ComponentType::S32 | ComponentType::U32 | ComponentType::S64 | ComponentType::U64
        | ComponentType::Float32 | ComponentType::Float64 => number_to_val(value, ty),
        ComponentType::Char => match &value.as_char {
            Ok(c) => {
                proof { lemma_char_view(*c); }
                Ok(ComponentVal::Char(*c))
            },
            Err(e) => Err(copy_error(e)),
        },
        ComponentType::String => match &value.as_string {
            Ok(s) => Ok(ComponentVal::String(s.clone())),
            Err(e) => Err(copy_error(e)),
        },
        ComponentType::Enum(_) => match &value.as_string {
            Ok(s) => Ok(ComponentVal::Enum(s.clone())),
            Err(e) => Err(copy_error(e)),
        },
        ComponentType::Flags(_) => match &value.as_flags {
            Ok(names) => Ok(ComponentVal::Flags(copy_names(names))),
            Err(e) => Err(copy_error(e)),
        },
        ComponentType::List(inner) => list_to_val(value, ty, inner),
        ComponentType::Tuple(types) => tuple_to_val(value, ty, types),
        ComponentType::Record(fields) => record_to_val(value, ty, fields),
        ComponentType::Variant(cases) => variant_to_val(value, ty, cases),
        ComponentType::Option(inner) => if value.kind == RbKind::Nil {
            Ok(ComponentVal::Option(None))
        } else {
            match rb_to_component_val(value, inner) {
                Ok(x) => Ok(ComponentVal::Option(Some(Box::new(x)))),
                Err(e) => Err(e),
            }
        },
        ComponentType::Result { ok, err } => outcome_to_val(value, ty, ok, err),
    }
}

/// Converts the Ruby value `value` to a number of type `ty`.
fn number_to_val(value: &RbInput, ty: &ComponentType) -> (r: Result<ComponentVal, RbError>)
    requires
        ty is S8 || ty is U8 || ty is S16 || ty is U16 || ty is S32 || ty is U32 || ty is S64
            || ty is U64 || ty is Float32 || ty is Float64,
    ensures
        result_view(r) == to_val(*value, *ty),
{
    match ty {
        ComponentType::S8 => match &value.as_s8 {
            Ok(x) => Ok(ComponentVal::S8(*x)),
            Err(e) => Err(copy_error(e)),
        },
        ComponentType::U8 => match &value.as_u8 {
            Ok(x) => Ok(ComponentVal::U8(*x)),
            Err(e) => Err(copy_error(e)),
        },
        ComponentType::S16 => match &value.as_s16 {
            Ok(x) => Ok(ComponentVal::S16(*x)),
            Err(e) => Err(copy_error(e)),
        },
        ComponentType::U16 => match &value.as_u16 {
            Ok(x) => Ok(ComponentVal::U16(*x)),
            Err(e) => Err(copy_error(e)),
        },
        ComponentType::S32 => match &value.as_s32 {
            Ok(x) => Ok(ComponentVal::S32(*x)),
            Err(e) => Err(copy_error(e)),
        },
        ComponentType::U32 => match &value.as_u32 {
            Ok(x) => Ok(ComponentVal::U32(*x)),
            Err(e) => Err(copy_error(e)),
        },
        ComponentType::S64 => match &value.as_s64 {
            Ok(x) => Ok(ComponentVal::S64(*x)),
            Err(e) => Err(copy_error(e)),
        },
        ComponentType::U64 => match &value.as_u64 {
            Ok(x) => Ok(ComponentVal::U64(*x)),
            Err(e) => Err(copy_error(e)),
        },
        ComponentType::Float32 => match &value.as_f32 {
            Ok(x) => Ok(ComponentVal::Float32(*x)),
            Err(e) => Err(copy_error(e)),
        },
        ComponentType::Float64 => match &value.as_f64 {
            Ok(x) => Ok(ComponentVal::Float64(*x)),
            Err(e) => Err(copy_error(e)),
        },
        _ => Err(RbError::Jump),
    }
}

/// Converts the Ruby value `value` to a `list<inner>`.
#[verifier::loop_isolation(false)]
fn list_to_val(value: &RbInput, ty: &ComponentType, inner: &Box<ComponentType>) -> (r: Result<ComponentVal, RbError>)
    requires
        *ty == ComponentType::List(*inner),
    ensures
        result_view(r) == to_val(*value, *ty),
    decreases ty, 0nat,
{
    match &value.as_array {
        Err(e) => Err(copy_error(e)),
        Ok(items) => {
            let mut out: Vec<ComponentVal> = Vec::new();
            let mut i: usize = 0;
            assert(items@.take(0) =~= Seq::<RbInput>::empty());
            while i < items.len()
                invariant
                    i <= items@.len(),
                    list_vals(items@.take(i as int), **inner) == Ok::<Seq<ValModel>, ErrView>(vals_view(out@)),
                decreases items@.len() - i,
            {
                assert(items@.take(i + 1).drop_last() =~= items@.take(i as int));
                assert(items@.take(i + 1).last() == items@[i as int]);
                match rb_to_component_val(&items[i], inner) {
                    Ok(v) => {
                        proof { lemma_vals_push(out@, v); }
                        out.push(v);
                    },
                    Err(e) => {
                        let ctx = list_context(i);
                        let r = e.append(ctx.as_str());
                        proof { lemma_list_err_prefix(items@, **inner, i + 1); }
                        return Err(r);
                    },
                }
                i = i + 1;
            }
            assert(items@.take(items@.len() as int) =~= items@);
            Ok(ComponentVal::List(out))
        },
    }
}

/// Converts the Ruby value `value` to a tuple of `types`.
#[verifier::loop_isolation(false)]
fn tuple_to_val(value: &RbInput, ty: &ComponentType, types: &Vec<ComponentType>) -> (r: Result<ComponentVal, RbError>)
    requires
        *ty == ComponentType::Tuple(*types),
    ensures
        result_view(r) == to_val(*value, *ty),
    decreases ty, 0nat,
{
    match &value.as_array {
        Err(e) => Err(copy_error(e)),
        Ok(items) => {
            if items.len() != types.len() {
                let mut m = String::from_str("invalid array length for tuple (given ");
                m.append(format_decimal(items.len() as u64).as_str());
                m.append(", expected ");
                m.append(format_decimal(types.len() as u64).as_str());
                m.append(")");
                return Err(RbError::Error { class: ErrorClass::Type, message: m });
            }
            let mut out: Vec<ComponentVal> = Vec::new();
            let mut i: usize = 0;
            assert(items@.take(0) =~= Seq::<RbInput>::empty());
            while i < items.len()
                invariant
                    i <= items@.len(),
                    items@.len() == types@.len(),
                    tuple_vals(items@.take(i as int), types@.take(i as int)) == Ok::<Seq<ValModel>, ErrView>(vals_view(out@)),
                decreases items@.len() - i,
            {
                assert(items@.take(i + 1).drop_last() =~= items@.take(i as int));
                assert(types@.take(i + 1).drop_last() =~= types@.take(i as int));
                assert(items@.take(i + 1).last() == items@[i as int]);
                assert(types@.take(i + 1).last() == types@[i as int]);
                match rb_to_component_val(&items[i], &types[i]) {
                    Ok(v) => {
                        proof { lemma_vals_push(out@, v); }
                        out.push(v);
                    },
                    Err(e) => {
                        let ctx = tuple_context(i);
                        let r = e.append(ctx.as_str());
                        proof { lemma_tuple_err_prefix(items@, types@, i + 1); }
                        return Err(r);
                    },
                }
                i = i + 1;
            }
            assert(items@.take(items@.len() as int) =~= items@);
            assert(types@.take(types@.len() as int) =~= types@);
            Ok(ComponentVal::Tuple(out))
        },
    }
}

/// Converts the Ruby value `value` to a record of `fields`.
#[verifier::loop_isolation(false)]
fn record_to_val(value: &RbInput, ty: &ComponentType, fields: &Vec<RecordField>) -> (r: Result<ComponentVal, RbError>)
    requires
        *ty == ComponentType::Record(*fields),
    ensures
        result_view(r) == to_val(*value, *ty),
    decreases ty, 0nat,
{
    match &value.as_hash {
        Err(e) => Err(copy_error(e)),
        Ok(entries) => {
            let mut out: Vec<(String, ComponentVal)> = Vec::new();
            let mut i: usize = 0;
            assert(fields@.take(0) =~= Seq::<RecordField>::empty());
            while i < fields.len()
                invariant
                    i <= fields@.len(),
                    record_vals(entries@, fields@.take(i as int)) == Ok::<Seq<(Seq<char>, ValModel)>, ErrView>(fields_view(out@)),
                decreases fields@.len() - i,
            {
                assert(fields@.take(i + 1).drop_last() =~= fields@.take(i as int));
                assert(fields@.take(i + 1).last() == fields@[i as int]);
                let name = fields[i].name.as_str();
                match hash_position(entries, name) {
                    None => {
                        let m = prefixed_message("struct field missing: ", name);
                        proof { lemma_record_err_prefix(entries@, fields@, i + 1); }
                        return Err(RbError::Error { class: ErrorClass::Base, message: m });
                    },
                    Some(j) => match rb_to_component_val(&entries[j].1, &fields[i].ty) {
                        Ok(v) => {
                            let f = (fields[i].name.clone(), v);
                            proof { lemma_fields_push(out@, f); }
                            out.push(f);
                        },
                        Err(e) => {
                            let ctx = framed(" (struct field \"", name, "\")");
                            let r = e.append(ctx.as_str());
                            proof { lemma_record_err_prefix(entries@, fields@, i + 1); }
                            return Err(r);
                        },
                    },
                }
                i = i + 1;
            }
            assert(fields@.take(fields@.len() as int) =~= fields@);
            Ok(ComponentVal::Record(out))
        },
    }
}

/// Converts the Ruby value `value` to a case of the variant `cases`.
fn variant_to_val(value: &RbInput, ty: &ComponentType, cases: &Vec<VariantCase>) -> (r: Result<ComponentVal, RbError>)
    requires
        *ty == ComponentType::Variant(*cases),
    ensures
        result_view(r) == to_val(*value, *ty),
    decreases ty, 0nat,
{
    let name = match &value.variant_name {
        Err(e) => return Err(copy_error(e)),
        Ok(name) => name,
    };
    let i = match case_position(cases, name.as_str()) {
        None => {
            let shown = display_cases(cases);
            let mut m = framed("invalid variant case \"", name.as_str(), "\", valid cases: ");
            m.append(shown.as_str());
            return Err(RbError::Error { class: ErrorClass::Base, message: m });
        },
        Some(i) => i,
    };
    let v = match &value.variant_value {
        Err(e) => return Err(copy_error(e)),
        Ok(v) => v,
    };
    assert(to_val(*value, *ty) == case_val(**v, cases@, i as int, name@));
    match &cases[i].ty {
        Some(pt) => {
            assert(decreases_to!(*ty => *pt)) by {
                assert(decreases_to!(*ty => *cases));
                assert(decreases_to!(*cases => cases@));
                assert(decreases_to!(cases@ => cases@[i as int]));
                assert(decreases_to!(cases@[i as int] => cases@[i as int].ty));
            }
            match rb_to_component_val(&**v, pt) {
                Ok(x) => Ok(ComponentVal::Variant(name.clone(), Some(Box::new(x)))),
                Err(e) => {
                    let ctx = framed(" (variant value for \"", name.as_str(), "\")");
                    Err(e.append(ctx.as_str()))
                },
            }
        },
        None => if v.kind == RbKind::Nil {
            Ok(ComponentVal::Variant(name.clone(), None))
        } else {
            let mut m = framed("expected no value for variant case \"", name.as_str(), "\", got ");
            m.append(v.inspect.as_str());
            Err(RbError::Error { class: ErrorClass::Base, message: m })
        },
    }
}

/// Converts the Ruby value `value` to a `result<ok, err>`.
fn outcome_to_val(
    value: &RbInput,
    ty: &ComponentType,
    ok: &Option<Box<ComponentType>>,
    err: &Option<Box<ComponentType>>,
) -> (r: Result<ComponentVal, RbError>)
    requires
        *ty == (ComponentType::Result { ok: *ok, err: *err }),
    ensures
        result_view(r) == to_val(*value, *ty),
    decreases ty, 0nat,
{
    match &value.is_ok {
            Err(e) => Err(copy_error(e)),
            Ok(true) => match &value.ok_value {
                Err(e) => Err(copy_error(e)),
                Ok(v) => match ok {
                    Some(ot) => match rb_to_component_val(&**v, ot) {
                        Ok(x) => Ok(ComponentVal::Result(Ok(Some(Box::new(x))))),
                        Err(e) => Err(e),
                    },
                    None => if v.kind == RbKind::Nil {
                        Ok(ComponentVal::Result(Ok(None)))
                    } else {
                        let m = prefixed_message("expected nil for result<_, E> ok branch, got ", v.inspect.as_str());
                        Err(RbError::Error { class: ErrorClass::Base, message: m })
                    },
                },
            },
            Ok(false) => match &value.error_value {
                Err(e) => Err(copy_error(e)),
                Ok(v) => match err {
                    Some(et) => match rb_to_component_val(&**v, et) {
                        Ok(x) => Ok(ComponentVal::Result(Err(Some(Box::new(x))))),
                        Err(e) => Err(e),
                    },
                    None => if v.kind == RbKind::Nil {
                        Ok(ComponentVal::Result(Err(None)))
                    } else {
                        let m = prefixed_message("expected nil for result<O, _> error branch, got ", v.inspect.as_str());
                        Err(RbError::Error { class: ErrorClass::Base, message: m })
                    },
                },
            },
        }
}

// ---------------------------------------------------------------------------
// To Ruby
// ---------------------------------------------------------------------------

/// A Ruby object to build for a component value.
#[derive(Debug, PartialEq)]
pub enum RbOutput {
    Nil,
    Bool(bool),
    Integer(i128),
    /// A `Float` of the `f32` with these bits.
    Float32(u32),
    /// A `Float` of the `f64` with these bits.
    Float64(u64),
    /// A `String` of one character.
    Char(char),
    Str(String),
    Array(Vec<RbOutput>),
    /// A `Hash` with `String` keys, its entries stored in this order.
    Hash(Vec<(String, RbOutput)>),
    /// `Wasmtime::Component::Variant.new(name, value)`.
    Variant { name: String, value: Box<RbOutput> },
    /// `Wasmtime::Component::Result.ok(value)` or `.error(value)`.
    Outcome { ok: bool, value: Box<RbOutput> },
}

/// The mathematical value of a Ruby object to build.
pub enum OutModel {
    Nil,
    Bool(bool),
    Integer(int),
    Float32(u32),
    Float64(u64),
    Char(char),
    Text(Seq<char>),
    Array(Seq<OutModel>),
    Hash(Seq<(Seq<char>, OutModel)>),
    Variant(Seq<char>, Box<OutModel>),
    Outcome(bool, Box<OutModel>),
}

/// The mathematical value of a Ruby object to build.
pub open spec fn out_view(o: RbOutput) -> OutModel
    decreases o,
{
    match o {
        RbOutput::Nil => OutModel::Nil,
        RbOutput::Bool(b) => OutModel::Bool(b),
        RbOutput::Integer(i) => OutModel::Integer(i as int),
        RbOutput::Float32(b) => OutModel::Float32(b),
        RbOutput::Float64(b) => OutModel::Float64(b),
        RbOutput::Char(c) => OutModel::Char(c),
        RbOutput::Str(s) => OutModel::Text(s@),
        RbOutput::Array(items) => OutModel::Array(outs_view(items@)),
        RbOutput::Hash(entries) => OutModel::Hash(entries_view(entries@)),
        RbOutput::Variant { name, value } => OutModel::Variant(name@, Box::new(out_view(*value))),
        RbOutput::Outcome { ok, value } => OutModel::Outcome(ok, Box::new(out_view(*value))),
    }
}

/// The values of a sequence of Ruby objects to build.
pub open spec fn outs_view(items: Seq<RbOutput>) -> Seq<OutModel>
    decreases items,
{
    if items.len() == 0 {
        Seq::empty()
    } else {
        outs_view(items.drop_last()).push(out_view(items.last()))
    }
}

/// The values of the entries of a `Hash` to build.
pub open spec fn entries_view(entries: Seq<(String, RbOutput)>) -> Seq<(Seq<char>, OutModel)>
    decreases entries,
{
    if entries.len() == 0 {
        Seq::empty()
    } else {
        entries_view(entries.drop_last()).push((entries.last().0@, out_view(entries.last().1)))
    }
}

/// The value of a conversion's outcome.
pub open spec fn output_view(r: Result<RbOutput, RbError>) -> Result<OutModel, ErrView> {
    match r {
        Ok(o) => Ok(out_view(o)),
        Err(e) => Err(err_view(e)),
    }
}

/// The message of the error for a resource.
pub open spec fn resource_message() -> Seq<char> {
    "Resource not implemented"@
}

/// What converting the component value `v` to Ruby gives.
pub open spec fn to_rb(v: ValModel) -> Result<OutModel, ErrView>
    decreases v, 0nat,
{
    match v {
        ValModel::Bool(b) => Ok(OutModel::Bool(b)),
        ValModel::S8(x) => Ok(OutModel::Integer(x as int)),
        ValModel::U8(x) => Ok(OutModel::Integer(x as int)),
        ValModel::S16(x) => Ok(OutModel::Integer(x as int)),
        ValModel::U16(x) => Ok(OutModel::Integer(x as int)),
        ValModel::S32(x) => Ok(OutModel::Integer(x as int)),
        ValModel::U32(x) => Ok(OutModel::Integer(x as int)),
        ValModel::S64(x) => Ok(OutModel::Integer(x as int)),
        ValModel::U64(x) => Ok(OutModel::Integer(x as int)),
        ValModel::Float32(b) => Ok(OutModel::Float32(b)),
        ValModel::Float64(b) => Ok(OutModel::Float64(b)),
        ValModel::Char(c) => Ok(OutModel::Char(c)),
        ValModel::Text(s) => Ok(OutModel::Text(s)),
        ValModel::List(vs) => match list_rb(vs) {
            Ok(os) => Ok(OutModel::Array(os)),
            Err(e) => Err(e),
        },
        ValModel::Tuple(vs) => match list_rb(vs) {
            Ok(os) => Ok(OutModel::Array(os)),
            Err(e) => Err(e),
        },
        ValModel::Record(fs) => match record_rb(fs) {
            Ok(es) => Ok(OutModel::Hash(es)),
            Err(e) => Err(e),
        },
        ValModel::Variant(name, p) => match p {
            Some(pv) => match to_rb(*pv) {
                Ok(o) => Ok(OutModel::Variant(name, Box::new(o))),
                Err(e) => Err(e),
            },
            None => Ok(OutModel::Variant(name, Box::new(OutModel::Nil))),
        },
        ValModel::Enum(name) => Ok(OutModel::Text(name)),
        ValModel::Optional(p) => match p {
            Some(pv) => to_rb(*pv),
            None => Ok(OutModel::Nil),
        },
        ValModel::Outcome(ok, p) => match p {
            Some(pv) => match to_rb(*pv) {
                Ok(o) => Ok(OutModel::Outcome(ok, Box::new(o))),
                Err(e) => Err(e),
            },
            None => Ok(OutModel::Outcome(ok, Box::new(OutModel::Nil))),
        },
        ValModel::Flags(names) => Ok(OutModel::Array(names.map_values(|n: Seq<char>| OutModel::Text(n)))),
        ValModel::Resource => Err(ErrView::Raised(ErrorClass::NotImplemented, resource_message())),
    }
}

/// The items of a list or tuple converted to Ruby; the first error, if any.
pub open spec fn list_rb(vs: Seq<ValModel>) -> Result<Seq<OutModel>, ErrView>
    decreases vs, 0nat,
{
    if vs.len() == 0 {
        Ok(Seq::empty())
    } else {
        match list_rb(vs.drop_last()) {
            Err(e) => Err(e),
            Ok(os) => match to_rb(vs.last()) {
                Ok(o) => Ok(os.push(o)),
                Err(e) => Err(e),
            },
        }
    }
}

/// The fields of a record converted to the entries of a `Hash`; the first
/// error, with the field's name, if any.
pub open spec fn record_rb(fs: Seq<(Seq<char>, ValModel)>) -> Result<Seq<(Seq<char>, OutModel)>, ErrView>
    decreases fs, 0nat,
{
    if fs.len() == 0 {
        Ok(Seq::empty())
    } else {
        match record_rb(fs.drop_last()) {
            Err(e) => Err(e),
            Ok(es) => match to_rb(fs.last().1) {
                Ok(o) => Ok(es.push((fs.last().0, o))),
                Err(e) => Err(with_context(e, struct_field_context(fs.last().0))),
            },
        }
    }
}

proof fn lemma_outs_push(items: Seq<RbOutput>, o: RbOutput)
    ensures
        outs_view(items.push(o)) == outs_view(items).push(out_view(o)),
{
    assert(items.push(o).drop_last() =~= items);
}

proof fn lemma_entries_push(entries: Seq<(String, RbOutput)>, e: (String, RbOutput))
    ensures
        entries_view(entries.push(e)) == entries_view(entries).push((e.0@, out_view(e.1))),
{
    assert(entries.push(e).drop_last() =~= entries);
}

proof fn lemma_vals_take(vs: Seq<ComponentVal>, i: int)
    requires
        0 <= i < vs.len(),
    ensures
        vals_view(vs.take(i + 1)) == vals_view(vs.take(i)).push(val_view(vs[i])),
        vals_view(vs.take(i + 1)).drop_last() == vals_view(vs.take(i)),
        vals_view(vs.take(i + 1)).last() == val_view(vs[i]),
        vals_view(vs.take(i + 1)).len() > 0,
{
    assert(vs.take(i + 1).drop_last() =~= vs.take(i));
}

proof fn lemma_fields_take(fs: Seq<(String, ComponentVal)>, i: int)
    requires
        0 <= i < fs.len(),
    ensures
        fields_view(fs.take(i + 1)) == fields_view(fs.take(i)).push((fs[i].0@, val_view(fs[i].1))),
        fields_view(fs.take(i + 1)).drop_last() == fields_view(fs.take(i)),
        fields_view(fs.take(i + 1)).last() == (fs[i].0@, val_view(fs[i].1)),
        fields_view(fs.take(i + 1)).len() > 0,
{
    assert(fs.take(i + 1).drop_last() =~= fs.take(i));
}

/// Once a prefix of the items fails, the whole list fails with its error.
proof fn lemma_list_rb_err_prefix(vs: Seq<ComponentVal>, k: int)
    requires
        0 <= k <= vs.len(),
        list_rb(vals_view(vs.take(k))) is Err,
    ensures
        list_rb(vals_view(vs)) == list_rb(vals_view(vs.take(k))),
    decreases vs.len(),
{
    if vs.len() == k {
        assert(vs.take(k) =~= vs);
    } else {
        assert(vs.drop_last().take(k) =~= vs.take(k));
        assert(vals_view(vs).drop_last() =~= vals_view(vs.drop_last()));
        lemma_list_rb_err_prefix(vs.drop_last(), k);
    }
}

/// Once a prefix of the fields fails, the whole record fails with its error.
proof fn lemma_record_rb_err_prefix(fs: Seq<(String, ComponentVal)>, k: int)
    requires
        0 <= k <= fs.len(),
        record_rb(fields_view(fs.take(k))) is Err,
    ensures
        record_rb(fields_view(fs)) == record_rb(fields_view(fs.take(k))),
    decreases fs.len(),
{
    if fs.len() == k {
        assert(fs.take(k) =~= fs);
    } else {
        assert(fs.drop_last().take(k) =~= fs.take(k));
        assert(fields_view(fs).drop_last() =~= fields_view(fs.drop_last()));
        lemma_record_rb_err_prefix(fs.drop_last(), k);
    }
}

/// The Ruby objects for a sequence of component values.
#[verifier::loop_isolation(false)]
fn list_to_rb(vs: &Vec<ComponentVal>) -> (r: Result<Vec<RbOutput>, RbError>)
    ensures
        match r {
            Ok(os) => list_rb(vals_view(vs@)) == Ok::<Seq<OutModel>, ErrView>(outs_view(os@)),
            Err(e) => list_rb(vals_view(vs@)) == Err::<Seq<OutModel>, ErrView>(err_view(e)),
        },
    decreases vs, 0nat,
{
    let mut out: Vec<RbOutput> = Vec::new();
    let mut i: usize = 0;
    assert(vs@.take(0) =~= Seq::<ComponentVal>::empty());
    while i < vs.len()
        invariant
            i <= vs@.len(),
            list_rb(vals_view(vs@.take(i as int))) == Ok::<Seq<OutModel>, ErrView>(outs_view(out@)),
        decreases vs@.len() - i,
    {
        proof { lemma_vals_take(vs@, i as int); }
        match component_val_to_rb(&vs[i]) {
            Ok(o) => {
                proof { lemma_outs_push(out@, o); }
                out.push(o);
            },
            Err(e) => {
                proof { lemma_list_rb_err_prefix(vs@, i + 1); }
                return Err(e);
            },
        }
        i = i + 1;
    }
    assert(vs@.take(vs@.len() as int) =~= vs@);
    Ok(out)
}

/// The `Hash` entries for the fields of a record.
#[verifier::loop_isolation(false)]
fn record_to_rb(fs: &Vec<(String, ComponentVal)>) -> (r: Result<Vec<(String, RbOutput)>, RbError>)
    ensures
        match r {
            Ok(es) => record_rb(fields_view(fs@)) == Ok::<Seq<(Seq<char>, OutModel)>, ErrView>(entries_view(es@)),
            Err(e) => record_rb(fields_view(fs@)) == Err::<Seq<(Seq<char>, OutModel)>, ErrView>(err_view(e)),
        },
    decreases fs, 0nat,
{
    let mut out: Vec<(String, RbOutput)> = Vec::new();
    let mut i: usize = 0;
    assert(fs@.take(0) =~= Seq::<(String, ComponentVal)>::empty());
    while i < fs.len()
        invariant
            i <= fs@.len(),
            record_rb(fields_view(fs@.take(i as int))) == Ok::<Seq<(Seq<char>, OutModel)>, ErrView>(entries_view(out@)),
        decreases fs@.len() - i,
    {
        proof { lemma_fields_take(fs@, i as int); }
        match component_val_to_rb(&fs[i].1) {
            Ok(o) => {
                let e = (fs[i].0.clone(), o);
                proof { lemma_entries_push(out@, e); }
                out.push(e);
            },
            Err(e) => {
                let ctx = framed(" (struct field \"", fs[i].0.as_str(), "\")");
                let r = e.append(ctx.as_str());
                proof { lemma_record_rb_err_prefix(fs@, i + 1); }
                return Err(r);
            },
        }
        i = i + 1;
    }
    assert(fs@.take(fs@.len() as int) =~= fs@);
    Ok(out)
}

/// The Ruby object for the payload of a variant case or result branch:
/// the payload's object, or `nil` for none.
fn payload_to_rb(p: &Option<Box<ComponentVal>>) -> (r: Result<RbOutput, RbError>)
    ensures
        match p {
            Some(v) => output_view(r) == to_rb(val_view(**v)),
            None => output_view(r) == Ok::<OutModel, ErrView>(OutModel::Nil),
        },
    decreases p, 0nat,
{
    match p {
        Some(v) => component_val_to_rb(&**v),
        None => Ok(RbOutput::Nil),
    }
}

/// Converts a component value to the Ruby object that stands for it.
pub fn component_val_to_rb(val: &ComponentVal) -> (r: Result<RbOutput, RbError>)
    ensures
        output_view(r) == to_rb(val_view(*val)),
    decreases val, 1nat,
{
    match val {
        ComponentVal::Bool(b) => Ok(RbOutput::Bool(*b)),
        ComponentVal::S8(x) => Ok(RbOutput::Integer(*x as i128)),
        ComponentVal::U8(x) => Ok(RbOutput::Integer(*x as i128)),
        ComponentVal::S16(x) => Ok(RbOutput::Integer(*x as i128)),
        ComponentVal::U16(x) => Ok(RbOutput::Integer(*x as i128)),
        ComponentVal::S32(x) => Ok(RbOutput::Integer(*x as i128)),
        ComponentVal::U32(x) => Ok(RbOutput::Integer(*x as i128)),
        ComponentVal::S64(x) => Ok(RbOutput::Integer(*x as i128)),
        ComponentVal::U64(x) => Ok(RbOutput::Integer(*x as i128)),
        ComponentVal::Float32(b) => Ok(RbOutput::Float32(*b)),
        ComponentVal::Float64(b) => Ok(RbOutput::Float64(*b)),
        ComponentVal::Char(c) => {
            proof { lemma_char_view(*c); }
            Ok(RbOutput::Char(*c))
        },
        ComponentVal::String(s) => Ok(RbOutput::Str(s.clone())),
        ComponentVal::List(vs) => match list_to_rb(vs) {
            Ok(os) => Ok(RbOutput::Array(os)),
            Err(e) => Err(e),
        },
        ComponentVal::Tuple(vs) => match list_to_rb(vs) {
            Ok(os) => Ok(RbOutput::Array(os)),
            Err(e) => Err(e),
        },
        ComponentVal::Record(fs) => match record_to_rb(fs) {
            Ok(es) => Ok(RbOutput::Hash(es)),
            Err(e) => Err(e),
        },
        ComponentVal::Variant(name, p) => match payload_to_rb(p) {
            Ok(o) => Ok(RbOutput::Variant { name: name.clone(), value: Box::new(o) }),
            Err(e) => Err(e),
        },
        ComponentVal::Enum(name) => Ok(RbOutput::Str(name.clone())),
        ComponentVal::Option(p) => payload_to_rb(p),
        ComponentVal::Result(r) => match r {
            Ok(p) => match payload_to_rb(p) {
                Ok(o) => Ok(RbOutput::Outcome { ok: true, value: Box::new(o) }),
                Err(e) => Err(e),
            },
            Err(p) => match payload_to_rb(p) {
                Ok(o) => Ok(RbOutput::Outcome { ok: false, value: Box::new(o) }),
                Err(e) => Err(e),
            },
        },
        ComponentVal::Flags(names) => {
            let mut out: Vec<RbOutput> = Vec::new();
            let mut i: usize = 0;
            while i < names.len()
                invariant
                    i <= names@.len(),
                    outs_view(out@) == names_view(names@.take(i as int)).map_values(|n: Seq<char>| OutModel::Text(n)),
                decreases names@.len() - i,
            {
                let o = RbOutput::Str(names[i].clone());
                proof {
                    lemma_outs_push(out@, o);
                    assert(names_view(names@.take(i + 1)).map_values(|n: Seq<char>| OutModel::Text(n)) =~=
                        names_view(names@.take(i as int)).map_values(|n: Seq<char>| OutModel::Text(n)).push(OutModel::Text(names@[i as int]@)));
                }
                out.push(o);
                i = i + 1;
            }
            assert(names@.take(names@.len() as int) =~= names@);
            Ok(RbOutput::Array(out))
        },
        ComponentVal::Resource => Err(RbError::Error {
            class: ErrorClass::NotImplemented,
            message: String::from_str("Resource not implemented"),
        }),
    }
}

// ---------------------------------------------------------------------------
// From a component value to Ruby and back
// ---------------------------------------------------------------------------

/// Whether `v` is a value of type `t`. A record's fields come in the
/// type's order, under distinct names; an `option` holds no value that
/// Ruby shows as `nil` (as `none` of an inner option is).
pub open spec fn has_type(v: ValModel, t: ComponentType) -> bool
    decreases t,
{
    match t {
        ComponentType::Bool => v is Bool,
        ComponentType::S8 => v is S8,
        ComponentType::U8 => v is U8,
        ComponentType::S16 => v is S16,
        ComponentType::U16 => v is U16,
        ComponentType::S32 => v is S32,
        ComponentType::U32 => v is U32,
        ComponentType::S64 => v is S64,
        ComponentType::U64 => v is U64,
        ComponentType::Float32 => v is Float32,
        ComponentType::Float64 => v is Float64,
        ComponentType::Char => v is Char,
        ComponentType::String => v is Text,
        ComponentType::Enum(_) => v is Enum,
        ComponentType::Flags(_) => v is Flags,
        ComponentType::List(inner) => match v {
            ValModel::List(vs) => forall|i: int| 0 <= i < vs.len() ==> has_type(#[trigger] vs[i], *inner),
            _ => false,
        },
        ComponentType::Tuple(types) => match v {
            ValModel::Tuple(vs) => vs.len() == types@.len()
                && forall|i: int| 0 <= i < vs.len() ==> has_type(#[trigger] vs[i], types@[i]),
            _ => false,
        },
        ComponentType::Record(fields) => match v {
            ValModel::Record(fs) => fs.len() == fields@.len()
                && (forall|i: int| 0 <= i < fs.len() ==> (#[trigger] fs[i]).0 == fields@[i].name@
                    && has_type(fs[i].1, fields@[i].ty))
                && forall|i: int, j: int| 0 <= i < j < fs.len() ==> (#[trigger] fs[i]).0 != (#[trigger] fs[j]).0,
            _ => false,
        },
        ComponentType::Variant(cases) => match v {
            ValModel::Variant(name, p) => match find_case(cases@, name) {
                Some(i) => 0 <= i < cases@.len() && match cases@[i].ty {
                    Some(pt) => (p matches Some(x) && has_type(*x, pt)),
                    None => p is None,
                },
                None => false,
            },
            _ => false,
        },
        ComponentType::Option(inner) => match v {
            ValModel::Optional(p) => match p {
                Some(x) => has_type(*x, *inner) && to_rb(*x) != Ok::<OutModel, ErrView>(OutModel::Nil),
                None => true,
            },
            _ => false,
        },
        ComponentType::Result { ok, err } => match v {
            ValModel::Outcome(b, p) => {
                let branch = if b { ok } else { err };
                match branch {
                    Some(bt) => (p matches Some(x) && has_type(*x, *bt)),
                    None => p is None,
                }
            },
            _ => false,
        },
    }
}

/// Whether an integer's conversion to a type answers the integer when it
/// fits the type.
pub open spec fn reads_int<T>(i: int, min: int, max: int, r: Result<T, RbError>, as_int: spec_fn(T) -> int) -> bool {
    min <= i <= max ==> (r matches Ok(x) && as_int(x) == i)
}

/// Whether `n` is what Ruby gives back, conversion by conversion, for the
/// object built from `o`: the conversions that fit `o` answer its content.
pub open spec fn reads_back(n: RbInput, o: OutModel) -> bool
    decreases o,
{
    match o {
        OutModel::Nil => n.kind == RbKind::Nil,
        OutModel::Bool(b) => n.kind == (if b { RbKind::True } else { RbKind::False }),
        OutModel::Integer(i) => {
            &&& n.kind == RbKind::Other
            &&& reads_int(i, i8::MIN as int, i8::MAX as int, n.as_s8, |x: i8| x as int)
            &&& reads_int(i, u8::MIN as int, u8::MAX as int, n.as_u8, |x: u8| x as int)
            &&& reads_int(i, i16::MIN as int, i16::MAX as int, n.as_s16, |x: i16| x as int)
            &&& reads_int(i, u16::MIN as int, u16::MAX as int, n.as_u16, |x: u16| x as int)
            &&& reads_int(i, i32::MIN as int, i32::MAX as int, n.as_s32, |x: i32| x as int)
            &&& reads_int(i, u32::MIN as int, u32::MAX as int, n.as_u32, |x: u32| x as int)
            &&& reads_int(i, i64::MIN as int, i64::MAX as int, n.as_s64, |x: i64| x as int)
            &&& reads_int(i, u64::MIN as int, u64::MAX as int, n.as_u64, |x: u64| x as int)
        },
        OutModel::Float32(b) => n.kind == RbKind::Other && n.as_f32 == Ok::<u32, RbError>(b),
        OutModel::Float64(b) => n.kind == RbKind::Other && n.as_f64 == Ok::<u64, RbError>(b),
        OutModel::Char(c) => n.kind == RbKind::Other && n.as_char == Ok::<char, RbError>(c),
        OutModel::Text(s) => n.kind == RbKind::Other && (n.as_string matches Ok(t) && t@ == s),
        OutModel::Array(os) => {
            &&& n.kind == RbKind::Other
            &&& (n.as_array matches Ok(items) && items@.len() == os.len()
                && forall|i: int| 0 <= i < os.len() ==> reads_back(#[trigger] items@[i], os[i]))
            &&& (forall|i: int| 0 <= i < os.len() ==> (#[trigger] os[i]) is Text) ==>
                (n.as_flags matches Ok(f) && names_view(f@) == os.map_values(|x: OutModel| x->Text_0))
        },
        OutModel::Hash(es) => {
            &&& n.kind == RbKind::Other
            &&& (n.as_hash matches Ok(entries)
                && forall|i: int| 0 <= i < es.len() ==>
                    (hash_get(entries@, (#[trigger] es[i]).0) matches Some(m) && reads_back(m, es[i].1)))
        },
        OutModel::Variant(name, payload) => {
            &&& n.kind == RbKind::Other
            &&& (n.variant_name matches Ok(s) && s@ == name)
            &&& (n.variant_value matches Ok(m) && reads_back(*m, *payload))
        },
        OutModel::Outcome(b, payload) => {
            &&& n.kind == RbKind::Other
            &&& n.is_ok == Ok::<bool, RbError>(b)
            &&& if b {
                (n.ok_value matches Ok(m) && reads_back(*m, *payload))
            } else {
                (n.error_value matches Ok(m) && reads_back(*m, *payload))
            }
        },
    }
}

proof fn lemma_list_rb_ok(vs: Seq<ValModel>)
    requires
        forall|i: int| 0 <= i < vs.len() ==> (#[trigger] to_rb(vs[i])) is Ok,
    ensures
        list_rb(vs) is Ok,
        list_rb(vs)->Ok_0.len() == vs.len(),
        forall|i: int| 0 <= i < vs.len() ==> list_rb(vs)->Ok_0[i] == (#[trigger] to_rb(vs[i]))->Ok_0,
    decreases vs.len(),
{
    if vs.len() > 0 {
        let init = vs.drop_last();
        assert forall|i: int| 0 <= i < init.len() implies (#[trigger] to_rb(init[i])) is Ok by {
            assert(init[i] == vs[i]);
        }
        lemma_list_rb_ok(init);
        assert(to_rb(vs[vs.len() - 1]) is Ok);
        assert forall|i: int| 0 <= i < vs.len() implies list_rb(vs)->Ok_0[i] == (#[trigger] to_rb(vs[i]))->Ok_0 by {
            if i < vs.len() - 1 {
                assert(init[i] == vs[i]);
            }
        }
    }
}

proof fn lemma_record_rb_ok(fs: Seq<(Seq<char>, ValModel)>)
    requires
        forall|i: int| 0 <= i < fs.len() ==> (#[trigger] to_rb(fs[i].1)) is Ok,
    ensures
        record_rb(fs) is Ok,
        record_rb(fs)->Ok_0.len() == fs.len(),
        forall|i: int| 0 <= i < fs.len() ==> record_rb(fs)->Ok_0[i] == (fs[i].0, (#[trigger] to_rb(fs[i].1))->Ok_0),
    decreases fs.len(),
{
    if fs.len() > 0 {
        let init = fs.drop_last();
        assert forall|i: int| 0 <= i < init.len() implies (#[trigger] to_rb(init[i].1)) is Ok by {
            assert(init[i] == fs[i]);
        }
        lemma_record_rb_ok(init);
        assert(to_rb(fs[fs.len() - 1].1) is Ok);
        assert forall|i: int| 0 <= i < fs.len() implies record_rb(fs)->Ok_0[i] == (fs[i].0, (#[trigger] to_rb(fs[i].1))->Ok_0) by {
            if i < fs.len() - 1 {
                assert(init[i] == fs[i]);
            }
        }
    }
}

/// Every value of a type converts to a Ruby object.
pub proof fn lemma_to_rb_ok(v: ValModel, t: ComponentType)
    requires
        has_type(v, t),
    ensures
        to_rb(v) is Ok,
    decreases t,
{
    match t {
        ComponentType::List(inner) => {
            let vs = v->List_0;
            assert forall|i: int| 0 <= i < vs.len() implies (#[trigger] to_rb(vs[i])) is Ok by {
                lemma_to_rb_ok(vs[i], *inner);
            }
            lemma_list_rb_ok(vs);
        },
        ComponentType::Tuple(types) => {
            let vs = v->Tuple_0;
            assert forall|i: int| 0 <= i < vs.len() implies (#[trigger] to_rb(vs[i])) is Ok by {
                lemma_to_rb_ok(vs[i], types@[i]);
            }
            lemma_list_rb_ok(vs);
        },
        ComponentType::Record(fields) => {
            let fs = v->Record_0;
            assert forall|i: int| 0 <= i < fs.len() implies (#[trigger] to_rb(fs[i].1)) is Ok by {
                assert(fs[i].0 == fields@[i].name@);
                lemma_to_rb_ok(fs[i].1, fields@[i].ty);
            }
            lemma_record_rb_ok(fs);
        },
        ComponentType::Variant(cases) => {
            let i = find_case(cases@, v->Variant_0).unwrap();
            match cases@[i].ty {
                Some(pt) => {
                    assert(decreases_to!(t => pt)) by {
                        assert(decreases_to!(t => cases));
                        assert(decreases_to!(cases => cases@));
                        assert(decreases_to!(cases@ => cases@[i]));
                        assert(decreases_to!(cases@[i] => cases@[i].ty));
                    }
                    lemma_to_rb_ok(*v->Variant_1.unwrap(), pt);
                },
                None => {},
            }
        },
        ComponentType::Option(inner) => {
            match v->Optional_0 {
                Some(x) => lemma_to_rb_ok(*x, *inner),
                None => {},
            }
        },
        ComponentType::Result { ok, err } => {
            let b = v->Outcome_0;
            let branch = if b { ok } else { err };
            match branch {
                Some(bt) => lemma_to_rb_ok(*v->Outcome_1.unwrap(), *bt),
                None => {},
            }
        },
        _ => {},
    }
}

proof fn lemma_list_roundtrip(vs: Seq<ValModel>, items: Seq<RbInput>, t: ComponentType)
    requires
        items.len() == vs.len(),
        forall|i: int| 0 <= i < vs.len() ==> has_type(#[trigger] vs[i], t),
        forall|i: int| 0 <= i < vs.len() ==> reads_back(#[trigger] items[i], to_rb(vs[i])->Ok_0),
    ensures
        list_vals(items, t) == Ok::<Seq<ValModel>, ErrView>(vs),
    decreases t, items.len(),
{
    if items.len() > 0 {
        let k = items.len() - 1;
        assert forall|i: int| 0 <= i < k implies has_type(#[trigger] vs.drop_last()[i], t)
            && reads_back(items.drop_last()[i], to_rb(vs.drop_last()[i])->Ok_0) by {
            assert(vs.drop_last()[i] == vs[i]);
            assert(items.drop_last()[i] == items[i]);
            assert(has_type(vs[i], t));
            assert(reads_back(items[i], to_rb(vs[i])->Ok_0));
        }
        lemma_list_roundtrip(vs.drop_last(), items.drop_last(), t);
        assert(has_type(vs[k], t));
        assert(reads_back(items[k], to_rb(vs[k])->Ok_0));
        lemma_roundtrip(vs[k], t, items[k]);
        assert(vs.drop_last().push(vs[k]) =~= vs);
    } else {
        assert(vs =~= Seq::<ValModel>::empty());
    }
}

proof fn lemma_tuple_roundtrip(vs: Seq<ValModel>, items: Seq<RbInput>, types: Seq<ComponentType>)
    requires
        items.len() == vs.len(),
        types.len() == vs.len(),
        forall|i: int| 0 <= i < vs.len() ==> has_type(#[trigger] vs[i], types[i]),
        forall|i: int| 0 <= i < vs.len() ==> reads_back(#[trigger] items[i], to_rb(vs[i])->Ok_0),
    ensures
        tuple_vals(items, types) == Ok::<Seq<ValModel>, ErrView>(vs),
    decreases types, 0nat,
{
    if items.len() > 0 {
        let k = items.len() - 1;
        assert forall|i: int| 0 <= i < k implies has_type(#[trigger] vs.drop_last()[i], types.drop_last()[i])
            && reads_back(items.drop_last()[i], to_rb(vs.drop_last()[i])->Ok_0) by {
            assert(vs.drop_last()[i] == vs[i]);
            assert(items.drop_last()[i] == items[i]);
            assert(types.drop_last()[i] == types[i]);
            assert(has_type(vs[i], types[i]));
            assert(reads_back(items[i], to_rb(vs[i])->Ok_0));
        }
        lemma_tuple_roundtrip(vs.drop_last(), items.drop_last(), types.drop_last());
        assert(has_type(vs[k], types[k]));
        assert(reads_back(items[k], to_rb(vs[k])->Ok_0));
        lemma_roundtrip(vs[k], types[k], items[k]);
        assert(vs.drop_last().push(vs[k]) =~= vs);
    } else {
        assert(vs =~= Seq::<ValModel>::empty());
    }
}

proof fn lemma_record_roundtrip(fs: Seq<(Seq<char>, ValModel)>, fields: Seq<RecordField>, entries: Seq<(String, RbInput)>)
    requires
        fs.len() == fields.len(),
        forall|i: int| 0 <= i < fs.len() ==> (#[trigger] fs[i]).0 == fields[i].name@ && has_type(fs[i].1, fields[i].ty),
        forall|i: int| 0 <= i < fs.len() ==>
            (hash_get(entries, (#[trigger] fs[i]).0) matches Some(m) && reads_back(m, to_rb(fs[i].1)->Ok_0)),
    ensures
        record_vals(entries, fields) == Ok::<Seq<(Seq<char>, ValModel)>, ErrView>(fs),
    decreases fields, 0nat,
{
    if fields.len() > 0 {
        let k = fields.len() - 1;
        assert forall|i: int| 0 <= i < k implies (#[trigger] fs.drop_last()[i]).0 == fields.drop_last()[i].name@
            && has_type(fs.drop_last()[i].1, fields.drop_last()[i].ty)
            && (hash_get(entries, fs.drop_last()[i].0) matches Some(m) && reads_back(m, to_rb(fs.drop_last()[i].1)->Ok_0)) by {
            assert(fs.drop_last()[i] == fs[i]);
            assert(fields.drop_last()[i] == fields[i]);
        }
        lemma_record_roundtrip(fs.drop_last(), fields.drop_last(), entries);
        assert(fs[k].0 == fields[k].name@);
        let m = hash_get(entries, fs[k].0).unwrap();
        lemma_roundtrip(fs[k].1, fields[k].ty, m);
        assert(fs.drop_last().push(fs[k]) =~= fs);
    } else {
        assert(fs =~= Seq::<(Seq<char>, ValModel)>::empty());
    }
}

/// A value of a type, converted to Ruby and read back with that type, is
/// the same value: whatever Ruby object `n` stands for the converted value,
/// as long as Ruby reads back what was built (`reads_back`).
pub proof fn lemma_roundtrip(v: ValModel, t: ComponentType, n: RbInput)
    requires
        has_type(v, t),
        reads_back(n, to_rb(v)->Ok_0),
    ensures
        to_rb(v) is Ok,
        to_val(n, t) == Ok::<ValModel, ErrView>(v),
    decreases t, 0nat,
{
    lemma_to_rb_ok(v, t);
    match t {
        ComponentType::List(inner) => {
            let vs = v->List_0;
            assert forall|i: int| 0 <= i < vs.len() implies (#[trigger] to_rb(vs[i])) is Ok by {
                lemma_to_rb_ok(vs[i], *inner);
            }
            lemma_list_rb_ok(vs);
            let os = list_rb(vs)->Ok_0;
            assert(to_rb(v)->Ok_0 == OutModel::Array(os));
            let items = n.as_array->Ok_0@;
            assert forall|i: int| 0 <= i < vs.len() implies reads_back(#[trigger] items[i], to_rb(vs[i])->Ok_0) by {
                assert(os[i] == to_rb(vs[i])->Ok_0);
            }
            lemma_list_roundtrip(vs, items, *inner);
        },
        ComponentType::Tuple(types) => {
            let vs = v->Tuple_0;
            assert forall|i: int| 0 <= i < vs.len() implies (#[trigger] to_rb(vs[i])) is Ok by {
                lemma_to_rb_ok(vs[i], types@[i]);
            }
            lemma_list_rb_ok(vs);
            let os = list_rb(vs)->Ok_0;
            assert(to_rb(v)->Ok_0 == OutModel::Array(os));
            let items = n.as_array->Ok_0@;
            assert forall|i: int| 0 <= i < vs.len() implies reads_back(#[trigger] items[i], to_rb(vs[i])->Ok_0) by {
                assert(os[i] == to_rb(vs[i])->Ok_0);
            }
            lemma_tuple_roundtrip(vs, items, types@);
        },
        ComponentType::Record(fields) => {
            let fs = v->Record_0;
            assert forall|i: int| 0 <= i < fs.len() implies (#[trigger] to_rb(fs[i].1)) is Ok by {
                assert(fs[i].0 == fields@[i].name@);
                lemma_to_rb_ok(fs[i].1, fields@[i].ty);
            }
            lemma_record_rb_ok(fs);
            let es = record_rb(fs)->Ok_0;
            assert(to_rb(v)->Ok_0 == OutModel::Hash(es));
            let entries = n.as_hash->Ok_0@;
            assert forall|i: int| 0 <= i < fs.len() implies
                (hash_get(entries, (#[trigger] fs[i]).0) matches Some(m) && reads_back(m, to_rb(fs[i].1)->Ok_0)) by {
                assert(es[i] == (fs[i].0, to_rb(fs[i].1)->Ok_0));
            }
            assert forall|i: int| 0 <= i < fs.len() implies (#[trigger] fs[i]).0 == fields@[i].name@
                && has_type(fs[i].1, fields@[i].ty) by {
            }
            lemma_record_roundtrip(fs, fields@, entries);
        },
        ComponentType::Variant(cases) => {
            let name = v->Variant_0;
            let i = find_case(cases@, name).unwrap();
            let m = *n.variant_value->Ok_0;
            assert(to_val(n, t) == case_val(m, cases@, i, name));
            match cases@[i].ty {
                Some(pt) => {
                    assert(decreases_to!(t => pt)) by {
                        assert(decreases_to!(t => cases));
                        assert(decreases_to!(cases => cases@));
                        assert(decreases_to!(cases@ => cases@[i]));
                        assert(decreases_to!(cases@[i] => cases@[i].ty));
                    }
                    let x = *v->Variant_1.unwrap();
                    lemma_roundtrip(x, pt, m);
                },
                None => {
                    assert(reads_back(m, OutModel::Nil));
                },
            }
        },
        ComponentType::Option(inner) => {
            match v->Optional_0 {
                Some(x) => {
                    lemma_roundtrip(*x, *inner, n);
                },
                None => {},
            }
        },
        ComponentType::Result { ok, err } => {
            let b = v->Outcome_0;
            let branch = if b { ok } else { err };
            match branch {
                Some(bt) => {
                    let x = *v->Outcome_1.unwrap();
                    let m = if b { *n.ok_value->Ok_0 } else { *n.error_value->Ok_0 };
                    lemma_roundtrip(x, *bt, m);
                },
                None => {
                    assert(to_rb(v)->Ok_0 == OutModel::Outcome(b, Box::new(OutModel::Nil)));
                    if b {
                        assert(reads_back(*n.ok_value->Ok_0, OutModel::Nil));
                    } else {
                        assert(reads_back(*n.error_value->Ok_0, OutModel::Nil));
                    }
                },
            }
        },
        ComponentType::Flags(_) => {
            let names = v->Flags_0;
            let os = names.map_values(|x: Seq<char>| OutModel::Text(x));
            assert(os.map_values(|x: OutModel| x->Text_0) =~= names);
        },
        _ => {},
    }
}

// ---------------------------------------------------------------------------
// Calls of component functions
// ---------------------------------------------------------------------------

/// The message of the error for a call with the wrong number of arguments.
pub open spec fn arity_message(given: nat, expected: nat) -> Seq<char> {
    "wrong number of arguments (given "@ + decimal(given) + ", expected "@ + decimal(expected) + ")"@
}

/// The text appended to an error in the argument at `index`.
pub open spec fn param_context(index: nat) -> Seq<char> {
    " (param at index "@ + decimal(index) + ")"@
}

/// The arguments converted to the parameter types, in order; the first
/// error, with the argument's index, if any.
pub open spec fn params_vals(args: Seq<RbInput>, types: Seq<ComponentType>) -> Result<Seq<ValModel>, ErrView>
    decreases args.len(),
{
    if args.len() == 0 || types.len() == 0 {
        Ok(Seq::empty())
    } else {
        match params_vals(args.drop_last(), types.drop_last()) {
            Err(e) => Err(e),
            Ok(vs) => if args.len() - 1 > u32::MAX {
                Err(ErrView::Raised(ErrorClass::Argument, "too many params"@))
            } else {
                match to_val(args.last(), types.last()) {
                    Ok(v) => Ok(vs.push(v)),
                    Err(e) => Err(with_context(e, param_context((args.len() - 1) as nat))),
                }
            },
        }
    }
}

/// What converting the arguments of a call gives: an `ArgumentError` when
/// their number is not the number of parameters, else the converted values.
pub open spec fn call_params(args: Seq<RbInput>, types: Seq<ComponentType>) -> Result<Seq<ValModel>, ErrView> {
    if args.len() != types.len() {
        Err(ErrView::Raised(ErrorClass::Argument, arity_message(args.len(), types.len())))
    } else {
        params_vals(args, types)
    }
}

/// The value of a sequence of conversions' outcome.
pub open spec fn results_view(r: Result<Vec<ComponentVal>, RbError>) -> Result<Seq<ValModel>, ErrView> {
    match r {
        Ok(vs) => Ok(vals_view(vs@)),
        Err(e) => Err(err_view(e)),
    }
}

proof fn lemma_params_err_prefix(args: Seq<RbInput>, types: Seq<ComponentType>, k: int)
    requires
        0 <= k <= args.len(),
        args.len() == types.len(),
        params_vals(args.take(k), types.take(k)) is Err,
    ensures
        params_vals(args, types) == params_vals(args.take(k), types.take(k)),
    decreases args.len(),
{
    if args.len() == k {
        assert(args.take(k) =~= args);
        assert(types.take(k) =~= types);
    } else {
        assert(args.drop_last().take(k) =~= args.take(k));
        assert(types.drop_last().take(k) =~= types.take(k));
        lemma_params_err_prefix(args.drop_last(), types.drop_last(), k);
    }
}

/// The text appended to an error in the argument at `index`.
fn param_context_text(index: usize) -> (s: String)
    ensures
        s@ == param_context(index as nat),
{
    let mut s = String::from_str(" (param at index ");
    let d = format_decimal(index as u64);
    s.append(d.as_str());
    s.append(")");
    s
}

/// Converts the arguments of a call of a component function to its
/// parameter types.
pub fn convert_params(args: &Vec<RbInput>, types: &Vec<ComponentType>) -> (r: Result<Vec<ComponentVal>, RbError>)
    ensures
        results_view(r) == call_params(args@, types@),
{
    if args.len() != types.len() {
        let mut m = String::from_str("wrong number of arguments (given ");
        m.append(format_decimal(args.len() as u64).as_str());
        m.append(", expected ");
        m.append(format_decimal(types.len() as u64).as_str());
        m.append(")");
        return Err(RbError::Error { class: ErrorClass::Argument, message: m });
    }
    let mut out: Vec<ComponentVal> = Vec::new();
    let mut i: usize = 0;
    assert(args@.take(0) =~= Seq::<RbInput>::empty());
    while i < args.len()
        invariant
            i <= args@.len(),
            args@.len() == types@.len(),
            params_vals(args@.take(i as int), types@.take(i as int)) == Ok::<Seq<ValModel>, ErrView>(vals_view(out@)),
        decreases args@.len() - i,
    {
        assert(args@.take(i + 1).drop_last() =~= args@.take(i as int));
        assert(types@.take(i + 1).drop_last() =~= types@.take(i as int));
        assert(args@.take(i + 1).last() == args@[i as int]);
        assert(types@.take(i + 1).last() == types@[i as int]);
        if i > 4294967295 {
            proof { lemma_params_err_prefix(args@, types@, i + 1); }
            return Err(RbError::Error { class: ErrorClass::Argument, message: String::from_str("too many params") });
        }
        match rb_to_component_val(&args[i], &types[i]) {
            Ok(v) => {
                proof { lemma_vals_push(out@, v); }
                out.push(v);
            },
            Err(e) => {
                let ctx = param_context_text(i);
                let r = e.append(ctx.as_str());
                proof { lemma_params_err_prefix(args@, types@, i + 1); }
                return Err(r);
            },
        }
        i = i + 1;
    }
    assert(args@.take(args@.len() as int) =~= args@);
    assert(types@.take(types@.len() as int) =~= types@);
    Ok(out)
}

/// What the results of a call give back to Ruby: `nil` for none, the
/// result for one, an `Array` of them for more.
pub open spec fn call_results(vs: Seq<ValModel>) -> Result<OutModel, ErrView> {
    if vs.len() == 0 {
        Ok(OutModel::Nil)
    } else if vs.len() == 1 {
        to_rb(vs[0])
    } else {
        match list_rb(vs) {
            Ok(os) => Ok(OutModel::Array(os)),
            Err(e) => Err(e),
        }
    }
}

/// Converts the results of a call of a component function to Ruby.
pub fn results_to_rb(results: &Vec<ComponentVal>) -> (r: Result<RbOutput, RbError>)
    ensures
        output_view(r) == call_results(vals_view(results@)),
{
    proof {
        lemma_vals_len(results@);
    }
    if results.len() == 0 {
        Ok(RbOutput::Nil)
    } else if results.len() == 1 {
        proof {
            assert(results@.drop_last() =~= Seq::<ComponentVal>::empty());
            assert(vals_view(results@)[0] == val_view(results@[0]));
        }
        component_val_to_rb(&results[0])
    } else {
        match list_to_rb(results) {
            Ok(os) => Ok(RbOutput::Array(os)),
            Err(e) => Err(e),
        }
    }
}

proof fn lemma_tuple_vals_items(items: Seq<RbInput>, types: Seq<ComponentType>, vs: Seq<ValModel>)
    requires
        items.len() == types.len(),
        tuple_vals(items, types) == Ok::<Seq<ValModel>, ErrView>(vs),
    ensures
        vs.len() == types.len(),
        forall|i: int| 0 <= i < types.len() ==> to_val(#[trigger] items[i], types[i]) == Ok::<ValModel, ErrView>(vs[i]),
    decreases types.len(),
{
    if types.len() > 0 {
        let prev = tuple_vals(items.drop_last(), types.drop_last());
        assert(prev is Ok);
        lemma_tuple_vals_items(items.drop_last(), types.drop_last(), prev->Ok_0);
        assert forall|i: int| 0 <= i < types.len() implies to_val(#[trigger] items[i], types[i]) == Ok::<ValModel, ErrView>(vs[i]) by {
            if i < types.len() - 1 {
                assert(items.drop_last()[i] == items[i]);
                assert(types.drop_last()[i] == types[i]);
            }
        }
    }
}

/// A Ruby value converts to a tuple only when it is an `Array` with as many
/// items as the tuple has types, and then each item of the tuple is the
/// conversion of the item at the same place to the type at that place.
pub proof fn lemma_tuple_arity(n: RbInput, types: Vec<ComponentType>, vs: Seq<ValModel>)
    requires
        to_val(n, ComponentType::Tuple(types)) == Ok::<ValModel, ErrView>(ValModel::Tuple(vs)),
    ensures
        n.as_array is Ok,
        n.as_array->Ok_0@.len() == types@.len(),
        vs.len() == types@.len(),
        forall|i: int| 0 <= i < types@.len()
            ==> to_val(#[trigger] n.as_array->Ok_0@[i], types@[i]) == Ok::<ValModel, ErrView>(vs[i]),
{
    lemma_tuple_vals_items(n.as_array->Ok_0@, types@, vs);
}

/// The model of a list of values has one entry per value.
pub proof fn lemma_vals_len(vs: Seq<ComponentVal>)
    ensures
        vals_view(vs).len() == vs.len(),
    decreases vs.len(),
{
    if vs.len() > 0 {
        lemma_vals_len(vs.drop_last());
    }
}

} // verus!
