//! Reading the members of a response object, each as the type that the
//! schema gives it.

use crate::client::{option_view, parse_body, parsed_body, text_view};
use crate::errors::{unparsable, Error, ErrorView};
use crate::json::{items_view, Json, JsonModel, Numeral, NumeralModel};
use vstd::prelude::*;

verus! {

/// A reference to another resource by its id.
#[derive(Debug)]
pub struct Object {
    pub id: u32,
}

/// A reference to another resource by its id, with the resource's name.
#[derive(Debug)]
pub struct NamedObject {
    pub id: u32,
    pub name: String,
}

/// A [`NamedObject`] as plain data.
pub struct NamedObjectView {
    pub id: u32,
    pub name: Seq<char>,
}

impl View for NamedObject {
    type V = NamedObjectView;

    open spec fn view(&self) -> NamedObjectView {
        NamedObjectView { id: self.id, name: self.name@ }
    }
}

/// An optional reference with a name, as plain data.
pub open spec fn named_view(named: Option<NamedObject>) -> Option<NamedObjectView> {
    match named {
        Some(n) => Some(n@),
        None => None,
    }
}

/// An optional number as plain data.
pub open spec fn numeral_view(number: Option<Numeral>) -> Option<NumeralModel> {
    match number {
        Some(n) => Some(n@),
        None => None,
    }
}

/// Whether `r` is the outcome of a decoding that the schema settles as
/// `expected`: the decoded value, or the parse error where there is none.
pub open spec fn decoded<T>(r: Result<T, Error>, expected: Option<T>) -> bool {
    match expected {
        Some(value) => r == Ok::<T, Error>(value),
        None => r matches Err(e) && e@ == ErrorView::Parse(unparsable()),
    }
}

/// The whole number that an object must hold under `key`.
pub open spec fn required_u32(j: JsonModel, key: Seq<char>) -> Option<u32> {
    match j.field(key) {
        Some(v) => v.as_u32(),
        None => None,
    }
}

/// The text that an object must hold under `key`.
pub open spec fn required_text(j: JsonModel, key: Seq<char>) -> Option<Seq<char>> {
    match j.field(key) {
        Some(v) => v.as_text(),
        None => None,
    }
}

/// The number that an object must hold under `key`.
pub open spec fn required_numeral(j: JsonModel, key: Seq<char>) -> Option<NumeralModel> {
    match j.field(key) {
        Some(v) => v.as_numeral(),
        None => None,
    }
}

/// The text that an object may hold under `key`: nothing where the member is
/// absent or `null`, no outcome where it holds something else.
pub open spec fn optional_text(j: JsonModel, key: Seq<char>) -> Option<Option<Seq<char>>> {
    match j.present(key) {
        None => Some(None),
        Some(v) => match v.as_text() {
            Some(t) => Some(Some(t)),
            None => None,
        },
    }
}

/// The truth value that an object may hold under `key`.
pub open spec fn optional_bool(j: JsonModel, key: Seq<char>) -> Option<Option<bool>> {
    match j.present(key) {
        None => Some(None),
        Some(v) => match v.as_bool() {
            Some(b) => Some(Some(b)),
            None => None,
        },
    }
}

/// The number that an object may hold under `key`.
pub open spec fn optional_numeral(j: JsonModel, key: Seq<char>) -> Option<Option<NumeralModel>> {
    match j.present(key) {
        None => Some(None),
        Some(v) => match v.as_numeral() {
            Some(n) => Some(Some(n)),
            None => None,
        },
    }
}

/// The reference that a value stands for: an object with a whole number
/// under `id`.
pub open spec fn object_of(v: JsonModel) -> Option<Object> {
    match required_u32(v, "id"@) {
        Some(id) => Some(Object { id }),
        None => None,
    }
}

/// The named reference that a value stands for: an object with a whole
/// number under `id` and a text under `name`.
pub open spec fn named_of(v: JsonModel) -> Option<NamedObjectView> {
    match (required_u32(v, "id"@), required_text(v, "name"@)) {
        (Some(id), Some(name)) => Some(NamedObjectView { id, name }),
        _ => None,
    }
}

/// The reference that an object must hold under `key`.
pub open spec fn required_object(j: JsonModel, key: Seq<char>) -> Option<Object> {
    match j.field(key) {
        Some(v) => object_of(v),
        None => None,
    }
}

/// The reference that an object may hold under `key`.
pub open spec fn optional_object(j: JsonModel, key: Seq<char>) -> Option<Option<Object>> {
    match j.present(key) {
        None => Some(None),
        Some(v) => match object_of(v) {
            Some(o) => Some(Some(o)),
            None => None,
        },
    }
}

/// The named reference that an object must hold under `key`.
pub open spec fn required_named(j: JsonModel, key: Seq<char>) -> Option<NamedObjectView> {
    match j.field(key) {
        Some(v) => named_of(v),
        None => None,
    }
}

/// The named reference that an object may hold under `key`.
pub open spec fn optional_named(j: JsonModel, key: Seq<char>) -> Option<Option<NamedObjectView>> {
    match j.present(key) {
        None => Some(None),
        Some(v) => match named_of(v) {
            Some(n) => Some(Some(n)),
            None => None,
        },
    }
}

/// Reads the whole number under `key`.
pub fn read_u32(j: &Json, key: &str) -> (r: Result<u32, Error>)
    ensures
        decoded(r, required_u32(j@, key@)),
{
    match j.get(key) {
        Some(v) => match v.as_u32() {
            Some(n) => Ok(n),
            None => Err(Error::parse()),
        },
        None => Err(Error::parse()),
    }
}

/// Reads the text under `key`.
pub fn read_text(j: &Json, key: &str) -> (r: Result<String, Error>)
    ensures
        match required_text(j@, key@) {
            Some(t) => r matches Ok(s) && s@ == t,
            None => r matches Err(e) && e@ == ErrorView::Parse(unparsable()),
        },
{
    match j.get(key) {
        Some(v) => match v.as_text() {
            Some(t) => Ok(t),
            None => Err(Error::parse()),
        },
        None => Err(Error::parse()),
    }
}

/// Reads the number under `key`.
pub fn read_numeral(j: &Json, key: &str) -> (r: Result<Numeral, Error>)
    ensures
        match required_numeral(j@, key@) {
            Some(n) => r matches Ok(got) && got@ == n,
            None => r matches Err(e) && e@ == ErrorView::Parse(unparsable()),
        },
{
    match j.get(key) {
        Some(v) => match v.as_numeral() {
            Some(n) => Ok(n),
            None => Err(Error::parse()),
        },
        None => Err(Error::parse()),
    }
}

/// Reads the text that may stand under `key`.
pub fn read_optional_text(j: &Json, key: &str) -> (r: Result<Option<String>, Error>)
    ensures
        match optional_text(j@, key@) {
            Some(t) => r matches Ok(s) && option_view(s) == t,
            None => r matches Err(e) && e@ == ErrorView::Parse(unparsable()),
        },
{
    match j.get_present(key) {
        None => Ok(None),
        Some(v) => match v.as_text() {
            Some(t) => Ok(Some(t)),
            None => Err(Error::parse()),
        },
    }
}

/// Reads the truth value that may stand under `key`.
pub fn read_optional_bool(j: &Json, key: &str) -> (r: Result<Option<bool>, Error>)
    ensures
        decoded(r, optional_bool(j@, key@)),
{
    match j.get_present(key) {
        None => Ok(None),
        Some(v) => match v.as_bool() {
            Some(b) => Ok(Some(b)),
            None => Err(Error::parse()),
        },
    }
}

/// Reads the number that may stand under `key`.
pub fn read_optional_numeral(j: &Json, key: &str) -> (r: Result<Option<Numeral>, Error>)
    ensures
        match optional_numeral(j@, key@) {
            Some(n) => r matches Ok(got) && numeral_view(got) == n,
            None => r matches Err(e) && e@ == ErrorView::Parse(unparsable()),
        },
{
    match j.get_present(key) {
        None => Ok(None),
        Some(v) => match v.as_numeral() {
            Some(n) => Ok(Some(n)),
            None => Err(Error::parse()),
        },
    }
}

impl Object {
    /// Reads a reference from the value that stands for it.
    pub fn decode(v: &Json) -> (r: Result<Object, Error>)
        ensures
            decoded(r, object_of(v@)),
    {
        match read_u32(v, "id") {
            Ok(id) => Ok(Object { id }),
            Err(e) => Err(e),
        }
    }
}

impl NamedObject {
    /// Reads a named reference from the value that stands for it.
    pub fn decode(v: &Json) -> (r: Result<NamedObject, Error>)
        ensures
            match named_of(v@) {
                Some(n) => r matches Ok(got) && got@ == n,
                None => r matches Err(e) && e@ == ErrorView::Parse(unparsable()),
            },
    {
        let id = match read_u32(v, "id") {
            Ok(id) => id,
            Err(e) => {
                return Err(e);
            },
        };
        match read_text(v, "name") {
            Ok(name) => Ok(NamedObject { id, name }),
            Err(e) => Err(e),
        }
    }
}

/// Reads the reference under `key`.
pub fn read_object(j: &Json, key: &str) -> (r: Result<Object, Error>)
    ensures
        decoded(r, required_object(j@, key@)),
{
    match j.get(key) {
        Some(v) => Object::decode(v),
        None => Err(Error::parse()),
    }
}

/// Reads the reference that may stand under `key`.
pub fn read_optional_object(j: &Json, key: &str) -> (r: Result<Option<Object>, Error>)
    ensures
        decoded(r, optional_object(j@, key@)),
{
    match j.get_present(key) {
        None => Ok(None),
        Some(v) => match Object::decode(v) {
            Ok(o) => Ok(Some(o)),
            Err(e) => Err(e),
        },
    }
}

/// Reads the named reference under `key`.
pub fn read_named(j: &Json, key: &str) -> (r: Result<NamedObject, Error>)
    ensures
        match required_named(j@, key@) {
            Some(n) => r matches Ok(got) && got@ == n,
            None => r matches Err(e) && e@ == ErrorView::Parse(unparsable()),
        },
{
    match j.get(key) {
        Some(v) => NamedObject::decode(v),
        None => Err(Error::parse()),
    }
}

/// Reads the named reference that may stand under `key`.
pub fn read_optional_named(j: &Json, key: &str) -> (r: Result<Option<NamedObject>, Error>)
    ensures
        match optional_named(j@, key@) {
            Some(n) => r matches Ok(got) && named_view(got) == n,
            None => r matches Err(e) && e@ == ErrorView::Parse(unparsable()),
        },
{
    match j.get_present(key) {
        None => Ok(None),
        Some(v) => match NamedObject::decode(v) {
            Ok(n) => Ok(Some(n)),
            Err(e) => Err(e),
        },
    }
}

/// A record of the service that is read from the JSON object that stands for it.
pub trait Resource: Sized + View {
    /// The record that a value stands for, or `None` where the value does
    /// not have the record's shape.
    spec fn of(j: JsonModel) -> Option<Self::V>;

    /// Reads the record from the value that stands for it.
    fn decode(j: &Json) -> (r: Result<Self, Error>)
        ensures
            match Self::of(j@) {
                Some(record) => r matches Ok(got) && got@ == record,
                None => r matches Err(e) && e@ == ErrorView::Parse(unparsable()),
            },
    ;
}

/// The records of a list as plain data.
pub open spec fn records_view<T: Resource>(records: Seq<T>) -> Seq<T::V> {
    Seq::new(records.len(), |i: int| records[i]@)
}

/// The records that the elements of an array stand for, or `None` where
/// one of them does not have the record's shape.
pub open spec fn all_of<T: Resource>(items: Seq<JsonModel>) -> Option<Seq<T::V>> {
    if forall|i: int| 0 <= i < items.len() ==> (#[trigger] T::of(items[i])) is Some {
        Some(Seq::new(items.len(), |i: int| T::of(items[i])->0))
    } else {
        None
    }
}

/// The records that an object must hold as an array under `key`.
pub open spec fn required_list<T: Resource>(j: JsonModel, key: Seq<char>) -> Option<Seq<T::V>> {
    match j.field(key) {
        Some(JsonModel::Array(items)) => all_of::<T>(items),
        _ => None,
    }
}

/// The record that an object must hold under `key`.
pub open spec fn required_record<T: Resource>(j: JsonModel, key: Seq<char>) -> Option<T::V> {
    match j.field(key) {
        Some(v) => T::of(v),
        None => None,
    }
}

/// Reads the records under `key`; none where one of them cannot be read.
pub fn read_list<T: Resource>(j: &Json, key: &str) -> (r: Result<Vec<T>, Error>)
    ensures
        match required_list::<T>(j@, key@) {
            Some(records) => r matches Ok(got) && records_view(got@) == records,
            None => r matches Err(e) && e@ == ErrorView::Parse(unparsable()),
        },
{
    let items = match j.get(key) {
        Some(v) => match v.elements() {
            Some(items) => items,
            None => {
                return Err(Error::parse());
            },
        },
        None => {
            return Err(Error::parse());
        },
    };
    let ghost models = items_view(items@);
    let mut out: Vec<T> = Vec::new();
    let mut i: usize = 0;
    while i < items.len()
        invariant
            i <= items@.len(),
            models == items_view(items@),
            j@.field(key@) == Some(JsonModel::Array(models)),
            out@.len() == i,
            forall|k: int| 0 <= k < i ==> (#[trigger] T::of(models[k])) == Some(out@[k]@),
        decreases items@.len() - i,
    {
        assert(models[i as int] == items@[i as int]@);
        match T::decode(&items[i]) {
            Ok(record) => {
                out.push(record);
            },
            Err(e) => {
                assert(T::of(models[i as int]) is None);
                assert(all_of::<T>(models) is None);
                return Err(e);
            },
        }
        i += 1;
    }
    assert(all_of::<T>(models) is Some);
    assert(records_view(out@) =~= all_of::<T>(models)->0);
    Ok(out)
}

/// Reads the record under `key`.
pub fn read_record<T: Resource>(j: &Json, key: &str) -> (r: Result<T, Error>)
    ensures
        match required_record::<T>(j@, key@) {
            Some(record) => r matches Ok(got) && got@ == record,
            None => r matches Err(e) && e@ == ErrorView::Parse(unparsable()),
        },
{
    match j.get(key) {
        Some(v) => T::decode(v),
        None => Err(Error::parse()),
    }
}

/// What a listing makes of what was fetched: the records under `key` of the
/// object in the body, a parse error where the body is not such an object; a
/// failure of the round trip stays as it is.
pub open spec fn listed<T: Resource>(
    key: Seq<char>,
    fetched: Result<Seq<char>, ErrorView>,
) -> Result<
    Seq<T::V>,
    ErrorView,
> {
    match parsed_body(fetched) {
        Ok(j) => match required_list::<T>(j, key) {
            Some(records) => Ok(records),
            None => Err(ErrorView::Parse(unparsable())),
        },
        Err(e) => Err(e),
    }
}

/// What a lookup makes of what was fetched: the record under `key` of the
/// object in the body, a parse error where the body is not such an object; a
/// failure of the round trip stays as it is.
pub open spec fn shown<T: Resource>(
    key: Seq<char>,
    fetched: Result<Seq<char>, ErrorView>,
) -> Result<
    T::V,
    ErrorView,
> {
    match parsed_body(fetched) {
        Ok(j) => match required_record::<T>(j, key) {
            Some(record) => Ok(record),
            None => Err(ErrorView::Parse(unparsable())),
        },
        Err(e) => Err(e),
    }
}

/// The result of a listing as plain data.
pub open spec fn list_view<T: Resource>(r: Result<Vec<T>, Error>) -> Result<Seq<T::V>, ErrorView> {
    match r {
        Ok(records) => Ok(records_view(records@)),
        Err(e) => Err(e@),
    }
}

/// The result of a lookup as plain data.
pub open spec fn record_view<T: Resource>(r: Result<T, Error>) -> Result<T::V, ErrorView> {
    match r {
        Ok(record) => Ok(record@),
        Err(e) => Err(e@),
    }
}

/// Reads the records under `key` from what a listing fetched.
pub fn finish_list<T: Resource>(fetched: Result<String, Error>, key: &str) -> (r: Result<
    Vec<T>,
    Error,
>)
    ensures
        list_view(r) == listed::<T>(key@, text_view(fetched)),
{
    let body = match fetched {
        Ok(body) => body,
        Err(e) => {
            return Err(e);
        },
    };
    match parse_body(body.as_str()) {
        Ok(j) => read_list::<T>(&j, key),
        Err(e) => Err(e),
    }
}

/// Reads the record under `key` from what a lookup fetched.
pub fn finish_record<T: Resource>(fetched: Result<String, Error>, key: &str) -> (r: Result<
    T,
    Error,
>)
    ensures
        record_view(r) == shown::<T>(key@, text_view(fetched)),
{
    let body = match fetched {
        Ok(body) => body,
        Err(e) => {
            return Err(e);
        },
    };
    match parse_body(body.as_str()) {
        Ok(j) => read_record::<T>(&j, key),
        Err(e) => Err(e),
    }
}

} // verus!
