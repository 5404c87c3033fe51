//! JSON values as plain data.

use crate::text::str_eq;
use serde_json::Value;
use vstd::prelude::*;

verus! {

/// A [`Numeral`] as plain data.
pub enum NumeralModel {
    Unsigned(u64),
    Signed(i64),
    Decimal(Seq<char>),
}

/// A [`Json`] as plain data.
pub enum JsonModel {
    Null,
    Bool(bool),
    Number(NumeralModel),
    Text(Seq<char>),
    Array(Seq<JsonModel>),
    Object(Seq<(Seq<char>, JsonModel)>),
}

/// A JSON number: a whole number, or the decimal text of any other.
#[derive(Debug)]
pub enum Numeral {
    /// A whole number that is not negative.
    Unsigned(u64),
    /// A whole number; a parsed one is negative.
    Signed(i64),
    /// Any other number, as JSON writes it, such as `3.4`. A text that is no
    /// JSON number is printed as `null`.
    Decimal(String),
}

/// A JSON value. An object holds its members in their order; a lookup finds
/// the first member of a key.
#[derive(Debug)]
pub enum Json {
    Null,
    Bool(bool),
    Number(Numeral),
    Text(String),
    Array(Vec<Json>),
    Object(Vec<(String, Json)>),
}

impl View for Numeral {
    type V = NumeralModel;

    open spec fn view(&self) -> NumeralModel {
        match self {
            Numeral::Unsigned(n) => NumeralModel::Unsigned(*n),
            Numeral::Signed(n) => NumeralModel::Signed(*n),
            Numeral::Decimal(s) => NumeralModel::Decimal(s@),
        }
    }
}

impl View for Json {
    type V = JsonModel;

    open spec fn view(&self) -> JsonModel
        decreases self,
    {
        match self {
            Json::Null => JsonModel::Null,
            Json::Bool(b) => JsonModel::Bool(*b),
            Json::Number(n) => JsonModel::Number(n@),
            Json::Text(s) => JsonModel::Text(s@),
            Json::Array(items) => JsonModel::Array(
                Seq::new(
                    items@.len(),
                    |i: int|
                        if 0 <= i < items@.len() {
                            items@[i].view()
                        } else {
                            JsonModel::Null
                        },
                ),
            ),
            Json::Object(fields) => JsonModel::Object(
                Seq::new(
                    fields@.len(),
                    |i: int|
                        if 0 <= i < fields@.len() {
                            (fields@[i].0@, fields@[i].1.view())
                        } else {
                            (Seq::empty(), JsonModel::Null)
                        },
                ),
            ),
        }
    }
}

/// The members of an object as plain data.
pub open spec fn members_view(fields: Seq<(String, Json)>) -> Seq<(Seq<char>, JsonModel)> {
    Seq::new(fields.len(), |i: int| (fields[i].0@, fields[i].1@))
}

/// The array of whole numbers that stands for a list of identifiers.
pub open spec fn ids_model(ids: Seq<u32>) -> JsonModel {
    JsonModel::Array(
        Seq::new(ids.len(), |i: int| JsonModel::Number(NumeralModel::Unsigned(ids[i] as u64))),
    )
}

/// `members`, followed by `key` with a whole number where there is one.
pub open spec fn with_u32(
    members: Seq<(Seq<char>, JsonModel)>,
    key: Seq<char>,
    value: Option<u32>,
) -> Seq<(Seq<char>, JsonModel)> {
    match value {
        Some(n) => members.push((key, JsonModel::Number(NumeralModel::Unsigned(n as u64)))),
        None => members,
    }
}

/// `members`, followed by `key` with a number where there is one.
pub open spec fn with_numeral(
    members: Seq<(Seq<char>, JsonModel)>,
    key: Seq<char>,
    value: Option<NumeralModel>,
) -> Seq<(Seq<char>, JsonModel)> {
    match value {
        Some(n) => members.push((key, JsonModel::Number(n))),
        None => members,
    }
}

/// `members`, followed by `key` with a text where the text is not empty.
pub open spec fn with_text(
    members: Seq<(Seq<char>, JsonModel)>,
    key: Seq<char>,
    value: Seq<char>,
) -> Seq<(Seq<char>, JsonModel)> {
    if value.len() == 0 {
        members
    } else {
        members.push((key, JsonModel::Text(value)))
    }
}

/// `members`, followed by `key` with a truth value.
pub open spec fn with_bool(
    members: Seq<(Seq<char>, JsonModel)>,
    key: Seq<char>,
    value: bool,
) -> Seq<(Seq<char>, JsonModel)> {
    members.push((key, JsonModel::Bool(value)))
}

/// `members`, followed by `key` with a list of identifiers where the list is
/// not empty.
pub open spec fn with_ids(
    members: Seq<(Seq<char>, JsonModel)>,
    key: Seq<char>,
    value: Seq<u32>,
) -> Seq<(Seq<char>, JsonModel)> {
    if value.len() == 0 {
        members
    } else {
        members.push((key, ids_model(value)))
    }
}

/// The object with the single member `key`, which holds the object of `members`.
pub open spec fn envelope(key: Seq<char>, members: Seq<(Seq<char>, JsonModel)>) -> JsonModel {
    JsonModel::Object(seq![(key, JsonModel::Object(members))])
}

/// The first member under `key` among `members`, or `None` where there is none.
pub open spec fn member(members: Seq<(Seq<char>, JsonModel)>, key: Seq<char>) -> Option<JsonModel>
    decreases members.len(),
{
    if members.len() == 0 {
        None
    } else if members.first().0 == key {
        Some(members.first().1)
    } else {
        member(members.drop_first(), key)
    }
}

/// The deepest nesting of arrays and objects that is printed.
pub const RENDER_DEPTH: usize = 64;

/// Whether every member is a scalar or an array or object of scalars.
pub open spec fn flat(members: Seq<(Seq<char>, JsonModel)>) -> bool {
    forall|i: int| 0 <= i < members.len() ==> (#[trigger] members[i]).1.within(1)
}

/// Appending a whole number, a number, a text, a truth value or a list of
/// identifiers to flat members leaves them flat.
pub proof fn lemma_flat(members: Seq<(Seq<char>, JsonModel)>, name: Seq<char>)
    requires
        flat(members),
    ensures
        forall|value: Option<u32>| flat(#[trigger] with_u32(members, name, value)),
        forall|value: Option<NumeralModel>| flat(#[trigger] with_numeral(members, name, value)),
        forall|value: Seq<char>| flat(#[trigger] with_text(members, name, value)),
        forall|value: bool| flat(#[trigger] with_bool(members, name, value)),
        forall|value: Seq<u32>| flat(#[trigger] with_ids(members, name, value)),
{
    assert forall|value: Seq<u32>| flat(#[trigger] with_ids(members, name, value)) by {
        reveal_with_fuel(JsonModel::within, 2);
        assert(ids_model(value).within(1));
    }
}

/// The envelope of flat members nests three deep.
pub proof fn lemma_envelope_depth(key: Seq<char>, members: Seq<(Seq<char>, JsonModel)>)
    requires
        flat(members),
    ensures
        envelope(key, members).within(3),
        envelope(key, members).within(RENDER_DEPTH as nat),
{
    let inner = JsonModel::Object(members);
    assert(inner.within(2));
    lemma_within_more(inner, 2, (RENDER_DEPTH - 1) as nat);
    let outer = seq![(key, inner)];
    assert(forall|i: int| 0 <= i < outer.len() ==> (#[trigger] outer[i]).1 == inner);
}

/// A value that nests at most `depth` deep nests at most any greater depth deep.
pub proof fn lemma_within_more(j: JsonModel, depth: nat, more: nat)
    requires
        j.within(depth),
        depth <= more,
    ensures
        j.within(more),
    decreases depth,
{
    match j {
        JsonModel::Array(items) => {
            assert forall|i: int| 0 <= i < items.len() implies (#[trigger] items[i]).within(
                (more - 1) as nat,
            ) by {
                lemma_within_more(items[i], (depth - 1) as nat, (more - 1) as nat);
            }
        },
        JsonModel::Object(members) => {
            assert forall|i: int| 0 <= i < members.len() implies (#[trigger] members[i]).1.within(
                (more - 1) as nat,
            ) by {
                lemma_within_more(members[i].1, (depth - 1) as nat, (more - 1) as nat);
            }
        },
        _ => {},
    }
}

/// The member that a field of whole-number kind contributes: none where the
/// field is not set.
pub open spec fn u32_member(value: Option<u32>) -> Option<JsonModel> {
    match value {
        Some(n) => Some(JsonModel::Number(NumeralModel::Unsigned(n as u64))),
        None => None,
    }
}

/// The member that a field of number kind contributes: none where the field
/// is not set.
pub open spec fn numeral_member(value: Option<NumeralModel>) -> Option<JsonModel> {
    match value {
        Some(n) => Some(JsonModel::Number(n)),
        None => None,
    }
}

/// The member that a field of text kind contributes: none where the text is
/// empty.
pub open spec fn text_member(value: Seq<char>) -> Option<JsonModel> {
    if value.len() == 0 {
        None
    } else {
        Some(JsonModel::Text(value))
    }
}

/// The member that a list of identifiers contributes: none where the list is
/// empty.
pub open spec fn ids_member(value: Seq<u32>) -> Option<JsonModel> {
    if value.len() == 0 {
        None
    } else {
        Some(ids_model(value))
    }
}

/// What a lookup finds after a member was appended where there was one to
/// append: the member that was found before, else the new one under its key.
pub open spec fn member_after(
    before: Option<JsonModel>,
    key: Seq<char>,
    added_key: Seq<char>,
    added: Option<JsonModel>,
) -> Option<JsonModel> {
    if before is Some {
        before
    } else if key == added_key {
        added
    } else {
        None
    }
}

/// A lookup in a list with one more member at its end finds what it found
/// before, else the new member where the key is its key.
pub proof fn lemma_member_push(
    members: Seq<(Seq<char>, JsonModel)>,
    added_key: Seq<char>,
    added: JsonModel,
    key: Seq<char>,
)
    ensures
        member(members.push((added_key, added)), key) == member_after(
            member(members, key),
            key,
            added_key,
            Some(added),
        ),
    decreases members.len(),
{
    let longer = members.push((added_key, added));
    if members.len() == 0 {
        assert(longer.first() == (added_key, added));
        assert(longer.drop_first() =~= Seq::empty());
        assert(member(longer.drop_first(), key) is None);
    } else {
        assert(longer.first() == members.first());
        assert(longer.drop_first() =~= members.drop_first().push((added_key, added)));
        lemma_member_push(members.drop_first(), added_key, added, key);
    }
}

/// A lookup after a whole number was appended where there was one.
pub proof fn lemma_with_u32(
    members: Seq<(Seq<char>, JsonModel)>,
    name: Seq<char>,
    value: Option<u32>,
)
    ensures
        forall|key: Seq<char>| #[trigger]
            member(with_u32(members, name, value), key) == member_after(
                member(members, key),
                key,
                name,
                u32_member(value),
            ),
{
    assert forall|key: Seq<char>| #[trigger]
        member(with_u32(members, name, value), key) == member_after(
            member(members, key),
            key,
            name,
            u32_member(value),
        ) by {
        if value is Some {
            lemma_member_push(members, name, u32_member(value)->0, key);
        }
    }
}

/// A lookup after a number was appended where there was one.
pub proof fn lemma_with_numeral(
    members: Seq<(Seq<char>, JsonModel)>,
    name: Seq<char>,
    value: Option<NumeralModel>,
)
    ensures
        forall|key: Seq<char>| #[trigger]
            member(with_numeral(members, name, value), key) == member_after(
                member(members, key),
                key,
                name,
                numeral_member(value),
            ),
{
    assert forall|key: Seq<char>| #[trigger]
        member(with_numeral(members, name, value), key) == member_after(
            member(members, key),
            key,
            name,
            numeral_member(value),
        ) by {
        if value is Some {
            lemma_member_push(members, name, numeral_member(value)->0, key);
        }
    }
}

/// A lookup after a text was appended where it was not empty.
pub proof fn lemma_with_text(
    members: Seq<(Seq<char>, JsonModel)>,
    name: Seq<char>,
    value: Seq<char>,
)
    ensures
        forall|key: Seq<char>| #[trigger]
            member(with_text(members, name, value), key) == member_after(
                member(members, key),
                key,
                name,
                text_member(value),
            ),
{
    assert forall|key: Seq<char>| #[trigger]
        member(with_text(members, name, value), key) == member_after(
            member(members, key),
            key,
            name,
            text_member(value),
        ) by {
        if value.len() != 0 {
            lemma_member_push(members, name, JsonModel::Text(value), key);
        }
    }
}

/// A lookup after a truth value was appended.
pub proof fn lemma_with_bool(members: Seq<(Seq<char>, JsonModel)>, name: Seq<char>, value: bool)
    ensures
        forall|key: Seq<char>| #[trigger]
            member(with_bool(members, name, value), key) == member_after(
                member(members, key),
                key,
                name,
                Some(JsonModel::Bool(value)),
            ),
{
    assert forall|key: Seq<char>| #[trigger]
        member(with_bool(members, name, value), key) == member_after(
            member(members, key),
            key,
            name,
            Some(JsonModel::Bool(value)),
        ) by {
        lemma_member_push(members, name, JsonModel::Bool(value), key);
    }
}

/// A lookup after a list of identifiers was appended where it was not empty.
pub proof fn lemma_with_ids(members: Seq<(Seq<char>, JsonModel)>, name: Seq<char>, value: Seq<u32>)
    ensures
        forall|key: Seq<char>| #[trigger]
            member(with_ids(members, name, value), key) == member_after(
                member(members, key),
                key,
                name,
                ids_member(value),
            ),
{
    assert forall|key: Seq<char>| #[trigger]
        member(with_ids(members, name, value), key) == member_after(
            member(members, key),
            key,
            name,
            ids_member(value),
        ) by {
        if value.len() != 0 {
            lemma_member_push(members, name, ids_model(value), key);
        }
    }
}

impl JsonModel {
    /// The member of an object under `key`; `None` where the value is no
    /// object or has no such member.
    pub open spec fn field(self, key: Seq<char>) -> Option<JsonModel> {
        match self {
            JsonModel::Object(members) => member(members, key),
            _ => None,
        }
    }

    /// Whether arrays and objects nest at most `depth` deep in the value.
    pub open spec fn within(self, depth: nat) -> bool
        decreases depth,
    {
        match self {
            JsonModel::Array(items) => depth > 0 && forall|i: int|
                0 <= i < items.len() ==> (#[trigger] items[i]).within((depth - 1) as nat),
            JsonModel::Object(members) => depth > 0 && forall|i: int|
                0 <= i < members.len() ==> (#[trigger] members[i]).1.within((depth - 1) as nat),
            _ => true,
        }
    }

    /// The member under `key` where it is there and not `null`.
    pub open spec fn present(self, key: Seq<char>) -> Option<JsonModel> {
        match self.field(key) {
            Some(JsonModel::Null) => None,
            other => other,
        }
    }

    /// The value as an unsigned 32-bit integer: a whole number in range.
    pub open spec fn as_u32(self) -> Option<u32> {
        match self {
            JsonModel::Number(NumeralModel::Unsigned(n)) => if n <= u32::MAX {
                Some(n as u32)
            } else {
                None
            },
            JsonModel::Number(NumeralModel::Signed(n)) => if 0 <= n <= u32::MAX {
                Some(n as u32)
            } else {
                None
            },
            _ => None,
        }
    }

    /// The value as a text.
    pub open spec fn as_text(self) -> Option<Seq<char>> {
        match self {
            JsonModel::Text(t) => Some(t),
            _ => None,
        }
    }

    /// The value as a truth value.
    pub open spec fn as_bool(self) -> Option<bool> {
        match self {
            JsonModel::Bool(b) => Some(b),
            _ => None,
        }
    }

    /// The value as a number of any kind.
    pub open spec fn as_numeral(self) -> Option<NumeralModel> {
        match self {
            JsonModel::Number(n) => Some(n),
            _ => None,
        }
    }

    /// The elements of an array.
    pub open spec fn as_array(self) -> Option<Seq<JsonModel>> {
        match self {
            JsonModel::Array(items) => Some(items),
            _ => None,
        }
    }
}

/// The opaque tree that `serde_json` parses into and prints from.
#[verifier::external_type_specification]
#[verifier::external_body]
pub struct ExValue(serde_json::Value);

/// The opaque number of `serde_json`.
#[verifier::external_type_specification]
#[verifier::external_body]
pub struct ExNumber(serde_json::Number);

/// What `serde_json::from_str` makes of a text: the value it parses to, or
/// `None` where it reports an error. A whole number that fits is kept as such,
/// any other number as the text that `serde_json` prints for it.
pub uninterp spec fn json_parsed(text: Seq<char>) -> Option<JsonModel>;

/// The compact text that `serde_json` prints for a value.
pub uninterp spec fn json_rendered(value: JsonModel) -> Seq<char>;

/// Tells the three representations of `serde_json::Number` apart with its
/// accessors `as_u64` and `as_i64`; a number that is neither is kept as the
/// text that its `Display` impl prints. Nothing is claimed of the result.
#[verifier::external_body]
fn number_from(n: &serde_json::Number) -> Numeral {
    match (n.as_u64(), n.as_i64()) {
        (Some(u), _) => Numeral::Unsigned(u),
        (None, Some(i)) => Numeral::Signed(i),
        (None, None) => Numeral::Decimal(n.to_string()),
    }
}

/// Moves a `serde_json::Value` into a [`Json`], variant by variant, an object's
/// members in the order in which its map hands them out. Nothing is claimed
/// of the result.
#[verifier::external_body]
fn from_value(v: Value) -> Json {
    match v {
        Value::Null => Json::Null,
        Value::Bool(b) => Json::Bool(b),
        Value::Number(n) => Json::Number(number_from(&n)),
        Value::String(s) => Json::Text(s),
        Value::Array(a) => Json::Array(a.into_iter().map(from_value).collect()),
        Value::Object(o) => Json::Object(
            o.into_iter().map(|(k, x)| (k, from_value(x))).collect(),
        ),
    }
}

/// Builds the `serde_json::Value` of a [`Json`], variant by variant. A decimal
/// text goes through `serde_json::from_str` as a number and becomes `null`
/// where that fails; members are inserted into the map in their order.
/// Nothing is claimed of the result.
#[verifier::external_body]
fn to_value(j: &Json) -> Value {
    match j {
        Json::Null => Value::Null,
        Json::Bool(b) => Value::Bool(*b),
        Json::Number(Numeral::Unsigned(n)) => Value::from(*n),
        Json::Number(Numeral::Signed(n)) => Value::from(*n),
        Json::Number(Numeral::Decimal(s)) => serde_json::from_str::<serde_json::Number>(s)
            .map_or(Value::Null, Value::Number),
        Json::Text(s) => Value::String(s.clone()),
        Json::Array(a) => Value::Array(a.iter().map(to_value).collect()),
        Json::Object(o) => Value::Object(
            o.iter().map(|f| (f.0.clone(), to_value(&f.1))).collect(),
        ),
    }
}

/// Calls `serde_json::from_str` for a `serde_json::Value`. The result is the named
/// outcome of that parse: `None` exactly where the parser reports an error.
#[verifier::external_body]
fn parse_text(text: &str) -> (r: Option<Json>)
    ensures
        r is Some == json_parsed(text@) is Some,
        r matches Some(j) ==> json_parsed(text@) == Some(j@),
{
    serde_json::from_str::<Value>(text).ok().map(from_value)
}

/// Prints a value through the `Display` impl of `serde_json::Value`, which
/// writes the compact form. The result is the named text of the value. The
/// printer calls itself once for each level of nesting, so the nesting is
/// bounded.
#[verifier::external_body]
fn render_text(j: &Json) -> (r: String)
    requires
        j@.within(RENDER_DEPTH as nat),
    ensures
        r@ == json_rendered(j@),
{
    to_value(j).to_string()
}

impl Numeral {
    /// A copy of this number.
    pub fn copy(&self) -> (r: Numeral)
        ensures
            r@ == self@,
    {
        match self {
            Numeral::Unsigned(n) => Numeral::Unsigned(*n),
            Numeral::Signed(n) => Numeral::Signed(*n),
            Numeral::Decimal(s) => Numeral::Decimal(s.clone()),
        }
    }
}

/// Appends `key` with a whole number where there is one.
pub fn push_u32(fields: &mut Vec<(String, Json)>, key: &str, value: Option<u32>)
    ensures
        members_view(final(fields)@) == with_u32(members_view(old(fields)@), key@, value),
{
    if let Some(n) = value {
        fields.push((String::from_str(key), Json::Number(Numeral::Unsigned(n as u64))));
    }
    assert(members_view(fields@) =~= with_u32(members_view(old(fields)@), key@, value));
}

/// Appends `key` with a number where there is one.
pub fn push_numeral(fields: &mut Vec<(String, Json)>, key: &str, value: &Option<Numeral>)
    ensures
        members_view(final(fields)@) == with_numeral(
            members_view(old(fields)@),
            key@,
            match *value {
                Some(n) => Some(n@),
                None => None,
            },
        ),
{
    if let Some(n) = value {
        fields.push((String::from_str(key), Json::Number(n.copy())));
    }
    assert(members_view(fields@) =~= with_numeral(
        members_view(old(fields)@),
        key@,
        match *value {
            Some(n) => Some(n@),
            None => None,
        },
    ));
}

/// Appends `key` with a text where the text is not empty.
pub fn push_text(fields: &mut Vec<(String, Json)>, key: &str, value: &str)
    ensures
        members_view(final(fields)@) == with_text(members_view(old(fields)@), key@, value@),
{
    if !value.is_empty() {
        fields.push((String::from_str(key), Json::Text(String::from_str(value))));
    }
    assert(members_view(fields@) =~= with_text(members_view(old(fields)@), key@, value@));
}

/// Appends `key` with a truth value.
pub fn push_bool(fields: &mut Vec<(String, Json)>, key: &str, value: bool)
    ensures
        members_view(final(fields)@) == with_bool(members_view(old(fields)@), key@, value),
{
    fields.push((String::from_str(key), Json::Bool(value)));
    assert(members_view(fields@) =~= with_bool(members_view(old(fields)@), key@, value));
}

/// Appends `key` with a list of identifiers where the list is not empty.
pub fn push_ids(fields: &mut Vec<(String, Json)>, key: &str, value: &Vec<u32>)
    ensures
        members_view(final(fields)@) == with_ids(members_view(old(fields)@), key@, value@),
{
    if value.len() > 0 {
        fields.push((String::from_str(key), Json::ids(value)));
    }
    assert(members_view(fields@) =~= with_ids(members_view(old(fields)@), key@, value@));
}

/// The elements of an array as plain data.
pub open spec fn items_view(items: Seq<Json>) -> Seq<JsonModel> {
    Seq::new(items.len(), |i: int| items[i]@)
}

/// The view of an array is the array of its elements' views.
pub proof fn lemma_array_view(j: &Json)
    requires
        j is Array,
    ensures
        j@ == JsonModel::Array(items_view(j->Array_0@)),
{
    match j {
        Json::Array(items) => {
            reveal_with_fuel(<Json as View>::view, 2);
            assert(j@->Array_0 =~= items_view(items@));
        },
        _ => {},
    }
}

/// The view of an object is the object of its members' views.
pub proof fn lemma_object_view(j: &Json)
    requires
        j is Object,
    ensures
        j@ == JsonModel::Object(members_view(j->Object_0@)),
{
    match j {
        Json::Object(fields) => {
            reveal_with_fuel(<Json as View>::view, 2);
            assert(j@->Object_0 =~= members_view(fields@));
        },
        _ => {},
    }
}

impl Json {
    /// The object with the given members.
    pub fn object(fields: Vec<(String, Json)>) -> (r: Json)
        ensures
            r@ == JsonModel::Object(members_view(fields@)),
    {
        let r = Json::Object(fields);
        proof {
            lemma_object_view(&r);
        }
        r
    }

    /// The array of whole numbers that stands for a list of identifiers.
    pub fn ids(ids: &Vec<u32>) -> (r: Json)
        ensures
            r@ == ids_model(ids@),
    {
        let mut items: Vec<Json> = Vec::new();
        let mut i: usize = 0;
        while i < ids.len()
            invariant
                i <= ids@.len(),
                items@.len() == i,
                forall|k: int|
                    0 <= k < i ==> (#[trigger] items@[k])@ == JsonModel::Number(
                        NumeralModel::Unsigned(ids@[k] as u64),
                    ),
            decreases ids@.len() - i,
        {
            items.push(Json::Number(Numeral::Unsigned(ids[i] as u64)));
            i += 1;
        }
        let r = Json::Array(items);
        proof {
            lemma_array_view(&r);
            assert(items_view(items@) =~= ids_model(ids@)->Array_0);
        }
        r
    }

    /// The object with the single member `key`, which holds the object of `fields`.
    pub fn envelope(key: &str, fields: Vec<(String, Json)>) -> (r: Json)
        ensures
            r@ == envelope(key@, members_view(fields@)),
    {
        let inner = Json::object(fields);
        let mut outer: Vec<(String, Json)> = Vec::new();
        outer.push((String::from_str(key), inner));
        assert(members_view(outer@) =~= seq![(key@, inner@)]);
        Json::object(outer)
    }

    /// The member of an object under `key`.
    pub fn get(&self, key: &str) -> (r: Option<&Json>)
        ensures
            match self@.field(key@) {
                Some(v) => r matches Some(j) && j@ == v,
                None => r is None,
            },
    {
        match self {
            Json::Object(fields) => {
                let ghost members = members_view(fields@);
                proof {
                    lemma_object_view(self);
                }
                let mut i: usize = 0;
                assert(members.skip(0) =~= members);
                while i < fields.len()
                    invariant
                        i <= fields@.len(),
                        self@ == JsonModel::Object(members),
                        members.len() == fields@.len(),
                        forall|k: int|
                            0 <= k < fields@.len() ==> #[trigger] members[k] == (
                                fields@[k].0@,
                                fields@[k].1@,
                            ),
                        member(members, key@) == member(members.skip(i as int), key@),
                    decreases fields@.len() - i,
                {
                    proof {
                        let rest = members.skip(i as int);
                        assert(rest.first() == members[i as int]);
                        assert(rest.drop_first() =~= members.skip(i + 1));
                        assert(members[i as int].1 == fields@[i as int].1@);
                    }
                    if str_eq(fields[i].0.as_str(), key) {
                        return Some(&fields[i].1);
                    }
                    i += 1;
                }
                assert(members.skip(i as int).len() == 0);
                None
            },
            _ => None,
        }
    }

    /// The member under `key` where it is there and not `null`.
    pub fn get_present(&self, key: &str) -> (r: Option<&Json>)
        ensures
            match self@.present(key@) {
                Some(v) => r matches Some(j) && j@ == v,
                None => r is None,
            },
    {
        match self.get(key) {
            Some(Json::Null) => None,
            other => other,
        }
    }

    /// The elements of an array.
    pub fn elements(&self) -> (r: Option<&Vec<Json>>)
        ensures
            match self@.as_array() {
                Some(items) => r matches Some(v) && items_view(v@) == items,
                None => r is None,
            },
    {
        match self {
            Json::Array(items) => {
                proof {
                    lemma_array_view(self);
                }
                Some(items)
            },
            _ => None,
        }
    }

    /// The value as an unsigned 32-bit integer.
    pub fn as_u32(&self) -> (r: Option<u32>)
        ensures
            r == self@.as_u32(),
    {
        match self {
            Json::Number(Numeral::Unsigned(n)) => if *n <= 0xffff_ffff {
                Some(*n as u32)
            } else {
                None
            },
            Json::Number(Numeral::Signed(n)) => if 0 <= *n && *n <= 0xffff_ffff {
                Some(*n as u32)
            } else {
                None
            },
            _ => None,
        }
    }

    /// The value as a text.
    pub fn as_text(&self) -> (r: Option<String>)
        ensures
            crate::client::option_view(r) == self@.as_text(),
    {
        match self {
            Json::Text(t) => Some(t.clone()),
            _ => None,
        }
    }

    /// The value as a truth value.
    pub fn as_bool(&self) -> (r: Option<bool>)
        ensures
            r == self@.as_bool(),
    {
        match self {
            Json::Bool(b) => Some(*b),
            _ => None,
        }
    }

    /// The value as a number of any kind.
    pub fn as_numeral(&self) -> (r: Option<Numeral>)
        ensures
            match self@.as_numeral() {
                Some(n) => r matches Some(got) && got@ == n,
                None => r is None,
            },
    {
        match self {
            Json::Number(n) => Some(n.copy()),
            _ => None,
        }
    }

    /// Whether arrays and objects nest at most `depth` deep in the value.
    pub fn nests_within(&self, depth: usize) -> (r: bool)
        ensures
            r == self@.within(depth as nat),
        decreases depth,
    {
        match self {
            Json::Array(items) => {
                proof {
                    lemma_array_view(self);
                }
                if depth == 0 {
                    return false;
                }
                let mut i: usize = 0;
                while i < items.len()
                    invariant
                        i <= items@.len(),
                        depth > 0,
                        self@ == JsonModel::Array(items_view(items@)),
                        forall|k: int|
                            0 <= k < i ==> (#[trigger] items_view(items@)[k]).within(
                                ((depth as nat) - 1) as nat,
                            ),
                    decreases items@.len() - i,
                {
                    assert(items_view(items@)[i as int] == items@[i as int]@);
                    if !items[i].nests_within(depth - 1) {
                        assert(self@.within(depth as nat) ==> self@->Array_0[i as int].within(
                            ((depth as nat) - 1) as nat,
                        ));
                        return false;
                    }
                    i += 1;
                }
                true
            },
            Json::Object(fields) => {
                proof {
                    lemma_object_view(self);
                }
                if depth == 0 {
                    return false;
                }
                let mut i: usize = 0;
                while i < fields.len()
                    invariant
                        i <= fields@.len(),
                        depth > 0,
                        self@ == JsonModel::Object(members_view(fields@)),
                        forall|k: int|
                            0 <= k < i ==> (#[trigger] members_view(fields@)[k]).1.within(
                                ((depth as nat) - 1) as nat,
                            ),
                    decreases fields@.len() - i,
                {
                    assert(members_view(fields@)[i as int].1 == fields@[i as int].1@);
                    if !fields[i].1.nests_within(depth - 1) {
                        assert(self@.within(depth as nat) ==> self@->Object_0[i as int].1.within(
                            ((depth as nat) - 1) as nat,
                        ));
                        return false;
                    }
                    i += 1;
                }
                true
            },
            _ => true,
        }
    }

    /// Parses a JSON text; `None` where the text is not well-formed JSON.
    pub fn parse(text: &str) -> (r: Option<Json>)
        ensures
            r is Some == json_parsed(text@) is Some,
            r matches Some(j) ==> json_parsed(text@) == Some(j@),
    {
        parse_text(text)
    }

    /// The compact JSON text of this value.
    pub fn render(&self) -> (r: String)
        requires
            self@.within(RENDER_DEPTH as nat),
        ensures
            r@ == json_rendered(self@),
    {
        render_text(self)
    }
}

} // verus!
