//! A JSON document as a tree of plain values, and the two directions in
//! which a typed record meets it: written into a document, read out of one.

use crate::text::same_text;
use crate::time::Timestamp;
use vstd::prelude::*;

verus! {

broadcast use {
    vstd::std_specs::vec::axiom_vec_index_decreases,
    vstd::seq::axiom_seq_index_decreases,
    vstd::seq::axiom_seq_subrange_decreases,
};

/// A JSON document held as plain values.
#[derive(Debug, PartialEq, Eq)]
pub enum JsonValue {
    Null,
    Bool(bool),
    /// A whole number that is not negative.
    Unsigned(u64),
    /// A whole number that may be negative.
    Signed(i64),
    /// Any other number, kept as it was written.
    Real(String),
    Text(String),
    Array(Vec<JsonValue>),
    /// The members in the order in which they were written.
    Object(Vec<JsonMember>),
}

/// A member of a JSON object: a name and the value written under it.
#[derive(Debug, PartialEq, Eq)]
pub struct JsonMember {
    pub name: String,
    pub value: JsonValue,
}

/// The mathematical content of a [`JsonValue`].
pub enum JsonModel {
    Null,
    Bool(bool),
    Integer(int),
    Real(Seq<char>),
    Text(Seq<char>),
    Array(Seq<JsonModel>),
    Object(Seq<(Seq<char>, JsonModel)>),
}

/// The content of a document.
pub open spec fn json_model(v: JsonValue) -> JsonModel
    decreases v,
{
    match v {
        JsonValue::Null => JsonModel::Null,
        JsonValue::Bool(b) => JsonModel::Bool(b),
        JsonValue::Unsigned(n) => JsonModel::Integer(n as int),
        JsonValue::Signed(n) => JsonModel::Integer(n as int),
        JsonValue::Real(t) => JsonModel::Real(t@),
        JsonValue::Text(t) => JsonModel::Text(t@),
        JsonValue::Array(items) => JsonModel::Array(
            Seq::new(
                items.len() as nat,
                |i: int|
                    if 0 <= i < items.len() {
                        json_model(items[i])
                    } else {
                        JsonModel::Null
                    },
            ),
        ),
        JsonValue::Object(members) => JsonModel::Object(
            Seq::new(
                members.len() as nat,
                |i: int|
                    if 0 <= i < members.len() {
                        (members[i].name@, json_model(members[i].value))
                    } else {
                        (Seq::<char>::empty(), JsonModel::Null)
                    },
            ),
        ),
    }
}

impl View for JsonValue {
    type V = JsonModel;

    open spec fn view(&self) -> JsonModel {
        json_model(*self)
    }
}

/// The content of the items of an array.
pub open spec fn items_model(items: Seq<JsonValue>) -> Seq<JsonModel> {
    Seq::new(items.len(), |i: int| items[i]@)
}

/// The content of the members of an object.
pub open spec fn members_model(members: Seq<JsonMember>) -> Seq<(Seq<char>, JsonModel)> {
    Seq::new(members.len(), |i: int| (members[i].name@, members[i].value@))
}

/// An array's content is the content of its items.
pub proof fn lemma_array_view(items: Vec<JsonValue>)
    ensures
        JsonValue::Array(items)@ == JsonModel::Array(items_model(items@)),
{
    assert(JsonValue::Array(items)@->Array_0 =~= items_model(items@));
}

/// An object's content is the content of its members.
pub proof fn lemma_object_view(members: Vec<JsonMember>)
    ensures
        JsonValue::Object(members)@ == JsonModel::Object(members_model(members@)),
{
    assert(JsonValue::Object(members)@->Object_0 =~= members_model(members@));
}

/// The value of the member called `name`: where the name is written more
/// than once, the last one counts.
pub open spec fn lookup(members: Seq<(Seq<char>, JsonModel)>, name: Seq<char>) -> Option<
    JsonModel,
>
    decreases members.len(),
{
    if members.len() == 0 {
        None
    } else if members.last().0 == name {
        Some(members.last().1)
    } else {
        lookup(members.drop_last(), name)
    }
}

/// Looking a name up after one more member was written.
pub broadcast proof fn lemma_lookup_push(
    members: Seq<(Seq<char>, JsonModel)>,
    member: (Seq<char>, JsonModel),
    name: Seq<char>,
)
    ensures
        #[trigger] lookup(members.push(member), name) == if member.0 == name {
            Some(member.1)
        } else {
            lookup(members, name)
        },
{
    assert(members.push(member).drop_last() =~= members);
}

impl JsonModel {
    /// The member called `name` of an object; `None` where there is none,
    /// or where this is no object.
    pub open spec fn member(self, name: Seq<char>) -> Option<JsonModel> {
        match self {
            JsonModel::Object(members) => lookup(members, name),
            _ => None,
        }
    }

    /// The member called `name`, where it is there and is not `null`.
    pub open spec fn present(self, name: Seq<char>) -> Option<JsonModel> {
        match self.member(name) {
            Some(JsonModel::Null) => None,
            other => other,
        }
    }
}

impl JsonValue {
    /// The member called `name` of an object.
    pub fn member(&self, name: &str) -> (r: Option<&JsonValue>)
        ensures
            match r {
                Some(v) => self@.member(name@) == Some(v@),
                None => self@.member(name@) is None,
            },
    {
        match self {
            JsonValue::Object(members) => {
                proof {
                    lemma_object_view(*members);
                }
                let ghost all = members_model(members@);
                let mut i = members.len();
                assert(all.subrange(0, i as int) =~= all);
                while i > 0
                    invariant
                        i <= members.len(),
                        all == members_model(members@),
                        self@ == JsonModel::Object(all),
                        lookup(all, name@) == lookup(all.subrange(0, i as int), name@),
                    decreases i,
                {
                    i -= 1;
                    assert(all.subrange(0, i + 1).drop_last() =~= all.subrange(0, i as int));
                    assert(all.subrange(0, i + 1).last() == all[i as int]);
                    if same_text(members[i].name.as_str(), name) {
                        return Some(&members[i].value);
                    }
                }
                None
            },
            _ => None,
        }
    }

    /// The member called `name`, where it is there and is not `null`.
    pub fn present(&self, name: &str) -> (r: Option<&JsonValue>)
        ensures
            match r {
                Some(v) => self@.present(name@) == Some(v@),
                None => self@.present(name@) is None,
            },
    {
        match self.member(name) {
            Some(JsonValue::Null) => None,
            other => other,
        }
    }
}

/// Writes one more member at the end of an object under construction.
pub fn push_member(members: &mut Vec<JsonMember>, name: &str, value: JsonValue)
    ensures
        members_model(final(members)@) == members_model(old(members)@).push((name@, value@)),
{
    members.push(JsonMember { name: name.to_owned(), value });
    assert(members_model(members@) =~= members_model(old(members)@).push((name@, value@)));
}

/// Closes an object under construction.
pub fn object_of(members: Vec<JsonMember>) -> (r: JsonValue)
    ensures
        r@ == JsonModel::Object(members_model(members@)),
{
    proof {
        lemma_object_view(members);
    }
    JsonValue::Object(members)
}

/// A type whose values can be read out of a JSON document.
pub trait FromJson: DeepView + Sized {
    /// The value that a document stands for; `None` where it stands for
    /// none of this type.
    spec fn of_json(j: JsonModel) -> Option<Self::V>;

    /// Reads a value out of a document.
    fn from_json(j: &JsonValue) -> (r: Option<Self>)
        ensures
            r.deep_view() == Self::of_json(j@),
    ;
}

/// A type whose values can be written as a JSON document.
pub trait ToJson: DeepView + Sized {
    /// The document that stands for a value.
    spec fn json_of(v: Self::V) -> JsonModel;

    /// Writes a value as a document.
    fn to_json(&self) -> (j: JsonValue)
        ensures
            j@ == Self::json_of(self.deep_view()),
    ;
}

impl FromJson for bool {
    open spec fn of_json(j: JsonModel) -> Option<bool> {
        match j {
            JsonModel::Bool(b) => Some(b),
            _ => None,
        }
    }

    fn from_json(j: &JsonValue) -> (r: Option<bool>) {
        match j {
            JsonValue::Bool(b) => Some(*b),
            _ => None,
        }
    }
}

impl FromJson for u64 {
    open spec fn of_json(j: JsonModel) -> Option<u64> {
        match j {
            JsonModel::Integer(n) => if 0 <= n <= u64::MAX {
                Some(n as u64)
            } else {
                None
            },
            _ => None,
        }
    }

    fn from_json(j: &JsonValue) -> (r: Option<u64>) {
        match j {
            JsonValue::Unsigned(n) => Some(*n),
            JsonValue::Signed(n) => if *n >= 0 {
                Some(*n as u64)
            } else {
                None
            },
            _ => None,
        }
    }
}

impl FromJson for i64 {
    open spec fn of_json(j: JsonModel) -> Option<i64> {
        match j {
            JsonModel::Integer(n) => if i64::MIN <= n <= i64::MAX {
                Some(n as i64)
            } else {
                None
            },
            _ => None,
        }
    }

    fn from_json(j: &JsonValue) -> (r: Option<i64>) {
        match j {
            JsonValue::Unsigned(n) => if *n <= 0x7fff_ffff_ffff_ffff {
                Some(*n as i64)
            } else {
                None
            },
            JsonValue::Signed(n) => Some(*n),
            _ => None,
        }
    }
}

impl FromJson for i32 {
    open spec fn of_json(j: JsonModel) -> Option<i32> {
        match j {
            JsonModel::Integer(n) => if i32::MIN <= n <= i32::MAX {
                Some(n as i32)
            } else {
                None
            },
            _ => None,
        }
    }

    fn from_json(j: &JsonValue) -> (r: Option<i32>) {
        match j {
            JsonValue::Unsigned(n) => if *n <= 0x7fff_ffff {
                Some(*n as i32)
            } else {
                None
            },
            JsonValue::Signed(n) => if -0x8000_0000 <= *n && *n <= 0x7fff_ffff {
                Some(*n as i32)
            } else {
                None
            },
            _ => None,
        }
    }
}

impl FromJson for String {
    open spec fn of_json(j: JsonModel) -> Option<Seq<char>> {
        match j {
            JsonModel::Text(t) => Some(t),
            _ => None,
        }
    }

    fn from_json(j: &JsonValue) -> (r: Option<String>) {
        match j {
            JsonValue::Text(t) => Some(t.clone()),
            _ => None,
        }
    }
}

impl FromJson for Timestamp {
    open spec fn of_json(j: JsonModel) -> Option<Timestamp> {
        match j {
            JsonModel::Text(t) => Timestamp::of_text(t),
            _ => None,
        }
    }

    fn from_json(j: &JsonValue) -> (r: Option<Timestamp>) {
        match j {
            JsonValue::Text(t) => Timestamp::parse(t.as_str()),
            _ => None,
        }
    }
}

/// The values that the items of an array stand for; `None` where one of
/// them stands for none.
pub open spec fn all_of_json<T: FromJson>(items: Seq<JsonModel>) -> Option<Seq<T::V>> {
    if forall|i: int| 0 <= i < items.len() ==> (#[trigger] T::of_json(items[i])) is Some {
        Some(Seq::new(items.len(), |i: int| T::of_json(items[i])->0))
    } else {
        None
    }
}

impl<T: FromJson> FromJson for Vec<T> {
    open spec fn of_json(j: JsonModel) -> Option<Seq<T::V>> {
        match j {
            JsonModel::Array(items) => all_of_json::<T>(items),
            _ => None,
        }
    }

    fn from_json(j: &JsonValue) -> (r: Option<Vec<T>>) {
        match j {
            JsonValue::Array(items) => {
                proof {
                    lemma_array_view(*items);
                }
                let ghost models = items_model(items@);
                let mut out: Vec<T> = Vec::new();
                let mut i: usize = 0;
                while i < items.len()
                    invariant
                        i <= items.len(),
                        models == items_model(items@),
                        j@ == JsonModel::Array(models),
                        out.len() == i,
                        forall|k: int|
                            0 <= k < i ==> (#[trigger] T::of_json(models[k])) == Some(
                                out[k].deep_view(),
                            ),
                    decreases items.len() - i,
                {
                    match T::from_json(&items[i]) {
                        Some(v) => {
                            out.push(v);
                        },
                        None => {
                            assert(T::of_json(models[i as int]) is None);
                            return None;
                        },
                    }
                    i += 1;
                }
                assert(out.deep_view() =~= all_of_json::<T>(models)->0);
                Some(out)
            },
            _ => None,
        }
    }
}

/// What a record's member called `name` stands for, where the record
/// cannot do without it.
pub open spec fn required<T: FromJson>(j: JsonModel, name: Seq<char>) -> Option<T::V> {
    match j.member(name) {
        Some(v) => T::of_json(v),
        None => None,
    }
}

/// What a record's member called `name` stands for, where the record can
/// do without it: a member that is missing or `null` stands for no value,
/// one that is there and cannot be read spoils the record.
pub open spec fn optional<T: FromJson>(j: JsonModel, name: Seq<char>) -> Option<Option<T::V>> {
    match j.present(name) {
        Some(v) => match T::of_json(v) {
            Some(x) => Some(Some(x)),
            None => None,
        },
        None => Some(None),
    }
}

/// Reads a member that the record cannot do without.
pub fn get_required<T: FromJson>(j: &JsonValue, name: &str) -> (r: Option<T>)
    ensures
        r.deep_view() == required::<T>(j@, name@),
{
    match j.member(name) {
        Some(v) => T::from_json(v),
        None => None,
    }
}

/// Reads a member that the record can do without.
pub fn get_optional<T: FromJson>(j: &JsonValue, name: &str) -> (r: Option<Option<T>>)
    ensures
        r.deep_view() == optional::<T>(j@, name@),
{
    match j.present(name) {
        Some(v) => match T::from_json(v) {
            Some(x) => Some(Some(x)),
            None => None,
        },
        None => Some(None),
    }
}

impl ToJson for bool {
    open spec fn json_of(v: bool) -> JsonModel {
        JsonModel::Bool(v)
    }

    fn to_json(&self) -> (j: JsonValue) {
        JsonValue::Bool(*self)
    }
}

impl ToJson for u64 {
    open spec fn json_of(v: u64) -> JsonModel {
        JsonModel::Integer(v as int)
    }

    fn to_json(&self) -> (j: JsonValue) {
        JsonValue::Unsigned(*self)
    }
}

impl ToJson for i64 {
    open spec fn json_of(v: i64) -> JsonModel {
        JsonModel::Integer(v as int)
    }

    fn to_json(&self) -> (j: JsonValue) {
        JsonValue::Signed(*self)
    }
}

impl ToJson for String {
    open spec fn json_of(v: Seq<char>) -> JsonModel {
        JsonModel::Text(v)
    }

    fn to_json(&self) -> (j: JsonValue) {
        JsonValue::Text(self.clone())
    }
}

impl<T: ToJson> ToJson for Vec<T> {
    open spec fn json_of(v: Seq<T::V>) -> JsonModel {
        JsonModel::Array(Seq::new(v.len(), |i: int| T::json_of(v[i])))
    }

    fn to_json(&self) -> (j: JsonValue) {
        let mut items: Vec<JsonValue> = Vec::new();
        let mut i: usize = 0;
        while i < self.len()
            invariant
                i <= self.len(),
                items.len() == i,
                forall|k: int|
                    0 <= k < i ==> (#[trigger] items[k])@ == T::json_of(self[k].deep_view()),
            decreases self.len() - i,
        {
            items.push(self[i].to_json());
            i += 1;
        }
        proof {
            lemma_array_view(items);
            assert(items_model(items@) =~= Seq::new(
                self.deep_view().len(),
                |i: int| T::json_of(self.deep_view()[i]),
            ));
        }
        JsonValue::Array(items)
    }
}

/// An object under construction with one more member.
pub open spec fn with<T: ToJson>(
    members: Seq<(Seq<char>, JsonModel)>,
    name: Seq<char>,
    v: T::V,
) -> Seq<(Seq<char>, JsonModel)> {
    members.push((name, T::json_of(v)))
}

/// An object under construction with one more member where there is a
/// value to write, and unchanged where there is none.
pub open spec fn with_optional<T: ToJson>(
    members: Seq<(Seq<char>, JsonModel)>,
    name: Seq<char>,
    v: Option<T::V>,
) -> Seq<(Seq<char>, JsonModel)> {
    match v {
        Some(x) => members.push((name, T::json_of(x))),
        None => members,
    }
}

/// Starts an object without members.
pub fn no_members() -> (r: Vec<JsonMember>)
    ensures
        members_model(r@) == Seq::<(Seq<char>, JsonModel)>::empty(),
{
    let r: Vec<JsonMember> = Vec::new();
    assert(members_model(r@) =~= Seq::<(Seq<char>, JsonModel)>::empty());
    r
}

/// Writes a member that is always written.
pub fn put<T: ToJson>(members: &mut Vec<JsonMember>, name: &str, v: &T)
    ensures
        members_model(final(members)@) == with::<T>(
            members_model(old(members)@),
            name@,
            v.deep_view(),
        ),
{
    push_member(members, name, v.to_json());
}

/// Writes a member where there is a value, and nothing where there is none.
pub fn put_optional<T: ToJson>(members: &mut Vec<JsonMember>, name: &str, v: &Option<T>)
    ensures
        members_model(final(members)@) == with_optional::<T>(
            members_model(old(members)@),
            name@,
            v.deep_view(),
        ),
{
    match v {
        Some(x) => {
            push_member(members, name, x.to_json());
        },
        None => {},
    }
}

/// Whether a document holds no `null`, at any depth.
pub open spec fn null_free(j: JsonModel) -> bool
    decreases j,
{
    match j {
        JsonModel::Null => false,
        JsonModel::Array(items) => items_null_free(items),
        JsonModel::Object(members) => members_null_free(members),
        _ => true,
    }
}

/// Whether no item of an array holds a `null`, at any depth.
pub open spec fn items_null_free(items: Seq<JsonModel>) -> bool
    decreases items,
{
    if items.len() == 0 {
        true
    } else {
        null_free(items.last()) && items_null_free(items.drop_last())
    }
}

/// Whether no member of an object holds a `null`, at any depth.
pub open spec fn members_null_free(members: Seq<(Seq<char>, JsonModel)>) -> bool
    decreases members,
{
    if members.len() == 0 {
        true
    } else {
        null_free(members.last().1) && members_null_free(members.drop_last())
    }
}

/// An array holds no `null` where none of its items does.
pub proof fn lemma_items_null_free(items: Seq<JsonModel>)
    requires
        forall|i: int| 0 <= i < items.len() ==> null_free(#[trigger] items[i]),
    ensures
        items_null_free(items),
    decreases items.len(),
{
    if items.len() > 0 {
        lemma_items_null_free(items.drop_last());
    }
}

/// Writing a member that holds no `null` into an object that holds none
/// gives an object that holds none.
pub broadcast proof fn lemma_null_free_push(
    members: Seq<(Seq<char>, JsonModel)>,
    name: Seq<char>,
    value: JsonModel,
)
    requires
        members_null_free(members),
        null_free(value),
    ensures
        #[trigger] members_null_free(members.push((name, value))),
{
    assert(members.push((name, value)).drop_last() =~= members);
}

} // verus!
