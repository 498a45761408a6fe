//! The data files as values, and how fields are taken from them.

use crate::text::same_text;
use vstd::prelude::*;

verus! {

/// A value of a data file.
#[derive(Debug, PartialEq, Eq)]
pub enum Json {
    Null,
    Bool(bool),
    /// A number that is a whole number within the range of `i64`.
    Integer(i64),
    /// Any other number, as it is written.
    Number(String),
    Text(String),
    List(Vec<Json>),
    /// The members of an object, in the order of the file.
    Object(Vec<(String, Json)>),
}

/// Why a field could not be taken from a value.
#[derive(Clone, Copy, Debug, PartialEq, Eq, Structural)]
pub enum JsonError {
    /// The field is missing or holds no text.
    InvalidText,
    /// The field is missing or holds no whole number.
    InvalidInteger,
    /// The field is missing or holds no list.
    InvalidList,
    /// An item of the list holds no text.
    InvalidItem,
}

/// A field taken from a value.
#[derive(Debug, PartialEq, Eq)]
pub struct JsonValue<T>(pub T);

/// The first member called `key` among `members`.
pub open spec fn member_among(members: Seq<(String, Json)>, key: Seq<char>) -> Option<Json>
    decreases members.len(),
{
    if members.len() == 0 {
        None
    } else if members.first().0@ == key {
        Some(members.first().1)
    } else {
        member_among(members.drop_first(), key)
    }
}

/// The texts of a list of values, if every value is a text.
pub open spec fn texts_among(items: Seq<Json>, n: int) -> Option<Seq<Seq<char>>>
    decreases n,
{
    if n <= 0 {
        Some(Seq::empty())
    } else {
        match (texts_among(items, n - 1), items[n - 1]) {
            (Some(texts), Json::Text(text)) => Some(texts.push(text@)),
            _ => None,
        }
    }
}

/// The texts of a list of strings.
pub open spec fn text_views(texts: Seq<String>) -> Seq<Seq<char>> {
    Seq::new(texts.len(), |i: int| texts[i]@)
}

impl Json {
    /// The member called `key` of an object; `None` for a value that is no
    /// object or has no such member.
    pub open spec fn member(self, key: Seq<char>) -> Option<Json> {
        match self {
            Json::Object(members) => member_among(members@, key),
            _ => None,
        }
    }

    /// The value reached from this one by taking the member `fields[0]`,
    /// then of that the member `fields[1]`, and so on through the first `n`
    /// fields.
    pub open spec fn descended(self, fields: Seq<&str>, n: int) -> Option<Json>
        decreases n,
    {
        if n <= 0 {
            Some(self)
        } else {
            match self.descended(fields, n - 1) {
                Some(value) => value.member(fields[n - 1]@),
                None => None,
            }
        }
    }

    /// The member of this value that the last of `fields` names; the value
    /// itself where there are no fields.
    pub open spec fn last_member(self, fields: Seq<&str>) -> Option<Json> {
        if fields.len() == 0 {
            Some(self)
        } else {
            self.member(fields.last()@)
        }
    }

    /// The text that the value holds.
    pub open spec fn text(self) -> Option<Seq<char>> {
        match self {
            Json::Text(text) => Some(text@),
            _ => None,
        }
    }

    /// The text of the member called `key`.
    pub open spec fn field_text(self, key: Seq<char>) -> Result<Seq<char>, JsonError> {
        match self.member(key) {
            Some(Json::Text(text)) => Ok(text@),
            _ => Err(JsonError::InvalidText),
        }
    }

    /// The whole number of the member called `key`.
    pub open spec fn field_integer(self, key: Seq<char>) -> Result<i64, JsonError> {
        match self.member(key) {
            Some(Json::Integer(number)) => Ok(number),
            _ => Err(JsonError::InvalidInteger),
        }
    }

    /// The items of the member called `key`, which must be a list.
    pub open spec fn field_items(self, key: Seq<char>) -> Result<Seq<Json>, JsonError> {
        match self.member(key) {
            Some(Json::List(items)) => Ok(items@),
            _ => Err(JsonError::InvalidList),
        }
    }

    /// The texts of the member called `key`, which must be a list of texts.
    pub open spec fn field_texts(self, key: Seq<char>) -> Result<Seq<Seq<char>>, JsonError> {
        match self.member(key) {
            Some(Json::List(items)) => match texts_among(items@, items@.len() as int) {
                Some(texts) => Ok(texts),
                None => Err(JsonError::InvalidItem),
            },
            _ => Err(JsonError::InvalidList),
        }
    }

    /// The tooltips of a tier: the texts under `tiers`, the name of the
    /// tier, `tooltips`.
    pub open spec fn tier_texts(self, tier: Seq<char>) -> Result<Seq<Seq<char>>, JsonError> {
        match self.member("tiers"@) {
            Some(tiers) => match tiers.member(tier) {
                Some(entry) => entry.field_texts("tooltips"@),
                None => Err(JsonError::InvalidList),
            },
            None => Err(JsonError::InvalidList),
        }
    }

    /// Takes the text of the member called `key`.
    pub fn text_of(&self, key: &str) -> (text: Result<String, JsonError>)
        ensures
            match text {
                Ok(found) => self.field_text(key@) == Ok::<Seq<char>, JsonError>(found@),
                Err(error) => self.field_text(key@) == Err::<Seq<char>, JsonError>(error),
            },
    {
        match self.get(key) {
            Some(Json::Text(text)) => Ok(text.clone()),
            _ => Err(JsonError::InvalidText),
        }
    }

    /// Takes the whole number of the member called `key`.
    pub fn integer_of(&self, key: &str) -> (number: Result<i64, JsonError>)
        ensures
            number == self.field_integer(key@),
    {
        match self.get(key) {
            Some(Json::Integer(number)) => Ok(*number),
            _ => Err(JsonError::InvalidInteger),
        }
    }

    /// Takes the items of the member called `key`.
    pub fn items_of(&self, key: &str) -> (items: Result<&Vec<Json>, JsonError>)
        ensures
            match items {
                Ok(list) => self.field_items(key@) == Ok::<Seq<Json>, JsonError>(list@),
                Err(error) => self.field_items(key@) == Err::<Seq<Json>, JsonError>(error),
            },
    {
        match self.get(key) {
            Some(Json::List(items)) => Ok(items),
            _ => Err(JsonError::InvalidList),
        }
    }

    /// Takes the texts of the member called `key`.
    pub fn texts_of(&self, key: &str) -> (texts: Result<Vec<String>, JsonError>)
        ensures
            match texts {
                Ok(list) => self.field_texts(key@) == Ok::<Seq<Seq<char>>, JsonError>(
                    text_views(list@),
                ),
                Err(error) => self.field_texts(key@) == Err::<Seq<Seq<char>>, JsonError>(error),
            },
    {
        match self.get(key) {
            Some(Json::List(items)) => match Json::texts(items) {
                Some(texts) => Ok(texts),
                None => Err(JsonError::InvalidItem),
            },
            _ => Err(JsonError::InvalidList),
        }
    }

    /// Takes the tooltips of a tier.
    pub fn tier_texts_of(&self, tier: &str) -> (texts: Result<Vec<String>, JsonError>)
        ensures
            match texts {
                Ok(list) => self.tier_texts(tier@) == Ok::<Seq<Seq<char>>, JsonError>(
                    text_views(list@),
                ),
                Err(error) => self.tier_texts(tier@) == Err::<Seq<Seq<char>>, JsonError>(error),
            },
    {
        match self.get("tiers") {
            Some(tiers) => match tiers.get(tier) {
                Some(entry) => entry.texts_of("tooltips"),
                None => Err(JsonError::InvalidList),
            },
            None => Err(JsonError::InvalidList),
        }
    }

    /// The member called `key` of an object.
    pub fn get(&self, key: &str) -> (member: Option<&Json>)
        ensures
            match member {
                Some(found) => self.member(key@) == Some(*found),
                None => self.member(key@) is None,
            },
    {
        match self {
            Json::Object(members) => {
                let mut i: usize = 0;
                assert(members@.skip(0) =~= members@);
                while i < members.len()
                    invariant
                        i <= members@.len(),
                        *self == Json::Object(*members),
                        member_among(members@, key@) == member_among(members@.skip(i as int), key@),
                    decreases members@.len() - i,
                {
                    assert(members@.skip(i as int).drop_first() =~= members@.skip(i as int + 1));
                    assert(members@.skip(i as int).first() == members@[i as int]);
                    if same_text(members[i].0.as_str(), key) {
                        return Some(&members[i].1);
                    }
                    i = i + 1;
                }
                None
            },
            _ => None,
        }
    }

    /// The value reached through a path of fields.
    pub fn descend(&self, fields: &[&str]) -> (value: Option<&Json>)
        ensures
            match value {
                Some(found) => self.descended(fields@, fields@.len() as int) == Some(*found),
                None => self.descended(fields@, fields@.len() as int) is None,
            },
    {
        let mut value: &Json = self;
        let mut i: usize = 0;
        while i < fields.len()
            invariant
                i <= fields@.len(),
                self.descended(fields@, i as int) == Some(*value),
            decreases fields@.len() - i,
        {
            match value.get(fields[i]) {
                Some(next) => {
                    value = next;
                },
                None => {
                    proof {
                        descent_stays_lost(*self, fields@, i as int + 1, fields@.len() as int);
                    }
                    return None;
                },
            }
            i = i + 1;
        }
        Some(value)
    }

    /// The member that the last of a list of fields names.
    pub fn get_last(&self, fields: &[&str]) -> (value: Option<&Json>)
        ensures
            match value {
                Some(found) => self.last_member(fields@) == Some(*found),
                None => self.last_member(fields@) is None,
            },
    {
        if fields.len() == 0 {
            Some(self)
        } else {
            self.get(fields[fields.len() - 1])
        }
    }

    /// The text that the value holds.
    pub fn as_str(&self) -> (text: Option<&str>)
        ensures
            match text {
                Some(found) => self.text() == Some(found@),
                None => self.text() is None,
            },
    {
        match self {
            Json::Text(text) => Some(text.as_str()),
            _ => None,
        }
    }

    /// The whole number that the value holds.
    pub fn as_i64(&self) -> (number: Option<i64>)
        ensures
            number == match *self {
                Json::Integer(n) => Some(n),
                _ => None::<i64>,
            },
    {
        match self {
            Json::Integer(number) => Some(*number),
            _ => None,
        }
    }

    /// The items of the list that the value holds.
    pub fn as_array(&self) -> (items: Option<&Vec<Json>>)
        ensures
            match items {
                Some(list) => *self == Json::List(*list),
                None => !(self is List),
            },
    {
        match self {
            Json::List(items) => Some(items),
            _ => None,
        }
    }

    /// The texts of the items of a list, if all items are texts.
    pub fn texts(items: &Vec<Json>) -> (texts: Option<Vec<String>>)
        ensures
            match texts {
                Some(list) => texts_among(items@, items@.len() as int) == Some(text_views(list@)),
                None => texts_among(items@, items@.len() as int) is None,
            },
    {
        let mut texts: Vec<String> = Vec::new();
        let mut i: usize = 0;
        assert(text_views(texts@) =~= Seq::<Seq<char>>::empty());
        while i < items.len()
            invariant
                i <= items@.len(),
                texts_among(items@, i as int) == Some(text_views(texts@)),
            decreases items@.len() - i,
        {
            match &items[i] {
                Json::Text(text) => {
                    let ghost before = text_views(texts@);
                    texts.push(text.clone());
                    assert(text_views(texts@) =~= before.push(text@));
                },
                _ => {
                    proof {
                        texts_stay_lost(items@, i as int + 1, items@.len() as int);
                    }
                    return None;
                },
            }
            i = i + 1;
        }
        Some(texts)
    }
}

/// A path that is lost after `n` fields is lost after any more.
pub proof fn descent_stays_lost(value: Json, fields: Seq<&str>, n: int, m: int)
    requires
        0 <= n <= m,
        value.descended(fields, n) is None,
    ensures
        value.descended(fields, m) is None,
    decreases m - n,
{
    if n < m {
        descent_stays_lost(value, fields, n, m - 1);
    }
}

/// A list whose first `n` items are not all texts is not all texts.
pub proof fn texts_stay_lost(items: Seq<Json>, n: int, m: int)
    requires
        0 <= n <= m,
        texts_among(items, n) is None,
    ensures
        texts_among(items, m) is None,
    decreases m - n,
{
    if n < m {
        texts_stay_lost(items, n, m - 1);
    }
}

impl JsonValue<String> {
    /// The text of a field. Of a list of fields the last one is looked up,
    /// in the value itself.
    pub open spec fn extracted(value: Json, fields: Seq<&str>) -> Result<Seq<char>, JsonError> {
        match value.last_member(fields) {
            Some(Json::Text(text)) => Ok(text@),
            _ => Err(JsonError::InvalidText),
        }
    }

    /// Takes the text of a field.
    pub fn extract(value: &Json, fields: &[&str]) -> (field: Result<JsonValue<String>, JsonError>)
        ensures
            match field {
                Ok(text) => Self::extracted(*value, fields@) == Ok::<Seq<char>, JsonError>(text.0@),
                Err(error) => Self::extracted(*value, fields@) == Err::<Seq<char>, JsonError>(
                    error,
                ),
            },
    {
        match value.get_last(fields) {
            Some(Json::Text(text)) => Ok(JsonValue(text.clone())),
            _ => Err(JsonError::InvalidText),
        }
    }
}

impl JsonValue<i64> {
    /// The whole number of a field. Of a list of fields the last one is
    /// looked up, in the value itself.
    pub open spec fn extracted(value: Json, fields: Seq<&str>) -> Result<i64, JsonError> {
        match value.last_member(fields) {
            Some(Json::Integer(number)) => Ok(number),
            _ => Err(JsonError::InvalidInteger),
        }
    }

    /// Takes the whole number of a field.
    pub fn extract(value: &Json, fields: &[&str]) -> (field: Result<JsonValue<i64>, JsonError>)
        ensures
            match field {
                Ok(number) => Self::extracted(*value, fields@) == Ok::<i64, JsonError>(number.0),
                Err(error) => Self::extracted(*value, fields@) == Err::<i64, JsonError>(error),
            },
    {
        match value.get_last(fields) {
            Some(Json::Integer(number)) => Ok(JsonValue(*number)),
            _ => Err(JsonError::InvalidInteger),
        }
    }
}

impl JsonValue<Vec<String>> {
    /// The texts of the list that a path of fields leads to.
    pub open spec fn extracted(value: Json, fields: Seq<&str>) -> Result<Seq<Seq<char>>, JsonError> {
        match value.descended(fields, fields.len() as int) {
            Some(Json::List(items)) => match texts_among(items@, items@.len() as int) {
                Some(texts) => Ok(texts),
                None => Err(JsonError::InvalidItem),
            },
            _ => Err(JsonError::InvalidList),
        }
    }

    /// Takes the texts of the list that a path of fields leads to.
    pub fn extract(value: &Json, fields: &[&str]) -> (field: Result<
        JsonValue<Vec<String>>,
        JsonError,
    >)
        ensures
            match field {
                Ok(texts) => Self::extracted(*value, fields@) == Ok::<Seq<Seq<char>>, JsonError>(
                    text_views(texts.0@),
                ),
                Err(error) => Self::extracted(*value, fields@) == Err::<
                    Seq<Seq<char>>,
                    JsonError,
                >(error),
            },
    {
        match value.descend(fields) {
            Some(Json::List(items)) => match Json::texts(items) {
                Some(texts) => Ok(JsonValue(texts)),
                None => Err(JsonError::InvalidItem),
            },
            _ => Err(JsonError::InvalidList),
        }
    }
}

} // verus!
