//! JSON documents as trees.
//!
//! A payload on the wire is the text of one JSON document. Turning text into
//! a tree and back is the work of a JSON library; what the tree of each
//! message must look like is decided here, on this type.

use vstd::prelude::*;

verus! {

/// A JSON value.
#[derive(Debug)]
pub enum Json {
    Null,
    Bool(bool),
    /// A whole number.
    Number(i128),
    /// A number that is not whole. No message holds one, so its value is not
    /// kept.
    Fraction,
    Text(String),
    List(Vec<Json>),
    /// An object: its members in the order in which they are written.
    Object(Vec<(String, Json)>),
}

/// A [`Json`] value with its texts and collections as sequences.
pub enum JsonView {
    Null,
    Bool(bool),
    Number(int),
    Fraction,
    Text(Seq<char>),
    List(Seq<JsonView>),
    Object(Seq<(Seq<char>, JsonView)>),
}

/// The members of an object.
pub type Members = Seq<(Seq<char>, JsonView)>;

/// The view of a value.
pub open spec fn view_of(value: Json) -> JsonView
    decreases value,
{
    match value {
        Json::Null => JsonView::Null,
        Json::Bool(flag) => JsonView::Bool(flag),
        Json::Number(n) => JsonView::Number(n as int),
        Json::Fraction => JsonView::Fraction,
        Json::Text(text) => JsonView::Text(text@),
        Json::List(items) => JsonView::List(
            Seq::new(
                items@.len(),
                |i: int|
                    if 0 <= i < items@.len() {
                        view_of(items@[i])
                    } else {
                        JsonView::Null
                    },
            ),
        ),
        Json::Object(members) => JsonView::Object(
            Seq::new(
                members@.len(),
                |i: int|
                    if 0 <= i < members@.len() {
                        (members@[i].0@, view_of(members@[i].1))
                    } else {
                        (Seq::empty(), JsonView::Null)
                    },
            ),
        ),
    }
}

impl View for Json {
    type V = JsonView;

    open spec fn view(&self) -> JsonView {
        view_of(*self)
    }
}

/// The members of an object, as the view of the vector that holds them.
pub open spec fn members_of(members: Seq<(String, Json)>) -> Members {
    Seq::new(members.len(), |i: int| (members[i].0@, members[i].1@))
}

/// The value of the first member called `key`, if there is one.
pub open spec fn member(members: Members, key: Seq<char>) -> Option<JsonView>
    decreases members.len(),
{
    if members.len() == 0 {
        None
    } else if members[0].0 == key {
        Some(members[0].1)
    } else {
        member(members.drop_first(), key)
    }
}

impl JsonView {
    /// The value of the member called `key`, if this is an object that has
    /// one.
    pub open spec fn field(self, key: Seq<char>) -> Option<JsonView> {
        match self {
            JsonView::Object(members) => member(members, key),
            _ => None,
        }
    }
}

impl JsonView {
    /// The text of the member called `key`, if there is such a member and it
    /// is a text.
    pub open spec fn text_at(self, key: Seq<char>) -> Option<Seq<char>> {
        match self.field(key) {
            Some(JsonView::Text(text)) => Some(text),
            _ => None,
        }
    }

    /// The flag of the member called `key`, if there is such a member and it
    /// is a boolean.
    pub open spec fn flag_at(self, key: Seq<char>) -> Option<bool> {
        match self.field(key) {
            Some(JsonView::Bool(flag)) => Some(flag),
            _ => None,
        }
    }

    /// The number of the member called `key`, if there is such a member and
    /// it is a whole number.
    pub open spec fn number_at(self, key: Seq<char>) -> Option<int> {
        match self.field(key) {
            Some(JsonView::Number(n)) => Some(n),
            _ => None,
        }
    }
}

/// The first member called `key` is the one at the first position that
/// carries the key.
pub proof fn lemma_member_at(members: Members, key: Seq<char>, i: int)
    requires
        0 <= i <= members.len(),
        forall|k: int| 0 <= k < i ==> members[k].0 != key,
        i < members.len() ==> members[i].0 == key,
    ensures
        member(members, key) == if i < members.len() {
            Some(members[i].1)
        } else {
            None
        },
    decreases members.len(),
{
    if members.len() > 0 && i > 0 {
        lemma_member_at(members.drop_first(), key, i - 1);
    }
}

impl Json {
    /// A text value.
    pub fn text(content: &str) -> (value: Json)
        ensures
            value@ == JsonView::Text(content@),
    {
        Json::Text(content.to_owned())
    }

    /// An object with these members.
    pub fn object(members: Vec<(String, Json)>) -> (value: Json)
        ensures
            value@ == JsonView::Object(members_of(members@)),
    {
        let value = Json::Object(members);
        assert(value@->Object_0 =~= members_of(members@));
        value
    }

    /// The members, if this is an object.
    pub fn as_object(&self) -> (members: Option<&Vec<(String, Json)>>)
        ensures
            match members {
                Some(found) => self@ == JsonView::Object(members_of(found@)),
                None => !(self@ is Object),
            },
    {
        match self {
            Json::Object(found) => {
                assert(self@->Object_0 =~= members_of(found@));
                Some(found)
            },
            _ => None,
        }
    }

    /// The value of the member called `key`, if this is an object that has
    /// one.
    pub fn field(&self, key: &str) -> (value: Option<&Json>)
        ensures
            match value {
                Some(found) => self@.field(key@) == Some(found@),
                None => self@.field(key@) is None,
            },
    {
        match self {
            Json::Object(members) => {
                let wanted = key.to_owned();
                let n = members.len();
                let mut i: usize = 0;
                while i < n && !(members[i].0 == wanted)
                    invariant
                        n == members@.len(),
                        i <= n,
                        wanted@ == key@,
                        forall|k: int| 0 <= k < i ==> members@[k].0@ != key@,
                    decreases n - i,
                {
                    i = i + 1;
                }
                proof {
                    lemma_member_at(self@->Object_0, key@, i as int);
                }
                if i < n {
                    Some(&members[i].1)
                } else {
                    None
                }
            },
            _ => None,
        }
    }

    /// The text, if this is a text value.
    pub fn as_text(&self) -> (text: Option<&String>)
        ensures
            match text {
                Some(content) => self@ == JsonView::Text(content@),
                None => !(self@ is Text),
            },
    {
        match self {
            Json::Text(content) => Some(content),
            _ => None,
        }
    }

    /// The flag, if this is a boolean value.
    pub fn as_bool(&self) -> (flag: Option<bool>)
        ensures
            match flag {
                Some(b) => self@ == JsonView::Bool(b),
                None => !(self@ is Bool),
            },
    {
        match self {
            Json::Bool(b) => Some(*b),
            _ => None,
        }
    }

    /// The number, if this is a whole number.
    pub fn as_number(&self) -> (number: Option<i128>)
        ensures
            match number {
                Some(n) => self@ == JsonView::Number(n as int),
                None => !(self@ is Number),
            },
    {
        match self {
            Json::Number(n) => Some(*n),
            _ => None,
        }
    }

    /// The text of the member called `key`.
    pub fn text_at(&self, key: &str) -> (text: Option<&String>)
        ensures
            match text {
                Some(content) => self@.text_at(key@) == Some(content@),
                None => self@.text_at(key@) is None,
            },
    {
        match self.field(key) {
            Some(value) => value.as_text(),
            None => None,
        }
    }

    /// The flag of the member called `key`.
    pub fn flag_at(&self, key: &str) -> (flag: Option<bool>)
        ensures
            flag == self@.flag_at(key@),
    {
        match self.field(key) {
            Some(value) => value.as_bool(),
            None => None,
        }
    }

    /// The number of the member called `key`.
    pub fn number_at(&self, key: &str) -> (number: Option<i128>)
        ensures
            match number {
                Some(n) => self@.number_at(key@) == Some(n as int),
                None => self@.number_at(key@) is None,
            },
    {
        match self.field(key) {
            Some(value) => value.as_number(),
            None => None,
        }
    }
}

} // verus!
