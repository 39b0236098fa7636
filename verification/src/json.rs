//! A JSON tree and its mathematical view.

use vstd::prelude::*;

verus! {

/// A JSON value.
#[derive(Debug, PartialEq, Eq)]
pub enum Json {
    Null,
    Bool(bool),
    /// A number. The recipe rules never read its value, so none is kept.
    Number,
    String(String),
    Array(Vec<Json>),
    Object(JsonObject),
}

/// A JSON object: its members, in the order in which they are searched.
#[derive(Debug, PartialEq, Eq)]
pub struct JsonObject {
    pub members: Vec<(String, Json)>,
}

/// What a [`Json`] value stands for.
pub enum JsonView {
    Null,
    Bool(bool),
    Number,
    String(Seq<char>),
    Array(Seq<JsonView>),
    Object(ObjectView),
}

/// What a [`JsonObject`] stands for: pairs of a key and a value.
pub type ObjectView = Seq<(Seq<char>, JsonView)>;

impl Json {
    /// The tree below this value. Each index is tested against the length
    /// before the element is read: that is what shows that the recursion
    /// ends. [`lemma_array_view`] and [`lemma_object_view`] give the plain
    /// reading.
    pub open spec fn tree(&self) -> JsonView
        decreases self,
    {
        match self {
            Json::Null => JsonView::Null,
            Json::Bool(b) => JsonView::Bool(*b),
            Json::Number => JsonView::Number,
            Json::String(s) => JsonView::String(s@),
            Json::Array(items) => JsonView::Array(
                Seq::new(
                    items@.len(),
                    |i: int|
                        if 0 <= i < items@.len() {
                            items@[i].tree()
                        } else {
                            JsonView::Null
                        },
                ),
            ),
            Json::Object(object) => JsonView::Object(
                Seq::new(
                    object.members@.len(),
                    |i: int|
                        if 0 <= i < object.members@.len() {
                            (object.members@[i].0@, object.members@[i].1.tree())
                        } else {
                            (Seq::empty(), JsonView::Null)
                        },
                ),
            ),
        }
    }
}

impl View for Json {
    type V = JsonView;

    open spec fn view(&self) -> JsonView {
        self.tree()
    }
}

impl DeepView for Json {
    type V = JsonView;

    open spec fn deep_view(&self) -> JsonView {
        self@
    }
}

impl View for JsonObject {
    type V = ObjectView;

    open spec fn view(&self) -> ObjectView {
        members_view(self.members@)
    }
}

impl DeepView for JsonObject {
    type V = ObjectView;

    open spec fn deep_view(&self) -> ObjectView {
        self@
    }
}

/// The views of a sequence of values.
pub open spec fn items_view(items: Seq<Json>) -> Seq<JsonView> {
    items.map_values(|item: Json| item@)
}

/// The views of a sequence of members.
pub open spec fn members_view(members: Seq<(String, Json)>) -> ObjectView {
    members.map_values(|member: (String, Json)| (member.0@, member.1@))
}

/// The view of an array is the array of its items' views.
pub proof fn lemma_array_view(items: Vec<Json>)
    ensures
        Json::Array(items)@ == JsonView::Array(items_view(items@)),
{
    assert(Json::Array(items)@->Array_0 =~= items_view(items@));
}

/// The view of an object value is the object's own view.
pub proof fn lemma_object_view(object: JsonObject)
    ensures
        Json::Object(object)@ == JsonView::Object(object@),
{
    assert(Json::Object(object)@->Object_0 =~= object@);
}

/// The value of the first member of `members` whose key is `key`.
pub open spec fn lookup(members: ObjectView, key: Seq<char>) -> Option<JsonView>
    decreases members.len(),
{
    if members.len() == 0 {
        None
    } else if members[0].0 == key {
        Some(members[0].1)
    } else {
        lookup(members.drop_first(), key)
    }
}

/// The text of a value: its characters where it is a string.
pub open spec fn text_of(v: JsonView) -> Option<Seq<char>> {
    match v {
        JsonView::String(s) => Some(s),
        _ => None,
    }
}

/// The texts of the strings among `items`, in order.
pub open spec fn strings_in(items: Seq<JsonView>) -> Seq<Seq<char>>
    decreases items.len(),
{
    if items.len() == 0 {
        Seq::empty()
    } else {
        match text_of(items.last()) {
            Some(text) => strings_in(items.drop_last()).push(text),
            None => strings_in(items.drop_last()),
        }
    }
}

/// The text of the member `key`, where there is one and it is a string.
pub open spec fn text_field(members: ObjectView, key: Seq<char>) -> Option<Seq<char>> {
    match lookup(members, key) {
        Some(v) => text_of(v),
        None => None,
    }
}

impl JsonObject {
    /// The value of the first member whose key is `key`.
    pub fn get(&self, key: &str) -> (r: Option<&Json>)
        ensures
            r.deep_view() == lookup(self@, key@),
    {
        let wanted = key.to_owned();
        let mut i: usize = 0;
        assert(self@.skip(0) =~= self@);
        while i < self.members.len()
            invariant
                i <= self.members@.len(),
                wanted@ == key@,
                lookup(self@, key@) == lookup(self@.skip(i as int), key@),
            decreases self.members@.len() - i,
        {
            if self.members[i].0 == wanted {
                return Some(&self.members[i].1);
            }
            assert(self@.skip(i as int).drop_first() =~= self@.skip(i + 1));
            i += 1;
        }
        None
    }
}

impl Json {
    /// The object of an object value.
    pub fn as_object(&self) -> (r: Option<&JsonObject>)
        ensures
            match r {
                Some(object) => self@ == JsonView::Object(object@) && *self == Json::Object(*object),
                None => !(self@ is Object),
            },
    {
        match self {
            Json::Object(object) => {
                proof {
                    lemma_object_view(*object);
                }
                Some(object)
            },
            _ => None,
        }
    }
}

} // verus!
