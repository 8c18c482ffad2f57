//! The interchange form: a small tree of tagged objects, lists and scalars that
//! any consumer can read without knowing the expression types.

use vstd::prelude::*;

verus! {

/// A value of the interchange form.
///
/// An object keeps its fields in the order in which they were written, so a
/// consumer that reads a stream meets a parent's tag before its children.
#[derive(Debug, PartialEq, Eq, Hash)]
pub enum InterchangeValue {
    /// The explicit marker for an absent optional field.
    Null,
    Bool(bool),
    /// A count. Numbers that are part of the mathematics stay text.
    Number(u64),
    Text(String),
    List(Vec<InterchangeValue>),
    Object(Vec<(String, InterchangeValue)>),
}

/// The mathematical value of an [`InterchangeValue`].
pub ghost enum Json {
    Null,
    Bool(bool),
    Number(u64),
    Text(Seq<char>),
    List(Seq<Json>),
    Object(Seq<(Seq<char>, Json)>),
}

impl View for InterchangeValue {
    type V = Json;

    open spec fn view(&self) -> Json {
        json_view(*self)
    }
}

/// The value of an interchange value: strings and vectors by their contents.
pub open spec fn json_view(value: InterchangeValue) -> Json
    decreases value, 0nat,
{
    match value {
        InterchangeValue::Null => Json::Null,
        InterchangeValue::Bool(b) => Json::Bool(b),
        InterchangeValue::Number(n) => Json::Number(n),
        InterchangeValue::Text(s) => Json::Text(s@),
        InterchangeValue::List(items) => Json::List(
            Seq::new(
                items.len() as nat,
                |i: int|
                    if 0 <= i < items.len() {
                        json_view(items[i])
                    } else {
                        arbitrary()
                    },
            ),
        ),
        InterchangeValue::Object(fields) => Json::Object(
            Seq::new(
                fields.len() as nat,
                |i: int|
                    if 0 <= i < fields.len() {
                        (fields[i].0@, json_view(fields[i].1))
                    } else {
                        arbitrary()
                    },
            ),
        ),
    }
}

/// The values of the fields of an object under construction.
pub open spec fn fields_view(fields: Seq<(String, InterchangeValue)>) -> Seq<(Seq<char>, Json)> {
    fields.map_values(|f: (String, InterchangeValue)| (f.0@, f.1@))
}

/// The values of the items of a list under construction.
pub open spec fn items_view(items: Seq<InterchangeValue>) -> Seq<Json> {
    items.map_values(|v: InterchangeValue| v@)
}

/// The two fields every node object starts with: its kind and the node's id.
pub open spec fn header(tag: Seq<char>, id: Seq<char>) -> Seq<(Seq<char>, Json)> {
    Seq::empty().push(("type"@, Json::Text(tag))).push(("id"@, Json::Text(id)))
}

/// Whether `fields` starts with the two header fields.
pub open spec fn has_header(fields: Seq<(Seq<char>, Json)>) -> bool {
    &&& text_field(fields, 0, "type"@)
    &&& text_field(fields, 1, "id"@)
}

/// Whether field `i` exists, is called `name` and holds text.
pub open spec fn text_field(fields: Seq<(Seq<char>, Json)>, i: int, name: Seq<char>) -> bool {
    0 <= i < fields.len() && fields[i].0 == name && fields[i].1 is Text
}

/// Whether field `i` exists, is called `name` and holds a number.
pub open spec fn number_field(fields: Seq<(Seq<char>, Json)>, i: int, name: Seq<char>) -> bool {
    0 <= i < fields.len() && fields[i].0 == name && fields[i].1 is Number
}

/// Whether field `i` exists, is called `name` and holds a boolean.
pub open spec fn bool_field(fields: Seq<(Seq<char>, Json)>, i: int, name: Seq<char>) -> bool {
    0 <= i < fields.len() && fields[i].0 == name && fields[i].1 is Bool
}

/// The value of the first field called `key`, if there is one.
pub open spec fn lookup(fields: Seq<(Seq<char>, Json)>, key: Seq<char>) -> Option<Json>
    decreases fields.len(),
{
    if fields.len() == 0 {
        None
    } else if fields[0].0 == key {
        Some(fields[0].1)
    } else {
        lookup(fields.drop_first(), key)
    }
}

/// The greatest of `heights`, and 0 where there is none.
pub open spec fn greatest(heights: Seq<nat>) -> nat
    decreases heights.len(),
{
    if heights.len() == 0 {
        0
    } else {
        let rest = greatest(heights.drop_last());
        if heights.last() > rest {
            heights.last()
        } else {
            rest
        }
    }
}

/// The greatest of some heights is within a bound exactly when each of them
/// is.
pub proof fn lemma_greatest_bound(heights: Seq<nat>, bound: int)
    ensures
        greatest(heights) <= bound <==> bound >= 0 && forall|i: int|
            0 <= i < heights.len() ==> #[trigger] heights[i] <= bound,
    decreases heights.len(),
{
    if heights.len() > 0 {
        let front = heights.drop_last();
        lemma_greatest_bound(front, bound);
        if greatest(heights) <= bound {
            assert forall|i: int| 0 <= i < heights.len() implies #[trigger] heights[i] <= bound by {
                if i < front.len() {
                    assert(front[i] == heights[i]);
                }
            }
        }
        if bound >= 0 && forall|i: int| 0 <= i < heights.len() ==> #[trigger] heights[i] <= bound {
            assert forall|i: int| 0 <= i < front.len() implies #[trigger] front[i] <= bound by {
                assert(front[i] == heights[i]);
            }
        }
    }
}

impl Json {
    /// The heights of the values directly inside this one.
    pub open spec fn entry_depths(self) -> Seq<nat>
        decreases self, 0nat,
    {
        match self {
            Json::List(items) => Seq::new(
                items.len(),
                |i: int|
                    if 0 <= i < items.len() {
                        items[i].depth()
                    } else {
                        0
                    },
            ),
            Json::Object(fields) => Seq::new(
                fields.len(),
                |i: int|
                    if 0 <= i < fields.len() {
                        fields[i].1.depth()
                    } else {
                        0
                    },
            ),
            _ => Seq::empty(),
        }
    }

    /// How many levels the value nests. A scalar is one level; a list or an
    /// object is one level more than its deepest entry.
    pub open spec fn depth(self) -> nat
        decreases self, 1nat,
    {
        1 + greatest(self.entry_depths())
    }

    /// The `type` words found inside each entry of this value.
    pub open spec fn entry_type_words(self) -> Seq<Seq<Seq<char>>>
        decreases self, 0nat,
    {
        match self {
            Json::List(items) => Seq::new(
                items.len(),
                |i: int|
                    if 0 <= i < items.len() {
                        items[i].type_words()
                    } else {
                        Seq::empty()
                    },
            ),
            Json::Object(fields) => Seq::new(
                fields.len(),
                |i: int|
                    if 0 <= i < fields.len() {
                        fields[i].1.type_words()
                    } else {
                        Seq::empty()
                    },
            ),
            _ => Seq::empty(),
        }
    }

    /// The `type` word of this value itself: the text of its first field, where
    /// the value is an object whose first field is called `type`.
    pub open spec fn own_type_word(self) -> Seq<Seq<char>> {
        match self {
            Json::Object(fields) => if text_field(fields, 0, "type"@) {
                Seq::empty().push(fields[0].1->Text_0)
            } else {
                Seq::empty()
            },
            _ => Seq::empty(),
        }
    }

    /// Every `type` word in this value, in the order in which a reader of the
    /// value as a stream meets them: that of an object before those inside it,
    /// and those inside it entry by entry.
    pub open spec fn type_words(self) -> Seq<Seq<char>>
        decreases self, 1nat,
    {
        self.own_type_word() + self.entry_type_words().flatten()
    }

    /// A value is within a limit exactly when the limit is positive and every
    /// entry is within one less.
    pub proof fn lemma_depth_bound(self, limit: int)
        ensures
            self.depth() <= limit <==> limit >= 1 && match self {
                Json::List(items) => forall|i: int|
                    0 <= i < items.len() ==> (#[trigger] items[i]).depth() <= limit - 1,
                Json::Object(fields) => forall|i: int|
                    0 <= i < fields.len() ==> (#[trigger] fields[i]).1.depth() <= limit - 1,
                _ => true,
            },
    {
        let depths = self.entry_depths();
        lemma_greatest_bound(depths, limit - 1);
        match self {
            Json::List(items) => {
                if greatest(depths) <= limit - 1 {
                    assert forall|i: int| 0 <= i < items.len() implies (#[trigger] items[i]).depth()
                        <= limit - 1 by {
                        assert(depths[i] == items[i].depth());
                    }
                }
            },
            Json::Object(fields) => {
                if greatest(depths) <= limit - 1 {
                    assert forall|i: int|
                        0 <= i < fields.len() implies (#[trigger] fields[i]).1.depth() <= limit
                        - 1 by {
                        assert(depths[i] == fields[i].1.depth());
                    }
                }
            },
            _ => {},
        }
    }
}

/// Whether two string slices hold the same characters.
pub fn str_eq(a: &str, b: &str) -> (same: bool)
    ensures
        same == (a@ == b@),
{
    let left = a.to_owned();
    let right = b.to_owned();
    left == right
}

/// The text value that holds the characters of `s`.
pub fn text_value(s: &str) -> (value: InterchangeValue)
    ensures
        value@ == Json::Text(s@),
{
    InterchangeValue::Text(s.to_owned())
}

/// The fields of a node object of kind `tag` for the node `id`, ready to take
/// the fields of the content.
pub fn start_object(tag: &str, id: &String) -> (fields: Vec<(String, InterchangeValue)>)
    ensures
        fields_view(fields@) == header(tag@, id@),
{
    let mut fields: Vec<(String, InterchangeValue)> = Vec::new();
    fields.push(("type".to_owned(), text_value(tag)));
    fields.push(("id".to_owned(), text_value(id.as_str())));
    assert(fields_view(fields@) =~= header(tag@, id@));
    fields
}

/// Appends the field `name` with `value`.
pub fn push_field(fields: &mut Vec<(String, InterchangeValue)>, name: &str, value: InterchangeValue)
    ensures
        fields_view(final(fields)@) == fields_view(old(fields)@).push((name@, value@)),
{
    fields.push((name.to_owned(), value));
    assert(fields_view(fields@) =~= fields_view(old(fields)@).push((name@, value@)));
}

/// The object that holds `fields` in their order.
pub fn finish_object(fields: Vec<(String, InterchangeValue)>) -> (value: InterchangeValue)
    ensures
        value@ == Json::Object(fields_view(fields@)),
{
    let value = InterchangeValue::Object(fields);
    assert(value@->Object_0 =~= fields_view(fields@));
    value
}

/// The list that holds `items` in their order.
pub fn finish_list(items: Vec<InterchangeValue>) -> (value: InterchangeValue)
    ensures
        value@ == Json::List(items_view(items@)),
{
    let value = InterchangeValue::List(items);
    assert(value@->List_0 =~= items_view(items@));
    value
}

/// Whether field `i` exists and is called `name`.
pub fn key_is(fields: &Vec<(String, InterchangeValue)>, i: usize, name: &str) -> (yes: bool)
    ensures
        yes == (i < fields.len() && fields_view(fields@)[i as int].0 == name@),
{
    i < fields.len() && str_eq(fields[i].0.as_str(), name)
}

/// The text of field `i`, where that field exists, is called `name` and holds
/// text.
pub fn text_at<'a>(fields: &'a Vec<(String, InterchangeValue)>, i: usize, name: &str) -> (text:
    Option<&'a String>)
    ensures
        text is Some == text_field(fields_view(fields@), i as int, name@),
        text matches Some(s) ==> s@ == fields_view(fields@)[i as int].1->Text_0,
{
    if key_is(fields, i, name) {
        match &fields[i].1 {
            InterchangeValue::Text(s) => Some(s),
            _ => None,
        }
    } else {
        None
    }
}

/// The number in field `i`, where that field exists, is called `name` and
/// holds a number.
pub fn number_at(fields: &Vec<(String, InterchangeValue)>, i: usize, name: &str) -> (number:
    Option<u64>)
    ensures
        number is Some == number_field(fields_view(fields@), i as int, name@),
        number matches Some(n) ==> n == fields_view(fields@)[i as int].1->Number_0,
{
    if key_is(fields, i, name) {
        match &fields[i].1 {
            InterchangeValue::Number(n) => Some(*n),
            _ => None,
        }
    } else {
        None
    }
}

/// The boolean in field `i`, where that field exists, is called `name` and
/// holds a boolean.
pub fn bool_at(fields: &Vec<(String, InterchangeValue)>, i: usize, name: &str) -> (flag: Option<
    bool,
>)
    ensures
        flag is Some == bool_field(fields_view(fields@), i as int, name@),
        flag matches Some(b) ==> b == fields_view(fields@)[i as int].1->Bool_0,
{
    if key_is(fields, i, name) {
        match &fields[i].1 {
            InterchangeValue::Bool(b) => Some(*b),
            _ => None,
        }
    } else {
        None
    }
}

impl InterchangeValue {
    /// The value of the first field called `key`, where `self` is an object
    /// that has such a field.
    pub fn get(&self, key: &str) -> (found: Option<&InterchangeValue>)
        ensures
            match self@ {
                Json::Object(fields) => match found {
                    Some(value) => lookup(fields, key@) == Some(value@),
                    None => lookup(fields, key@) is None,
                },
                _ => found is None,
            },
    {
        match self {
            InterchangeValue::Object(fields) => {
                let ghost all = fields_view(fields@);
                assert(self@->Object_0 =~= all);
                assert(all.skip(0) =~= all);
                let mut i: usize = 0;
                while i < fields.len()
                    invariant
                        i <= fields.len(),
                        self@ == Json::Object(all),
                        all == fields_view(fields@),
                        lookup(all, key@) == lookup(all.skip(i as int), key@),
                    decreases fields.len() - i,
                {
                    assert(all.skip(i as int)[0] == all[i as int]);
                    if key_is(fields, i, key) {
                        return Some(&fields[i].1);
                    }
                    assert(all.skip(i as int).drop_first() =~= all.skip(i as int + 1));
                    i += 1;
                }
                Option::None
            },
            _ => Option::None,
        }
    }

    /// Whether the value nests at most `limit` levels deep.
    pub fn within_depth(&self, limit: usize) -> (ok: bool)
        ensures
            ok == (self@.depth() <= limit),
        decreases limit,
    {
        proof {
            self@.lemma_depth_bound(limit as int);
        }
        if limit == 0 {
            return false;
        }
        match self {
            InterchangeValue::List(items) => {
                let ghost all = self@->List_0;
                assert(all =~= items_view(items@));
                let mut i: usize = 0;
                while i < items.len()
                    invariant
                        i <= items.len(),
                        limit > 0,
                        self@ == Json::List(all),
                        all == items_view(items@),
                        self@.depth() <= limit <==> forall|j: int|
                            0 <= j < all.len() ==> (#[trigger] all[j]).depth() <= limit - 1,
                        forall|j: int| 0 <= j < i ==> (#[trigger] all[j]).depth() <= limit - 1,
                    decreases items.len() - i,
                {
                    if !items[i].within_depth(limit - 1) {
                        assert(all[i as int].depth() > limit - 1);
                        return false;
                    }
                    i += 1;
                }
                true
            },
            InterchangeValue::Object(fields) => {
                let ghost all = self@->Object_0;
                assert(all =~= fields_view(fields@));
                let mut i: usize = 0;
                while i < fields.len()
                    invariant
                        i <= fields.len(),
                        limit > 0,
                        self@ == Json::Object(all),
                        all == fields_view(fields@),
                        self@.depth() <= limit <==> forall|j: int|
                            0 <= j < all.len() ==> (#[trigger] all[j]).1.depth() <= limit - 1,
                        forall|j: int| 0 <= j < i ==> (#[trigger] all[j]).1.depth() <= limit - 1,
                    decreases fields.len() - i,
                {
                    if !fields[i].1.within_depth(limit - 1) {
                        assert(all[i as int].1.depth() > limit - 1);
                        return false;
                    }
                    i += 1;
                }
                true
            },
            _ => true,
        }
    }
}

/// A copy of `value` with the same value.
fn duplicate(value: &InterchangeValue) -> (copy: InterchangeValue)
    ensures
        copy@ == value@,
    decreases value, 0nat,
{
    match value {
        InterchangeValue::Null => InterchangeValue::Null,
        InterchangeValue::Bool(b) => InterchangeValue::Bool(*b),
        InterchangeValue::Number(n) => InterchangeValue::Number(*n),
        InterchangeValue::Text(s) => InterchangeValue::Text(s.clone()),
        InterchangeValue::List(items) => {
            let mut copies: Vec<InterchangeValue> = Vec::new();
            let mut i: usize = 0;
            while i < items.len()
                invariant
                    i <= items.len(),
                    copies.len() == i,
                    *value is List && value->List_0 == *items,
                    forall|j: int| 0 <= j < i ==> (#[trigger] copies[j])@ == items[j]@,
                decreases items.len() - i,
            {
                assert(decreases_to!(*items => items[i as int]));
                let copy = duplicate(&items[i]);
                copies.push(copy);
                i += 1;
            }
            assert(items_view(copies@) =~= value@->List_0);
            finish_list(copies)
        },
        InterchangeValue::Object(fields) => {
            let mut copies: Vec<(String, InterchangeValue)> = Vec::new();
            let mut i: usize = 0;
            while i < fields.len()
                invariant
                    i <= fields.len(),
                    copies.len() == i,
                    *value is Object && value->Object_0 == *fields,
                    forall|j: int|
                        0 <= j < i ==> (#[trigger] copies[j]).0@ == fields[j].0@ && copies[j].1@
                            == fields[j].1@,
                decreases fields.len() - i,
            {
                assert(decreases_to!(*fields => fields[i as int]));
                let copy = duplicate(&fields[i].1);
                copies.push((fields[i].0.clone(), copy));
                i += 1;
            }
            assert(fields_view(copies@) =~= value@->Object_0);
            finish_object(copies)
        },
    }
}

impl Clone for InterchangeValue {
    /// A copy with the same value.
    fn clone(&self) -> (copy: Self)
        ensures
            copy@ == self@,
    {
        duplicate(self)
    }
}

} // verus!
