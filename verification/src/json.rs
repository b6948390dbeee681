//! The little that is read from and written to JSON documents that hold a token.

use vstd::prelude::*;

verus! {

/// A member of a document: what the tool can read of it.
pub enum JsonMember {
    /// A string.
    Text(String),
    /// An object: each of its keys with its string, if it is one.
    Object(Vec<(String, Option<String>)>),
    /// Anything else.
    Other,
}

/// A JSON document: its members in order if it is an object.
pub struct JsonDocument {
    pub members: Option<Vec<(String, JsonMember)>>,
}

/// A member as a mathematical value.
pub enum MemberView {
    Text(Seq<char>),
    Object(Seq<(Seq<char>, Option<Seq<char>>)>),
    Other,
}

/// The text of an optional string.
pub open spec fn optional_text(s: Option<String>) -> Option<Seq<char>> {
    match s {
        Some(s) => Some(s@),
        None => None,
    }
}

impl View for JsonMember {
    type V = MemberView;

    open spec fn view(&self) -> MemberView {
        match *self {
            JsonMember::Text(s) => MemberView::Text(s@),
            JsonMember::Object(v) => MemberView::Object(
                Seq::new(v@.len(), |i: int| (v@[i].0@, optional_text(v@[i].1))),
            ),
            JsonMember::Other => MemberView::Other,
        }
    }
}

impl View for JsonDocument {
    type V = Option<Seq<(Seq<char>, MemberView)>>;

    open spec fn view(&self) -> Option<Seq<(Seq<char>, MemberView)>> {
        match self.members {
            Some(v) => Some(Seq::new(v@.len(), |i: int| (v@[i].0@, v@[i].1@))),
            None => None,
        }
    }
}

/// The document that a text denotes, or what is wrong with the text.
pub uninterp spec fn json_document(text: Seq<char>) -> Result<
    Option<Seq<(Seq<char>, MemberView)>>,
    Seq<char>,
>;

/// The text of the object that has a single member.
pub uninterp spec fn single_member_text(key: Seq<char>, value: MemberView) -> Seq<char>;

/// Reads a document with `serde_json::from_str::<serde_json::Value>`.
///
/// What it gives, document or error, is a function of the text alone. The members of an object
/// come in the order in which `serde_json` hands them out.
#[verifier::external_body]
pub(crate) fn parse_json(text: &str) -> (r: Result<JsonDocument, String>)
    ensures
        match json_document(text@) {
            Ok(document) => r matches Ok(d) && d@ == document,
            Err(why) => r matches Err(e) && e@ == why,
        },
{
    let entry = |(key, value)| match value {
        serde_json::Value::String(s) => (key, JsonMember::Text(s)),
        serde_json::Value::Object(o) => (key, JsonMember::Object(o.into_iter().map(|(k, v)| (k, v.as_str().map(str::to_owned))).collect())),
        _ => (key, JsonMember::Other),
    };
    match serde_json::from_str::<serde_json::Value>(text) {
        Ok(serde_json::Value::Object(o)) => Ok(JsonDocument { members: Some(o.into_iter().map(entry).collect()) }),
        Ok(_) => Ok(JsonDocument { members: None }),
        Err(e) => Err(e.to_string()),
    }
}

/// Whether a member is a string, or an object whose only member is a string.
pub open spec fn is_plain(value: MemberView) -> bool {
    match value {
        MemberView::Text(_) => true,
        MemberView::Object(members) => members.len() == 1 && members[0].1 is Some,
        MemberView::Other => false,
    }
}

/// Whether a text denotes the object that has a single member.
pub open spec fn reads_as(text: Seq<char>, key: Seq<char>, value: MemberView) -> bool {
    json_document(text) matches Ok(Some(members)) && members == seq![(key, value)]
}

/// Writes an object of one member with the `Display` of `serde_json::Value`.
///
/// What it writes is a function of the key and the value alone. Reading it gives a document whose
/// one member is that key with that value, if the value is a string or an object whose only
/// member is a string.
#[verifier::external_body]
pub(crate) fn write_single_member(key: &str, value: JsonMember) -> (r: String)
    ensures
        r@ == single_member_text(key@, value@),
        is_plain(value@) ==> reads_as(r@, key@, value@),
{
    let value = match value {
        JsonMember::Text(s) => serde_json::Value::String(s),
        JsonMember::Object(v) => v.into_iter().collect(),
        JsonMember::Other => serde_json::Value::Null,
    };
    let object: serde_json::Value = [(key, value)].into_iter().collect();
    object.to_string()
}

/// A member of a document that is written.
pub enum JsonField {
    /// A string.
    Text(String),
    /// A number.
    Number(u64),
    /// A list of objects whose members are strings.
    Objects(Vec<Vec<(String, String)>>),
}

/// A member of a document that is written, as a mathematical value.
pub enum FieldView {
    Text(Seq<char>),
    Number(u64),
    Objects(Seq<Seq<(Seq<char>, Seq<char>)>>),
}

/// Keys and strings as texts.
pub open spec fn pair_texts(pairs: Seq<(String, String)>) -> Seq<(Seq<char>, Seq<char>)> {
    Seq::new(pairs.len(), |i: int| (pairs[i].0@, pairs[i].1@))
}

impl View for JsonField {
    type V = FieldView;

    open spec fn view(&self) -> FieldView {
        match *self {
            JsonField::Text(s) => FieldView::Text(s@),
            JsonField::Number(n) => FieldView::Number(n),
            JsonField::Objects(v) => FieldView::Objects(
                Seq::new(v@.len(), |i: int| pair_texts(v@[i]@)),
            ),
        }
    }
}

/// Keys and values as mathematical values.
pub open spec fn field_views(fields: Seq<(String, JsonField)>) -> Seq<(Seq<char>, FieldView)> {
    Seq::new(fields.len(), |i: int| (fields[i].0@, fields[i].1@))
}

/// The bytes of the object that has the given members.
pub uninterp spec fn object_bytes(fields: Seq<(Seq<char>, FieldView)>) -> Seq<u8>;

/// Writes an object with `serde_json::to_vec`. What it writes is a function of the keys and the
/// values alone; it does not fail on a document whose keys are strings.
#[verifier::external_body]
pub(crate) fn write_object(fields: Vec<(String, JsonField)>) -> (r: Vec<u8>)
    ensures
        r@ == object_bytes(field_views(fields@)),
{
    let member = |(key, value)| match value {
        JsonField::Text(s) => (key, serde_json::Value::String(s)),
        JsonField::Number(n) => (key, serde_json::Value::from(n)),
        JsonField::Objects(v) => (key, v.into_iter().map(|o| o.into_iter().collect::<serde_json::Value>()).collect()),
    };
    let object: serde_json::Value = fields.into_iter().map(member).collect();
    serde_json::to_vec(&object).unwrap()
}

/// The first member with a key.
pub open spec fn member(members: Seq<(Seq<char>, MemberView)>, key: Seq<char>) -> Option<MemberView>
    decreases members.len(),
{
    if members.len() == 0 {
        None
    } else if members[0].0 == key {
        Some(members[0].1)
    } else {
        member(members.drop_first(), key)
    }
}

/// The string that an object has under a key.
pub open spec fn object_string(
    members: Seq<(Seq<char>, Option<Seq<char>>)>,
    key: Seq<char>,
) -> Option<Seq<char>>
    decreases members.len(),
{
    if members.len() == 0 {
        None
    } else if members[0].0 == key {
        members[0].1
    } else {
        object_string(members.drop_first(), key)
    }
}

/// The string that a document has under a key, if it is an object and that member is a string.
pub open spec fn document_string(
    document: Option<Seq<(Seq<char>, MemberView)>>,
    key: Seq<char>,
) -> Option<Seq<char>> {
    match document {
        Some(members) => match member(members, key) {
            Some(MemberView::Text(s)) => Some(s),
            _ => None,
        },
        None => None,
    }
}

/// The string that the first suitable member of a document has under a key: the members are
/// tried in order, and one is suitable if it is an object with a string under that key.
pub open spec fn nested_string(
    members: Seq<(Seq<char>, MemberView)>,
    key: Seq<char>,
) -> Option<Seq<char>>
    decreases members.len(),
{
    if members.len() == 0 {
        None
    } else {
        let found = match members[0].1 {
            MemberView::Object(inner) => object_string(inner, key),
            _ => None,
        };
        if found is Some {
            found
        } else {
            nested_string(members.drop_first(), key)
        }
    }
}

/// Documents and members are seen as they are, one for one.
pub proof fn law_views_are_faithful(
    document: JsonDocument,
    text: String,
    inner: Vec<(String, Option<String>)>,
    pairs: Seq<(String, String)>,
    fields: Seq<(String, JsonField)>,
    objects: Vec<Vec<(String, String)>>,
    number: u64,
)
    ensures
        document@ is Some <==> document.members is Some,
        document.members matches Some(members) ==> {
            &&& document@->0.len() == members@.len()
            &&& forall|i: int|
                0 <= i < members@.len() ==> #[trigger] document@->0[i] == (
                    members@[i].0@,
                    members@[i].1@,
                )
        },
        JsonMember::Text(text)@ == MemberView::Text(text@),
        JsonMember::Other@ == MemberView::Other,
        JsonMember::Object(inner)@ matches MemberView::Object(view) && view.len() == inner@.len()
            && forall|i: int|
            0 <= i < inner@.len() ==> (#[trigger] view[i]).0 == inner@[i].0@ && match inner@[i].1 {
                Some(s) => view[i].1 == Some(s@),
                None => view[i].1 is None,
            },
        pair_texts(pairs).len() == pairs.len(),
        forall|i: int|
            0 <= i < pairs.len() ==> #[trigger] pair_texts(pairs)[i] == (pairs[i].0@, pairs[i].1@),
        field_views(fields).len() == fields.len(),
        forall|i: int|
            0 <= i < fields.len() ==> #[trigger] field_views(fields)[i] == (
                fields[i].0@,
                fields[i].1@,
            ),
        JsonField::Text(text)@ == FieldView::Text(text@),
        JsonField::Number(number)@ == FieldView::Number(number),
        JsonField::Objects(objects)@ matches FieldView::Objects(view) && view.len()
            == objects@.len() && forall|i: int|
            0 <= i < objects@.len() ==> #[trigger] view[i] == pair_texts(objects@[i]@),
{
}

/// A member that is found stands under its key, and no member before it does; one that is not
/// found stands nowhere.
pub proof fn law_first_member_is_found(members: Seq<(Seq<char>, MemberView)>, key: Seq<char>)
    ensures
        match member(members, key) {
            Some(value) => exists|i: int|
                0 <= i < members.len() && #[trigger] members[i] == (key, value) && forall|j: int|
                    0 <= j < i ==> (#[trigger] members[j]).0 != key,
            None => forall|i: int| 0 <= i < members.len() ==> (#[trigger] members[i]).0 != key,
        },
    decreases members.len(),
{
    if members.len() > 0 && members[0].0 != key {
        let rest = members.drop_first();
        law_first_member_is_found(rest, key);
        match member(rest, key) {
            Some(value) => {
                let i = choose|i: int|
                    0 <= i < rest.len() && #[trigger] rest[i] == (key, value) && forall|j: int|
                        0 <= j < i ==> (#[trigger] rest[j]).0 != key;
                assert(members[i + 1] == (key, value));
                assert forall|j: int| 0 <= j < i + 1 implies (#[trigger] members[j]).0 != key by {
                    if j > 0 {
                        assert(rest[j - 1] == members[j]);
                    }
                }
            },
            None => {
                assert forall|i: int| 0 <= i < members.len() implies (#[trigger] members[i]).0
                    != key by {
                    if i > 0 {
                        assert(rest[i - 1] == members[i]);
                    }
                }
            },
        }
    } else if members.len() > 0 {
        assert(members[0] == (key, members[0].1));
    }
}

/// A document has a string under a key exactly if it is an object whose first member of that key
/// is that string.
pub proof fn law_document_string(
    document: Option<Seq<(Seq<char>, MemberView)>>,
    key: Seq<char>,
    text: Seq<char>,
)
    ensures
        document_string(document, key) == Some(text) <==> (document matches Some(members)
            && exists|i: int|
            0 <= i < members.len() && #[trigger] members[i] == (key, MemberView::Text(text))
                && forall|j: int| 0 <= j < i ==> (#[trigger] members[j]).0 != key),
{
    if let Some(members) = document {
        law_first_member_is_found(members, key);
        if exists|i: int|
            0 <= i < members.len() && #[trigger] members[i] == (key, MemberView::Text(text))
                && forall|j: int| 0 <= j < i ==> (#[trigger] members[j]).0 != key {
            let i = choose|i: int|
                0 <= i < members.len() && #[trigger] members[i] == (key, MemberView::Text(text))
                    && forall|j: int| 0 <= j < i ==> (#[trigger] members[j]).0 != key;
            assert(member(members, key) is Some);
            let value = member(members, key)->0;
            let k = choose|k: int|
                0 <= k < members.len() && #[trigger] members[k] == (key, value) && forall|j: int|
                    0 <= j < k ==> (#[trigger] members[j]).0 != key;
            assert(i == k) by {
                if i < k {
                    assert(members[i].0 != key);
                }
                if k < i {
                    assert(members[k].0 != key);
                }
            }
        }
    }
}

/// Whether an object has a string under a key: the first member of that key decides.
pub open spec fn has_string(
    inner: Seq<(Seq<char>, Option<Seq<char>>)>,
    key: Seq<char>,
    text: Seq<char>,
) -> bool {
    exists|i: int|
        0 <= i < inner.len() && #[trigger] inner[i] == (key, Some(text)) && forall|j: int|
            0 <= j < i ==> (#[trigger] inner[j]).0 != key
}

/// An object's string under a key is that of its first member of that key.
pub proof fn law_object_string(
    inner: Seq<(Seq<char>, Option<Seq<char>>)>,
    key: Seq<char>,
    text: Seq<char>,
)
    ensures
        object_string(inner, key) == Some(text) <==> has_string(inner, key, text),
    decreases inner.len(),
{
    if inner.len() > 0 {
        let rest = inner.drop_first();
        law_object_string(rest, key, text);
        if inner[0].0 == key {
            if has_string(inner, key, text) {
                let i = choose|i: int|
                    0 <= i < inner.len() && #[trigger] inner[i] == (key, Some(text))
                        && forall|j: int| 0 <= j < i ==> (#[trigger] inner[j]).0 != key;
                assert(i == 0) by {
                    if i > 0 {
                        assert(inner[0].0 != key);
                    }
                }
            }
            if object_string(inner, key) == Some(text) {
                assert(inner[0] == (key, Some(text)));
            }
        } else {
            if has_string(rest, key, text) {
                let i = choose|i: int|
                    0 <= i < rest.len() && #[trigger] rest[i] == (key, Some(text)) && forall|j: int|
                        0 <= j < i ==> (#[trigger] rest[j]).0 != key;
                assert(inner[i + 1] == (key, Some(text)));
                assert forall|j: int| 0 <= j < i + 1 implies (#[trigger] inner[j]).0 != key by {
                    if j > 0 {
                        assert(rest[j - 1] == inner[j]);
                    }
                }
            }
            if has_string(inner, key, text) {
                let i = choose|i: int|
                    0 <= i < inner.len() && #[trigger] inner[i] == (key, Some(text))
                        && forall|j: int| 0 <= j < i ==> (#[trigger] inner[j]).0 != key;
                assert(rest[i - 1] == (key, Some(text)));
                assert forall|j: int| 0 <= j < i - 1 implies (#[trigger] rest[j]).0 != key by {
                    assert(inner[j + 1] == rest[j]);
                }
            }
        }
    }
}

/// The nested string under a key is that of the first member that is an object with a string under
/// that key.
pub proof fn law_first_suitable_member(
    members: Seq<(Seq<char>, MemberView)>,
    key: Seq<char>,
)
    ensures
        match nested_string(members, key) {
            Some(text) => exists|i: int|
                0 <= i < members.len() && (#[trigger] members[i].1 matches MemberView::Object(inner)
                    && object_string(inner, key) == Some(text)) && forall|j: int|
                    0 <= j < i ==> !(#[trigger] members[j].1 matches MemberView::Object(inner)
                        && object_string(inner, key) is Some),
            None => forall|i: int|
                0 <= i < members.len() ==> !(#[trigger] members[i].1 matches MemberView::Object(
                    inner,
                ) && object_string(inner, key) is Some),
        },
    decreases members.len(),
{
    if members.len() > 0 {
        let rest = members.drop_first();
        law_first_suitable_member(rest, key);
        if !(members[0].1 matches MemberView::Object(inner) && object_string(inner, key) is Some) {
            match nested_string(rest, key) {
                Some(text) => {
                    let i = choose|i: int|
                        0 <= i < rest.len() && (#[trigger] rest[i].1 matches MemberView::Object(
                            inner,
                        ) && object_string(inner, key) == Some(text)) && forall|j: int|
                            0 <= j < i ==> !(#[trigger] rest[j].1 matches MemberView::Object(inner)
                                && object_string(inner, key) is Some);
                    assert(members[i + 1].1 == rest[i].1);
                    assert forall|j: int| 0 <= j < i + 1 implies !(#[trigger] members[j].1 matches MemberView::Object(
                        inner,
                    ) && object_string(inner, key) is Some) by {
                        if j > 0 {
                            assert(rest[j - 1].1 == members[j].1);
                        }
                    }
                },
                None => {
                    assert forall|i: int| 0 <= i < members.len() implies !(#[trigger] members[i].1 matches MemberView::Object(
                        inner,
                    ) && object_string(inner, key) is Some) by {
                        if i > 0 {
                            assert(rest[i - 1].1 == members[i].1);
                        }
                    }
                },
            }
        } else {
            assert(members[0].1 is Object);
        }
    }
}

impl JsonDocument {
    /// The string under a key, if the document is an object and that member is a string.
    pub fn string(&self, key: &str) -> (r: Option<String>)
        ensures
            optional_text(r) == document_string(self@, key@),
    {
        let wanted: String = key.to_owned();
        match &self.members {
            None => None,
            Some(members) => {
                let ghost all = self@->0;
                assert(all.skip(0) =~= all);
                for i in 0..members.len()
                    invariant
                        all == Seq::new(
                            members@.len(),
                            |i: int| (members@[i].0@, members@[i].1@),
                        ),
                        wanted@ == key@,
                        member(all, key@) == member(all.skip(i as int), key@),
                        document_string(self@, key@) == document_string(Some(all), key@),
                {
                    assert(all.skip(i as int)[0] == all[i as int]);
                    assert(all.skip(i as int).drop_first() =~= all.skip(i + 1));
                    if members[i].0 == wanted {
                        return match &members[i].1 {
                            JsonMember::Text(s) => Some(s.clone()),
                            _ => None,
                        };
                    }
                }
                assert(all.skip(members@.len() as int).len() == 0);
                None
            },
        }
    }

    /// The string that the first suitable member has under a key.
    pub fn nested(&self, key: &str) -> (r: Option<String>)
        ensures
            optional_text(r) == match self@ {
                Some(members) => nested_string(members, key@),
                None => None,
            },
    {
        match &self.members {
            None => None,
            Some(members) => {
                let ghost all = self@->0;
                assert(all.skip(0) =~= all);
                for i in 0..members.len()
                    invariant
                        all == Seq::new(
                            members@.len(),
                            |i: int| (members@[i].0@, members@[i].1@),
                        ),
                        self@ == Some(all),
                        nested_string(all, key@) == nested_string(all.skip(i as int), key@),
                {
                    assert(all.skip(i as int)[0] == all[i as int]);
                    assert(all.skip(i as int).drop_first() =~= all.skip(i + 1));
                    if let JsonMember::Object(inner) = &members[i].1 {
                        if let Some(s) = string_in(inner, key) {
                            return Some(s);
                        }
                    }
                }
                assert(all.skip(members@.len() as int).len() == 0);
                None
            },
        }
    }
}

/// The string that an object has under a key.
fn string_in(inner: &Vec<(String, Option<String>)>, key: &str) -> (r: Option<String>)
    ensures
        optional_text(r) == object_string(
            Seq::new(inner@.len(), |i: int| (inner@[i].0@, optional_text(inner@[i].1))),
            key@,
        ),
{
    let wanted: String = key.to_owned();
    let ghost all = Seq::new(inner@.len(), |i: int| (inner@[i].0@, optional_text(inner@[i].1)));
    assert(all.skip(0) =~= all);
    for i in 0..inner.len()
        invariant
            all == Seq::new(inner@.len(), |i: int| (inner@[i].0@, optional_text(inner@[i].1))),
            wanted@ == key@,
            object_string(all, key@) == object_string(all.skip(i as int), key@),
    {
        assert(all.skip(i as int)[0] == all[i as int]);
        assert(all.skip(i as int).drop_first() =~= all.skip(i + 1));
        if inner[i].0 == wanted {
            return match &inner[i].1 {
                Some(s) => Some(s.clone()),
                None => None,
            };
        }
    }
    assert(all.skip(inner@.len() as int).len() == 0);
    None
}

} // verus!
