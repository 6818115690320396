//! The JSON document model: an owned tree, its mathematical view, and
//! absence-tolerant navigation through it.

use vstd::prelude::*;

verus! {

/// A JSON document held as an owned tree.
///
/// Numbers are carried through untouched: nothing in this crate looks inside
/// one. An object keeps its members in a list; when a key occurs more than
/// once the last occurrence is the one that counts.
#[derive(Debug, PartialEq)]
pub enum Json {
    Null,
    Bool(bool),
    Number(serde_json::Number),
    String(String),
    Array(Vec<Json>),
    Object(Vec<(String, Json)>),
}

/// The mathematical value of a [`Json`] tree.
pub enum JsonView {
    Null,
    Bool(bool),
    Number(serde_json::Number),
    String(Seq<char>),
    Array(Seq<JsonView>),
    Object(Map<Seq<char>, JsonView>),
}

/// The views of a list of documents, in order.
pub open spec fn items_view(items: Seq<Json>) -> Seq<JsonView>
    decreases items, 0nat,
{
    if items.len() == 0 {
        Seq::empty()
    } else {
        items_view(items.drop_last()).push(json_view(items.last()))
    }
}

/// The mapping that a list of members stands for: members are entered from
/// first to last, so a later member replaces an earlier one with the same key.
pub open spec fn members_view(members: Seq<(String, Json)>) -> Map<Seq<char>, JsonView>
    decreases members, 0nat,
{
    if members.len() == 0 {
        Map::empty()
    } else {
        members_view(members.drop_last()).insert(members.last().0@, json_view(members.last().1))
    }
}

/// The mathematical value of one document.
pub open spec fn json_view(doc: Json) -> JsonView
    decreases doc, 1nat,
{
    match doc {
        Json::Null => JsonView::Null,
        Json::Bool(b) => JsonView::Bool(b),
        Json::Number(n) => JsonView::Number(n),
        Json::String(s) => JsonView::String(s@),
        Json::Array(items) => JsonView::Array(items_view(items@)),
        Json::Object(members) => JsonView::Object(members_view(members@)),
    }
}

impl View for Json {
    type V = JsonView;

    open spec fn view(&self) -> JsonView {
        json_view(*self)
    }
}

/// One step of a path into a document: a member's key or an element's
/// position.
#[derive(Debug, PartialEq)]
pub enum Segment {
    Key(String),
    Index(usize),
}

/// The mathematical value of a [`Segment`].
pub enum SegmentView {
    Key(Seq<char>),
    Index(int),
}

impl View for Segment {
    type V = SegmentView;

    open spec fn view(&self) -> SegmentView {
        match self {
            Segment::Key(key) => SegmentView::Key(key@),
            Segment::Index(index) => SegmentView::Index(*index as int),
        }
    }
}

/// The views of the segments of a path, in order.
pub open spec fn path_view(path: Seq<Segment>) -> Seq<SegmentView> {
    Seq::new(path.len(), |i: int| path[i]@)
}

impl JsonView {
    /// The member stored under `key`, when this is an object that has one.
    pub open spec fn member(self, key: Seq<char>) -> Option<JsonView> {
        match self {
            JsonView::Object(members) => if members.contains_key(key) {
                Some(members[key])
            } else {
                None
            },
            _ => None,
        }
    }

    /// The element at position `index`, when this is an array that long.
    pub open spec fn element(self, index: int) -> Option<JsonView> {
        match self {
            JsonView::Array(items) => if 0 <= index < items.len() {
                Some(items[index])
            } else {
                None
            },
            _ => None,
        }
    }

    /// The characters of this value, when it is a string.
    pub open spec fn text(self) -> Option<Seq<char>> {
        match self {
            JsonView::String(chars) => Some(chars),
            _ => None,
        }
    }

    /// One step down: a key selects a member, a position selects an element.
    /// A key applied to anything but an object, or a position applied to
    /// anything but an array, selects nothing.
    pub open spec fn step(self, segment: SegmentView) -> Option<JsonView> {
        match segment {
            SegmentView::Key(key) => self.member(key),
            SegmentView::Index(index) => self.element(index),
        }
    }

    /// The value reached by following `path` from here, or `None` as soon as
    /// one step selects nothing. The empty path reaches the value itself.
    pub open spec fn at(self, path: Seq<SegmentView>) -> Option<JsonView>
        decreases path.len(),
    {
        if path.len() == 0 {
            Some(self)
        } else {
            match self.step(path[0]) {
                Some(next) => next.at(path.drop_first()),
                None => None,
            }
        }
    }
}

/// `members_view` holds `key` exactly when some member carries it, and then
/// holds the value of the last such member.
pub proof fn lemma_members_view_last(members: Seq<(String, Json)>, key: Seq<char>, at: int)
    requires
        0 <= at < members.len(),
        members[at].0@ == key,
        forall|j: int| at < j < members.len() ==> members[j].0@ != key,
    ensures
        members_view(members).contains_key(key),
        members_view(members)[key] == json_view(members[at].1),
    decreases members.len(),
{
    if at < members.len() - 1 {
        lemma_members_view_last(members.drop_last(), key, at);
    }
}

/// `members_view` holds no key that no member carries.
pub proof fn lemma_members_view_absent(members: Seq<(String, Json)>, key: Seq<char>)
    requires
        forall|j: int| 0 <= j < members.len() ==> members[j].0@ != key,
    ensures
        !members_view(members).contains_key(key),
    decreases members.len(),
{
    if members.len() > 0 {
        lemma_members_view_absent(members.drop_last(), key);
    }
}

/// Appending a member enters it into the mapping.
pub proof fn lemma_members_view_push(members: Seq<(String, Json)>, member: (String, Json))
    ensures
        members_view(members.push(member)) == members_view(members).insert(
            member.0@,
            json_view(member.1),
        ),
{
    assert(members.push(member).drop_last() =~= members);
}

/// Appending an item appends its view.
pub proof fn lemma_items_view_push(items: Seq<Json>, item: Json)
    ensures
        items_view(items.push(item)) == items_view(items).push(json_view(item)),
{
    assert(items.push(item).drop_last() =~= items);
}

/// `items_view` keeps the length and views each item in place.
pub proof fn lemma_items_view(items: Seq<Json>)
    ensures
        items_view(items).len() == items.len(),
        forall|i: int| 0 <= i < items.len() ==> (#[trigger] items_view(items)[i]) == json_view(
            items[i],
        ),
    decreases items.len(),
{
    if items.len() > 0 {
        lemma_items_view(items.drop_last());
    }
}

/// Following one path and then another is following the two joined: the
/// walk along `first + second` reaches what `second` reaches from the end of
/// `first`, and reaches nothing when `first` already reaches nothing.
pub proof fn lemma_at_concat(doc: JsonView, first: Seq<SegmentView>, second: Seq<SegmentView>)
    ensures
        doc.at(first + second) == match doc.at(first) {
            Some(reached) => reached.at(second),
            None => None,
        },
    decreases first.len(),
{
    if first.len() == 0 {
        assert(first + second =~= second);
    } else {
        assert((first + second)[0] == first[0]);
        assert((first + second).drop_first() =~= first.drop_first() + second);
        match doc.step(first[0]) {
            Some(next) => {
                lemma_at_concat(next, first.drop_first(), second);
            },
            None => {},
        }
    }
}

/// A walk that has come to nothing stays at nothing: when a prefix of a path
/// reaches no value, neither does the path.
pub proof fn lemma_at_prefix_none(doc: JsonView, path: Seq<SegmentView>, taken: int)
    requires
        0 <= taken <= path.len(),
        doc.at(path.take(taken)) is None,
    ensures
        doc.at(path) is None,
{
    assert(path =~= path.take(taken) + path.skip(taken));
    lemma_at_concat(doc, path.take(taken), path.skip(taken));
}

impl Json {
    /// Looks a member up by key. Anything but an object has no members.
    pub fn get_key(&self, key: &str) -> (r: Option<&Json>)
        ensures
            match r {
                Some(found) => self@.member(key@) == Some(found@),
                None => self@.member(key@) is None,
            },
    {
        match self {
            Json::Object(members) => {
                let wanted = key.to_owned();
                let mut i: usize = members.len();
                while i > 0
                    invariant
                        i <= members.len(),
                        wanted@ == key@,
                        self@ == JsonView::Object(members_view(members@)),
                        forall|j: int| i <= j < members.len() ==> members@[j].0@ != key@,
                    decreases i,
                {
                    i = i - 1;
                    if members[i].0 == wanted {
                        proof {
                            lemma_members_view_last(members@, key@, i as int);
                        }
                        return Some(&members[i].1);
                    }
                }
                proof {
                    lemma_members_view_absent(members@, key@);
                }
                None
            },
            _ => None,
        }
    }

    /// Looks an element up by position. Anything but an array has no elements.
    pub fn get_index(&self, index: usize) -> (r: Option<&Json>)
        ensures
            match r {
                Some(found) => self@.element(index as int) == Some(found@),
                None => self@.element(index as int) is None,
            },
    {
        match self {
            Json::Array(items) => {
                proof {
                    lemma_items_view(items@);
                }
                if index < items.len() {
                    Some(&items[index])
                } else {
                    None
                }
            },
            _ => None,
        }
    }

    /// Takes one step of a path.
    pub fn get(&self, segment: &Segment) -> (r: Option<&Json>)
        ensures
            match r {
                Some(found) => self@.step(segment@) == Some(found@),
                None => self@.step(segment@) is None,
            },
    {
        match segment {
            Segment::Key(key) => self.get_key(key.as_str()),
            Segment::Index(index) => self.get_index(*index),
        }
    }

    /// Follows `path` from this value and returns what it reaches. A missing
    /// key, a position past the end and a value of the wrong kind all end the
    /// walk with `None`; none of them is an error.
    pub fn lookup(&self, path: &[Segment]) -> (r: Option<&Json>)
        ensures
            match r {
                Some(found) => self@.at(path_view(path@)) == Some(found@),
                None => self@.at(path_view(path@)) is None,
            },
    {
        let ghost steps = path_view(path@);
        let mut current: &Json = self;
        let mut i: usize = 0;
        assert(steps.skip(0) =~= steps);
        while i < path.len()
            invariant
                i <= path.len(),
                steps == path_view(path@),
                self@.at(steps) == current@.at(steps.skip(i as int)),
            decreases path.len() - i,
        {
            assert(steps.skip(i as int).drop_first() =~= steps.skip(i as int + 1));
            assert(steps.skip(i as int)[0] == path@[i as int]@);
            match current.get(&path[i]) {
                Some(next) => {
                    current = next;
                },
                None => {
                    return None;
                },
            }
            i = i + 1;
        }
        Some(current)
    }

    /// The text of a string value; `None` for every other kind of value.
    pub fn as_str(&self) -> (r: Option<&str>)
        ensures
            match r {
                Some(chars) => self@.text() == Some(chars@),
                None => self@.text() is None,
            },
    {
        match self {
            Json::String(chars) => Some(chars.as_str()),
            _ => None,
        }
    }
}

} // verus!
