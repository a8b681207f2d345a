//! Identifiers and records of Bear's notes and tags.

use vstd::prelude::*;
use std::collections::HashMap;
use vstd::std_specs::iter::IteratorSpec;

verus! {

/// Internal database primary key (an SQLite `INTEGER PRIMARY KEY`).
#[derive(Copy, Clone, Debug, Ord, PartialOrd, Eq, PartialEq, Hash, Structural)]
pub struct CoreDbId(pub i64);

/// Bear note identifier: the UUID Bear uses in its UI, its x-callback-url
/// API and for syncing.
#[derive(Clone, Debug, Ord, PartialOrd, Eq, PartialEq, Hash)]
pub struct NoteId(String);

impl View for NoteId {
    type V = Seq<char>;

    closed spec fn view(&self) -> Seq<char> {
        self.0@
    }
}

impl NoteId {
    /// Creates a `NoteId` from a UUID string.
    pub fn new(uuid: String) -> (r: Self)
        ensures
            r@ == uuid@,
    {
        NoteId(uuid)
    }

    /// The UUID as a string slice.
    pub fn as_str(&self) -> (r: &str)
        ensures
            r@ == self@,
    {
        self.0.as_str()
    }

    /// Consumes the identifier and returns the UUID string.
    pub fn into_string(self) -> (r: String)
        ensures
            r@ == self@,
    {
        self.0
    }
}

/// Unique identifier of a Bear tag (the tag's primary key).
#[derive(Copy, Clone, Debug, Ord, PartialOrd, Eq, PartialEq, Hash, Structural)]
pub struct TagId(pub CoreDbId);

impl TagId {
    /// The primary key value this identifier wraps.
    pub open spec fn value(self) -> i64 {
        self.0.0
    }

    /// Creates a `TagId` from an `i64` primary key value.
    pub fn new(id: i64) -> (r: Self)
        ensures
            r.value() == id,
    {
        TagId(CoreDbId(id))
    }

    /// The underlying `i64` value of this identifier.
    pub fn as_i64(self) -> (r: i64)
        ensures
            r == self.value(),
    {
        self.0.0
    }
}

/// A point in time, in whole seconds since the Unix epoch (UTC).
#[derive(Copy, Clone, Debug, Ord, PartialOrd, Eq, PartialEq, Hash, Structural)]
pub struct UnixTime(pub i64);

/// A tag from Bear's database.
///
/// `name` is absent only for a damaged row; `modified` is absent for tags
/// that were never modified.
#[derive(Debug, Clone)]
pub struct Tag {
    id: TagId,
    name: Option<String>,
    modified: Option<UnixTime>,
}

/// The plain-value content of a [`Tag`].
pub struct TagView {
    pub id: i64,
    pub name: Option<Seq<char>>,
    pub modified: Option<UnixTime>,
}

/// The text of an optional string.
pub open spec fn opt_view(s: Option<String>) -> Option<Seq<char>> {
    match s {
        Some(s) => Some(s@),
        None => None,
    }
}

/// The text of an optional string slice.
pub open spec fn opt_str_view(s: Option<&str>) -> Option<Seq<char>> {
    match s {
        Some(s) => Some(s@),
        None => None,
    }
}

/// The optional string's content as a string slice.
fn opt_as_str(s: &Option<String>) -> (r: Option<&str>)
    ensures
        opt_str_view(r) == opt_view(*s),
{
    match s {
        Some(s) => Some(s.as_str()),
        None => None,
    }
}

impl View for Tag {
    type V = TagView;

    closed spec fn view(&self) -> TagView {
        TagView { id: self.id.value(), name: opt_view(self.name), modified: self.modified }
    }
}

impl Tag {
    /// A tag read from the database.
    pub fn new(id: TagId, name: Option<String>, modified: Option<UnixTime>) -> (r: Self)
        ensures
            r@ == (TagView { id: id.value(), name: opt_view(name), modified }),
    {
        Tag { id, name, modified }
    }

    /// The tag's primary key.
    pub fn id(&self) -> (r: TagId)
        ensures
            r.value() == self@.id,
    {
        self.id
    }

    /// The tag's name, if present. Names may be hierarchical (`work/projects`).
    pub fn name(&self) -> (r: Option<&str>)
        ensures
            opt_str_view(r) == self@.name,
    {
        opt_as_str(&self.name)
    }

    /// When the tag was last modified, if it ever was.
    pub fn modified(&self) -> (r: Option<UnixTime>)
        ensures
            r == self@.modified,
    {
        self.modified
    }
}

/// A note from Bear's database. Only `content` may be absent.
#[derive(Debug, Clone)]
pub struct Note {
    core_db_id: CoreDbId,
    id: NoteId,
    title: String,
    content: Option<String>,
    modified: UnixTime,
    created: UnixTime,
    is_pinned: bool,
}

/// The plain-value content of a [`Note`].
pub struct NoteView {
    pub core_db_id: i64,
    pub id: Seq<char>,
    pub title: Seq<char>,
    pub content: Option<Seq<char>>,
    pub modified: UnixTime,
    pub created: UnixTime,
    pub is_pinned: bool,
}

impl View for Note {
    type V = NoteView;

    closed spec fn view(&self) -> NoteView {
        NoteView {
            core_db_id: self.core_db_id.0,
            id: self.id@,
            title: self.title@,
            content: opt_view(self.content),
            modified: self.modified,
            created: self.created,
            is_pinned: self.is_pinned,
        }
    }
}

impl Note {
    /// A note read from the database: its primary key, UUID, title,
    /// content, modification and creation times, and pinned flag.
    pub fn new(
        core_db_id: i64,
        id: NoteId,
        title: String,
        content: Option<String>,
        modified: UnixTime,
        created: UnixTime,
        is_pinned: bool,
    ) -> (r: Self)
        ensures
            r@ == (NoteView {
                core_db_id,
                id: id@,
                title: title@,
                content: opt_view(content),
                modified,
                created,
                is_pinned,
            }),
    {
        Note { core_db_id: CoreDbId(core_db_id), id, title, content, modified, created, is_pinned }
    }

    /// The note's internal primary key.
    pub fn core_db_id(&self) -> (r: i64)
        ensures
            r == self@.core_db_id,
    {
        self.core_db_id.0
    }

    /// The note's UUID.
    pub fn id(&self) -> (r: &NoteId)
        ensures
            r@ == self@.id,
    {
        &self.id
    }

    /// The note's title (possibly empty, never absent).
    pub fn title(&self) -> (r: &str)
        ensures
            r@ == self@.title,
    {
        self.title.as_str()
    }

    /// The note's Markdown content, if present.
    pub fn content(&self) -> (r: Option<&str>)
        ensures
            opt_str_view(r) == self@.content,
    {
        opt_as_str(&self.content)
    }

    /// When the note was last modified.
    pub fn modified(&self) -> (r: UnixTime)
        ensures
            r == self@.modified,
    {
        self.modified
    }

    /// When the note was created.
    pub fn created(&self) -> (r: UnixTime)
        ensures
            r == self@.created,
    {
        self.created
    }

    /// Whether the note is pinned.
    pub fn is_pinned(&self) -> (r: bool)
        ensures
            r == self@.is_pinned,
    {
        self.is_pinned
    }
}

/// The map from tag id to tag that `tags` gives when inserted in order: a
/// later tag replaces an earlier one of the same id.
pub open spec fn tags_map_of(tags: Seq<Tag>) -> Map<i64, Tag>
    decreases tags.len(),
{
    if tags.len() == 0 {
        Map::empty()
    } else {
        let last = tags.last();
        tags_map_of(tags.drop_last()).insert(last@.id, last)
    }
}

/// The name of the tag with id `id` in `tags`, if there is such a tag and
/// it has a name.
pub open spec fn name_of(tags: Map<i64, Tag>, id: TagId) -> Option<Seq<char>> {
    if tags.contains_key(id.value()) {
        tags[id.value()]@.name
    } else {
        None
    }
}

/// No two strings of `s` have the same text.
#[verifier::opaque]
pub open spec fn distinct_texts(s: Seq<String>) -> bool {
    forall|k: int, l: int| 0 <= k < l < s.len() ==> s[k]@ != s[l]@
}

/// Appends a copy of `name` to `out` unless `out` already holds that text.
fn push_distinct(out: &mut Vec<String>, name: &String)
    requires
        distinct_texts(old(out)@),
    ensures
        distinct_texts(final(out)@),
        final(out)@.len() == old(out)@.len() || final(out)@.len() == old(out)@.len() + 1,
        forall|k: int| 0 <= k < old(out)@.len() ==> final(out)@[k] == old(out)@[k],
        final(out)@.len() == old(out)@.len() + 1 ==> final(out)@[old(out)@.len() as int]@ == name@,
        final(out)@.len() == old(out)@.len() + 1 ==> forall|q: int|
            0 <= q < old(out)@.len() ==> old(out)@[q]@ != name@,
        exists|k: int| 0 <= k < final(out)@.len() && final(out)@[k]@ == name@,
{
    let ghost before = out@;
    let mut k: usize = 0;
    while k < out.len()
        invariant
            k <= out@.len(),
            out@ == before,
            distinct_texts(out@),
            forall|q: int| 0 <= q < k ==> out@[q]@ != name@,
        decreases out.len() - k,
    {
        if out[k] == *name {
            return;
        }
        k = k + 1;
    }
    out.push(name.clone());
    assert(out@[out@.len() - 1]@ == name@);
    proof {
        reveal(distinct_texts);
        assert forall|k: int, l: int| 0 <= k < l < out@.len() implies out@[k]@ != out@[l]@ by {
            if l < before.len() {
                assert(out@[k] == before[k]);
                assert(out@[l] == before[l]);
            } else {
                assert(out@[k] == before[k]);
            }
        }
    }
}

/// Every text of `out` is the name of a tag among the first `i` ids.
#[verifier::opaque]
pub open spec fn names_sound(tags: Map<i64, Tag>, ids: Seq<TagId>, i: int, out: Seq<String>) -> bool {
    forall|k: int|
        0 <= k < out.len() ==> exists|j: int|
            0 <= j < i && name_of(tags, ids[j]) == Some((#[trigger] out[k])@)
}

/// The name of every named tag among the first `i` ids is a text of `out`.
#[verifier::opaque]
pub open spec fn names_complete(tags: Map<i64, Tag>, ids: Seq<TagId>, i: int, out: Seq<String>) -> bool {
    forall|j: int|
        0 <= j < i && (#[trigger] name_of(tags, ids[j])) is Some ==> exists|k: int|
            0 <= k < out.len() && Some(out[k]@) == name_of(tags, ids[j])
}

/// One step of collecting tag names: `out` is `prev`, possibly with the name
/// of the tag of `ids[i]` appended, and holds that name if there is one.
proof fn lemma_names_step(tags: Map<i64, Tag>, ids: Seq<TagId>, i: int, prev: Seq<String>, out: Seq<String>)
    requires
        0 <= i < ids.len(),
        names_sound(tags, ids, i, prev),
        names_complete(tags, ids, i, prev),
        out.len() == prev.len() || out.len() == prev.len() + 1,
        forall|k: int| 0 <= k < prev.len() ==> out[k] == prev[k],
        out.len() == prev.len() + 1 ==> Some(out[prev.len() as int]@) == name_of(tags, ids[i]),
        name_of(tags, ids[i]) is Some ==> exists|k: int|
            0 <= k < out.len() && Some(out[k]@) == name_of(tags, ids[i]),
    ensures
        names_sound(tags, ids, i + 1, out),
        names_complete(tags, ids, i + 1, out),
{
    reveal(names_sound);
    reveal(names_complete);
    assert forall|k: int| 0 <= k < out.len() implies exists|j: int|
        0 <= j < i + 1 && name_of(tags, ids[j]) == Some((#[trigger] out[k])@) by {
        if k < prev.len() {
            assert(out[k] == prev[k]);
            let j = choose|j: int| 0 <= j < i && name_of(tags, ids[j]) == Some(prev[k]@);
        } else {
            assert(name_of(tags, ids[i]) == Some(out[k]@));
        }
    }
    assert forall|j: int| 0 <= j < i + 1 && (#[trigger] name_of(tags, ids[j])) is Some implies exists|
        k: int,
    | 0 <= k < out.len() && Some(out[k]@) == name_of(tags, ids[j]) by {
        if j < i {
            let k = choose|k: int| 0 <= k < prev.len() && Some(prev[k]@) == name_of(tags, ids[j]);
            assert(out[k] == prev[k]);
        }
    }
}

/// Bear's tags, by id.
#[derive(Debug)]
pub struct TagsMap {
    tags: HashMap<i64, Tag>,
}

impl View for TagsMap {
    type V = Map<i64, Tag>;

    closed spec fn view(&self) -> Map<i64, Tag> {
        self.tags@
    }
}

impl TagsMap {
    /// Collects tags by id; of two tags with one id the later is kept.
    pub fn from_tags(tags: Vec<Tag>) -> (r: Self)
        ensures
            r@ == tags_map_of(tags@),
    {
        broadcast use vstd::std_specs::hash::group_hash_axioms;

        let ghost all = tags@;
        let mut map: HashMap<i64, Tag> = HashMap::new();
        for t in it: tags.into_iter()
            invariant
                it.seq() == all,
                map@ == tags_map_of(all.take(it.index() as int)),
        {
            let ghost k = it.index();
            assert(all.take(k + 1).drop_last() == all.take(k as int));
            let key = t.id.0.0;
            map.insert(key, t);
        }
        assert(all.take(all.len() as int) == all);
        TagsMap { tags: map }
    }

    /// The tag with id `tag_id`, if any.
    pub fn get(&self, tag_id: &TagId) -> (r: Option<&Tag>)
        ensures
            match r {
                Some(t) => self@.contains_key(tag_id.value()) && *t == self@[tag_id.value()],
                None => !self@.contains_key(tag_id.value()),
            },
    {
        broadcast use vstd::std_specs::hash::group_hash_axioms;

        let key = tag_id.0.0;
        self.tags.get(&key)
    }

    /// All tags, in no particular order.
    pub fn iter(&self) -> (r: Vec<&Tag>)
        ensures
            r@.len() == self@.len(),
            forall|i: int| 0 <= i < r@.len() ==> self@.values().contains(*#[trigger] r@[i]),
            forall|t: Tag| #[trigger] self@.values().contains(t) ==> exists|i: int|
                0 <= i < r@.len() && *r@[i] == t,
    {
        broadcast use vstd::std_specs::hash::group_hash_axioms;

        let mut out: Vec<&Tag> = Vec::new();
        let values = self.tags.values();
        let ghost all = values.remaining();
        assert(all.unref().to_set() == self.tags@.values());
        for t in it: values
            invariant
                it.seq() == all,
                out@ == all.take(it.index() as int),
        {
            let ghost k = it.index();
            out.push(t);
            assert(out@ =~= all.take(k + 1));
        }
        assert(out@ =~= all);
        proof {
            assert forall|i: int| 0 <= i < out@.len() implies self@.values().contains(
                *#[trigger] out@[i],
            ) by {
                assert(all.unref()[i] == *all[i]);
                assert(all.unref().to_set().contains(all.unref()[i]));
            }
            assert forall|t: Tag| #[trigger] self@.values().contains(t) implies exists|i: int|
                0 <= i < out@.len() && *out@[i] == t by {
                assert(all.unref().to_set().contains(t));
                let i = choose|i: int| 0 <= i < all.unref().len() && all.unref()[i] == t;
                assert(*out@[i] == t);
            }
        }
        out
    }

    /// The distinct names of the tags with the given ids, in order of first
    /// occurrence; ids without a tag, and tags without a name, give none.
    pub fn names(&self, tag_ids: &Vec<TagId>) -> (r: Vec<String>)
        ensures
            names_sound(self@, tag_ids@, tag_ids@.len() as int, r@),
            names_complete(self@, tag_ids@, tag_ids@.len() as int, r@),
            distinct_texts(r@),
    {
        let mut out: Vec<String> = Vec::new();
        proof {
            reveal(distinct_texts);
            reveal(names_sound);
            reveal(names_complete);
        }
        let mut i: usize = 0;
        while i < tag_ids.len()
            invariant
                i <= tag_ids@.len(),
                names_sound(self@, tag_ids@, i as int, out@),
                names_complete(self@, tag_ids@, i as int, out@),
                distinct_texts(out@),
            decreases tag_ids.len() - i,
        {
            let ghost prev = out@;
            if let Some(tag) = self.get(&tag_ids[i]) {
                if let Some(name) = &tag.name {
                    push_distinct(&mut out, name);
                }
            }
            proof {
                lemma_names_step(self@, tag_ids@, i as int, prev, out@);
            }
            i = i + 1;
        }
        out
    }

    /// Number of tags.
    pub fn count(&self) -> (r: usize)
        ensures
            r == self@.len(),
    {
        broadcast use vstd::std_specs::hash::group_hash_axioms;

        self.tags.len()
    }
}

} // verus!
