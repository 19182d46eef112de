//! The note index as the session sees it.
//!
//! The indexing engine scans the vault and reports, for each note, its title,
//! where it came from, its text, and the links in it that lead nowhere. The
//! engine's own representation stays outside: what it found is copied into
//! the plain [`Note`]s of an [`Index`], keyed by the engine's identifiers.

use crate::utils::is_offset;
use vstd::prelude::*;

verus! {

/// A link whose target the engine could not find: where it stands in the
/// note's text, as the byte range from `start` up to `end`, and what it says.
#[derive(Clone, Debug, PartialEq, Eq)]
pub struct InvalidLink {
    pub start: usize,
    pub end: usize,
    pub text: String,
}

/// The view of [`InvalidLink`]: every text as its characters.
pub struct InvalidLinkView {
    pub start: int,
    pub end: int,
    pub text: Seq<char>,
}

impl View for InvalidLink {
    type V = InvalidLinkView;

    open spec fn view(&self) -> InvalidLinkView {
        InvalidLinkView {
            start: self.start as int,
            end: self.end as int,
            text: self.text@,
        }
    }
}

impl DeepView for InvalidLink {
    type V = InvalidLinkView;

    open spec fn deep_view(&self) -> InvalidLinkView {
        self@
    }
}

impl InvalidLinkView {
    /// Whether the link's range is a stretch of `content`: both ends between
    /// two characters, in order, and within what an editor position can count.
    pub open spec fn fits(self, content: Seq<char>) -> bool {
        &&& is_offset(content, self.start)
        &&& is_offset(content, self.end)
        &&& self.start <= self.end <= u32::MAX
    }
}

/// One note of the vault. Every link it reports lies within its text.
#[derive(Debug, PartialEq, Eq)]
pub struct Note {
    title: String,
    path: Option<String>,
    content: String,
    invalid_internal_links: Vec<InvalidLink>,
}

/// The view of [`Note`]: every text as its characters.
pub struct NoteView {
    pub title: Seq<char>,
    /// The file the note was read from, as text; `None` for a note without
    /// one.
    pub path: Option<Seq<char>>,
    pub content: Seq<char>,
    pub invalid_internal_links: Seq<InvalidLinkView>,
}

impl NoteView {
    /// Whether every reported link lies within the text.
    pub open spec fn well_formed(self) -> bool {
        forall|i: int|
            0 <= i < self.invalid_internal_links.len()
                ==> (#[trigger] self.invalid_internal_links[i]).fits(self.content)
    }
}

impl View for Note {
    type V = NoteView;

    closed spec fn view(&self) -> NoteView {
        NoteView {
            title: self.title@,
            path: self.path.deep_view(),
            content: self.content@,
            invalid_internal_links: self.invalid_internal_links.deep_view(),
        }
    }
}

impl DeepView for Note {
    type V = NoteView;

    open spec fn deep_view(&self) -> NoteView {
        self@
    }
}

impl Note {
    #[verifier::type_invariant]
    spec fn links_lie_within_content(self) -> bool {
        self@.well_formed()
    }

    /// Makes a note of what the engine reports: its title, the file it was
    /// read from (as text, if it was read from one), its text, and the links
    /// in it that lead nowhere. Gives `None` if one of the links does not lie
    /// within `content`.
    pub fn new(
        title: String,
        path: Option<String>,
        content: String,
        invalid_internal_links: Vec<InvalidLink>,
    ) -> (note: Option<Note>)
        ensures
            ({
                let reported = NoteView {
                    title: title@,
                    path: path.deep_view(),
                    content: content@,
                    invalid_internal_links: invalid_internal_links.deep_view(),
                };
                &&& note is Some <==> reported.well_formed()
                &&& note matches Some(made) ==> made@ == reported
            }),
    {
        let ghost reported = NoteView {
            title: title@,
            path: path.deep_view(),
            content: content@,
            invalid_internal_links: invalid_internal_links.deep_view(),
        };
        let mut i: usize = 0;
        while i < invalid_internal_links.len()
            invariant
                i <= invalid_internal_links.len(),
                reported == (NoteView {
                    title: title@,
                    path: path.deep_view(),
                    content: content@,
                    invalid_internal_links: invalid_internal_links.deep_view(),
                }),
                reported.invalid_internal_links.len() == invalid_internal_links.len(),
                forall|j: int|
                    0 <= j < i ==> (#[trigger] reported.invalid_internal_links[j]).fits(
                        reported.content,
                    ),
            decreases invalid_internal_links.len() - i,
        {
            let link = &invalid_internal_links[i];
            let fits = content.as_str().is_char_boundary(link.start)
                && content.as_str().is_char_boundary(link.end) && link.start <= link.end
                && link.end <= u32::MAX as usize;
            if !fits {
                assert(!reported.invalid_internal_links[i as int].fits(reported.content));
                return None;
            }
            i = i + 1;
        }
        assert(reported.well_formed());
        Some(Note { title, path, content, invalid_internal_links })
    }

    /// The note's title.
    pub fn title(&self) -> (title: &String)
        ensures
            title@ == self@.title,
    {
        &self.title
    }

    /// The file the note was read from, as text.
    pub fn path(&self) -> (path: &Option<String>)
        ensures
            path.deep_view() == self@.path,
    {
        &self.path
    }

    /// The note's full text.
    pub fn content(&self) -> (content: &String)
        ensures
            content@ == self@.content,
    {
        &self.content
    }

    /// The links of this note that lead nowhere. Each lies within
    /// [`content`](Self::content).
    pub fn invalid_internal_links(&self) -> (links: &Vec<InvalidLink>)
        ensures
            links.deep_view() == self@.invalid_internal_links,
            self@.well_formed(),
    {
        proof {
            use_type_invariant(self);
        }
        &self.invalid_internal_links
    }
}

/// The place of the first entry at or behind `from` that `wanted` holds of.
pub open spec fn first_match(
    entries: Seq<(u64, NoteView)>,
    wanted: spec_fn((u64, NoteView)) -> bool,
    from: int,
) -> Option<int>
    decreases entries.len() - from,
{
    if from < 0 || from >= entries.len() {
        None
    } else if wanted(entries[from]) {
        Some(from)
    } else {
        first_match(entries, wanted, from + 1)
    }
}

/// Holds of the entry kept under `id`.
pub open spec fn with_id(id: u64) -> spec_fn((u64, NoteView)) -> bool {
    |entry: (u64, NoteView)| entry.0 == id
}

/// Holds of an entry whose note is titled `title`.
pub open spec fn with_title(title: Seq<char>) -> spec_fn((u64, NoteView)) -> bool {
    |entry: (u64, NoteView)| entry.1.title == title
}

/// Holds of an entry whose note was read from `path`.
pub open spec fn with_path(path: Seq<char>) -> spec_fn((u64, NoteView)) -> bool {
    |entry: (u64, NoteView)| entry.1.path == Some(path)
}

/// Whether no identifier occurs twice.
pub open spec fn distinct_ids(entries: Seq<(u64, NoteView)>) -> bool {
    forall|i: int, j: int|
        0 <= i < j < entries.len() ==> (#[trigger] entries[i]).0 != (#[trigger] entries[j]).0
}

/// The note kept under `id`, if there is one.
pub open spec fn note_of(entries: Seq<(u64, NoteView)>, id: u64) -> Option<NoteView> {
    match first_match(entries, with_id(id), 0) {
        Some(k) => Some(entries[k].1),
        None => None,
    }
}

/// The identifier of the first note titled `title`, if there is one.
pub open spec fn id_of_title(entries: Seq<(u64, NoteView)>, title: Seq<char>) -> Option<u64> {
    match first_match(entries, with_title(title), 0) {
        Some(k) => Some(entries[k].0),
        None => None,
    }
}

/// The identifier of the first note read from `path`, if there is one.
pub open spec fn id_of_path(entries: Seq<(u64, NoteView)>, path: Seq<char>) -> Option<u64> {
    match first_match(entries, with_path(path), 0) {
        Some(k) => Some(entries[k].0),
        None => None,
    }
}

/// What an index holds after `note` has been put under `id`: the note takes
/// the place of the one that was there, or comes last if none was.
pub open spec fn with_note(entries: Seq<(u64, NoteView)>, id: u64, note: NoteView) -> Seq<
    (u64, NoteView),
> {
    match first_match(entries, with_id(id), 0) {
        Some(k) => entries.update(k, (id, note)),
        None => entries.push((id, note)),
    }
}

/// A match lies within the entries, `wanted` holds of it, and of none of the
/// entries between `from` and it; where there is no match, `wanted` holds of
/// no entry from `from` on.
pub proof fn lemma_first_match(
    entries: Seq<(u64, NoteView)>,
    wanted: spec_fn((u64, NoteView)) -> bool,
    from: int,
)
    requires
        0 <= from,
    ensures
        match first_match(entries, wanted, from) {
            Some(k) => {
                &&& from <= k < entries.len()
                &&& wanted(entries[k])
                &&& forall|j: int| from <= j < k ==> !wanted(#[trigger] entries[j])
            },
            None => forall|j: int| from <= j < entries.len() ==> !wanted(#[trigger] entries[j]),
        },
    decreases entries.len() - from,
{
    if from < entries.len() && !wanted(entries[from]) {
        lemma_first_match(entries, wanted, from + 1);
    }
}

/// Where no identifier occurs twice, the note kept under the identifier of
/// an entry is the note of that entry.
pub proof fn lemma_note_of_entry(entries: Seq<(u64, NoteView)>, k: int)
    requires
        distinct_ids(entries),
        0 <= k < entries.len(),
    ensures
        first_match(entries, with_id(entries[k].0), 0) == Some(k),
        note_of(entries, entries[k].0) == Some(entries[k].1),
{
    lemma_first_match(entries, with_id(entries[k].0), 0);
}

/// The first match is the one place that `wanted` holds of and of no entry
/// in front of.
pub proof fn lemma_first_match_is(
    entries: Seq<(u64, NoteView)>,
    wanted: spec_fn((u64, NoteView)) -> bool,
    k: int,
)
    requires
        0 <= k < entries.len(),
        wanted(entries[k]),
        forall|j: int| 0 <= j < k ==> !wanted(#[trigger] entries[j]),
    ensures
        first_match(entries, wanted, 0) == Some(k),
{
    lemma_first_match(entries, wanted, 0);
}

/// An index behaves as a map from identifiers to notes: after a note has
/// been put under an identifier, it is the note kept under that identifier,
/// every other identifier keeps its note, and still none occurs twice.
pub proof fn lemma_lookup_after_insert(
    entries: Seq<(u64, NoteView)>,
    id: u64,
    note: NoteView,
    other: u64,
)
    requires
        distinct_ids(entries),
    ensures
        distinct_ids(with_note(entries, id, note)),
        note_of(with_note(entries, id, note), id) == Some(note),
        other != id ==> note_of(with_note(entries, id, note), other) == note_of(entries, other),
{
    let after = with_note(entries, id, note);
    lemma_first_match(entries, with_id(id), 0);
    lemma_first_match(entries, with_id(other), 0);
    let at: int = match first_match(entries, with_id(id), 0) {
        Some(k) => k,
        None => entries.len() as int,
    };
    assert(after[at] == (id, note));
    assert forall|j: int| 0 <= j < after.len() && j != at implies after[j] == entries[j] by {}
    lemma_first_match_is(after, with_id(id), at);
    if other != id {
        match first_match(entries, with_id(other), 0) {
            Some(k) => {
                assert(after[k] == entries[k]);
                assert forall|j: int| 0 <= j < k implies !with_id(other)(#[trigger] after[j]) by {
                    if j != at {
                        assert(after[j] == entries[j]);
                    }
                }
                lemma_first_match_is(after, with_id(other), k);
            },
            None => {
                lemma_first_match(after, with_id(other), 0);
                if first_match(after, with_id(other), 0) is Some {
                    let k: int = first_match(after, with_id(other), 0).unwrap();
                    if k != at {
                        assert(after[k] == entries[k]);
                    }
                }
            },
        }
    }
}

/// The notes of a vault, each under the identifier the engine gave it. No
/// identifier occurs twice.
#[derive(Debug, PartialEq, Eq)]
pub struct Index {
    entries: Vec<(u64, Note)>,
}

impl View for Index {
    type V = Seq<(u64, NoteView)>;

    /// The entries in the order in which their identifiers first came in.
    closed spec fn view(&self) -> Seq<(u64, NoteView)> {
        self.entries.deep_view()
    }
}

impl DeepView for Index {
    type V = Seq<(u64, NoteView)>;

    open spec fn deep_view(&self) -> Seq<(u64, NoteView)> {
        self@
    }
}

impl Index {
    #[verifier::type_invariant]
    spec fn keyed(self) -> bool {
        distinct_ids(self@)
    }

    /// An index without notes.
    pub fn new() -> (index: Index)
        ensures
            index@ == Seq::<(u64, NoteView)>::empty(),
    {
        let index = Index { entries: Vec::new() };
        assert(index@ =~= Seq::<(u64, NoteView)>::empty());
        index
    }

    /// The number of notes.
    pub fn len(&self) -> (n: usize)
        ensures
            n == self@.len(),
    {
        self.entries.len()
    }

    /// All notes with their identifiers, for walking through them.
    pub fn entries(&self) -> (entries: &Vec<(u64, Note)>)
        ensures
            entries.deep_view() == self@,
            distinct_ids(self@),
    {
        proof {
            use_type_invariant(self);
        }
        &self.entries
    }

    /// Where the entry under `id` stands.
    fn position(&self, id: u64) -> (at: Option<usize>)
        ensures
            at.is_some() == first_match(self@, with_id(id), 0).is_some(),
            at matches Some(k) ==> first_match(self@, with_id(id), 0) == Some(k as int) && k
                < self.entries.len(),
    {
        let mut i: usize = 0;
        while i < self.entries.len()
            invariant
                i <= self.entries.len(),
                self@.len() == self.entries.len(),
                first_match(self@, with_id(id), 0) == first_match(self@, with_id(id), i as int),
            decreases self.entries.len() - i,
        {
            assert(self@[i as int].0 == self.entries[i as int].0);
            if self.entries[i].0 == id {
                return Some(i);
            }
            i = i + 1;
        }
        None
    }

    /// The note kept under `id`.
    pub fn get(&self, id: u64) -> (note: Option<&Note>)
        ensures
            note.deep_view() == note_of(self@, id),
    {
        match self.position(id) {
            Some(k) => {
                assert(self@[k as int].1 == self.entries[k as int].1@);
                Some(&self.entries[k].1)
            },
            None => None,
        }
    }

    /// The identifier of the first note titled `title`. The note kept under
    /// it is that note.
    pub fn id_of(&self, title: &str) -> (id: Option<u64>)
        ensures
            id == id_of_title(self@, title@),
            first_match(self@, with_title(title@), 0) matches Some(k) ==> note_of(
                self@,
                self@[k].0,
            ) == Some(self@[k].1),
    {
        proof {
            use_type_invariant(self);
            lemma_first_match(self@, with_title(title@), 0);
            if first_match(self@, with_title(title@), 0) is Some {
                lemma_note_of_entry(self@, first_match(self@, with_title(title@), 0).unwrap());
            }
        }
        let wanted = title.to_owned();
        let mut i: usize = 0;
        while i < self.entries.len()
            invariant
                i <= self.entries.len(),
                self@.len() == self.entries.len(),
                wanted@ == title@,
                first_match(self@, with_title(title@), 0) matches Some(k) ==> note_of(
                    self@,
                    self@[k].0,
                ) == Some(self@[k].1),
                first_match(self@, with_title(title@), 0) == first_match(
                    self@,
                    with_title(title@),
                    i as int,
                ),
            decreases self.entries.len() - i,
        {
            assert(self@[i as int] == (self.entries[i as int].0, self.entries[i as int].1@));
            if *self.entries[i].1.title() == wanted {
                return Some(self.entries[i].0);
            }
            i = i + 1;
        }
        None
    }

    /// The identifier of the first note read from `path`. The note kept
    /// under it is that note.
    pub fn id_of_path(&self, path: &str) -> (id: Option<u64>)
        ensures
            id == id_of_path(self@, path@),
            first_match(self@, with_path(path@), 0) matches Some(k) ==> note_of(
                self@,
                self@[k].0,
            ) == Some(self@[k].1),
    {
        proof {
            use_type_invariant(self);
            lemma_first_match(self@, with_path(path@), 0);
            if first_match(self@, with_path(path@), 0) is Some {
                lemma_note_of_entry(self@, first_match(self@, with_path(path@), 0).unwrap());
            }
        }
        let wanted = path.to_owned();
        let mut i: usize = 0;
        while i < self.entries.len()
            invariant
                i <= self.entries.len(),
                self@.len() == self.entries.len(),
                wanted@ == path@,
                first_match(self@, with_path(path@), 0) matches Some(k) ==> note_of(
                    self@,
                    self@[k].0,
                ) == Some(self@[k].1),
                first_match(self@, with_path(path@), 0) == first_match(
                    self@,
                    with_path(path@),
                    i as int,
                ),
            decreases self.entries.len() - i,
        {
            assert(self@[i as int] == (self.entries[i as int].0, self.entries[i as int].1@));
            let found = match self.entries[i].1.path() {
                Some(source) => *source == wanted,
                None => false,
            };
            if found {
                return Some(self.entries[i].0);
            }
            i = i + 1;
        }
        None
    }

    /// Puts `note` under `id`. A note that was there before is replaced and
    /// keeps its place; a new one comes last.
    pub fn insert(&mut self, id: u64, note: Note)
        ensures
            final(self)@ == with_note(old(self)@, id, note@),
    {
        proof {
            use_type_invariant(&*self);
        }
        let at = self.position(id);
        let ghost before = self@;
        let mut entries: Vec<(u64, Note)> = Vec::new();
        std::mem::swap(&mut entries, &mut self.entries);
        assert(entries.deep_view() == before);
        proof {
            lemma_first_match(before, with_id(id), 0);
        }
        match at {
            Some(k) => {
                entries[k] = (id, note);
                assert(entries.deep_view() =~= before.update(k as int, (id, note@)));
            },
            None => {
                entries.push((id, note));
                assert(entries.deep_view() =~= before.push((id, note@)));
            },
        }
        assert(distinct_ids(entries.deep_view()));
        self.entries = entries;
    }
}

} // verus!
