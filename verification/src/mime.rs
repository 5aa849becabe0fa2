use crate::assoc::{distinct_keys, has_key, index_of, keys, to_map};
use crate::assoc::{lemma_to_map_at, lemma_to_map_empty, lemma_to_map_finite, lemma_to_map_push};
use crate::assoc::{lemma_to_map_remove, lemma_to_map_update};
use crate::buffer::{BufferView, SelectionData};
use crate::text::same_text;
use vstd::prelude::*;

verus! {

/// The buffers of an offer as mathematics: a finite map from the name of a
/// content type to what was read of it.
pub type MimeView = Map<Seq<char>, BufferView>;

/// Every buffer of `buffers` has seen the end of its stream.
pub open spec fn all_complete(buffers: MimeView) -> bool {
    forall|name: Seq<char>| buffers.contains_key(name) ==> (#[trigger] buffers[name]).complete
}

#[derive(Debug)]
struct MimeEntry {
    name: String,
    data: SelectionData,
}

/// The content types of one offer, each with its buffer. A name occurs once.
#[derive(Debug)]
pub struct MimeTypes {
    entries: Vec<MimeEntry>,
}

impl View for MimeTypes {
    type V = MimeView;

    closed spec fn view(&self) -> MimeView {
        to_map(self.pairs())
    }
}

impl MimeTypes {
    /// The entries as pairs of plain values, in the order in which they were added.
    spec fn pairs(&self) -> Seq<(Seq<char>, BufferView)> {
        self.entries@.map_values(|e: MimeEntry| (e.name@, e.data@))
    }

    /// No name occurs twice.
    pub closed spec fn wf(&self) -> bool {
        distinct_keys(self.pairs())
    }

    /// No content type at all.
    pub fn new() -> (types: MimeTypes)
        ensures
            types.wf(),
            types@ == Map::<Seq<char>, BufferView>::empty(),
    {
        let types = MimeTypes { entries: Vec::new() };
        proof {
            lemma_to_map_empty::<Seq<char>, BufferView>();
            assert(types.pairs() =~= Seq::empty());
        }
        types
    }

    fn find(&self, mime_type: &str) -> (found: Option<usize>)
        ensures
            match found {
                Some(i) => i < self.pairs().len() && self.pairs()[i as int].0 == mime_type@,
                None => !has_key(self.pairs(), mime_type@),
            },
    {
        let mut i: usize = 0;
        while i < self.entries.len()
            invariant
                i <= self.entries.len(),
                forall|j: int| 0 <= j < i ==> (#[trigger] self.pairs()[j]).0 != mime_type@,
            decreases self.entries.len() - i,
        {
            if same_text(self.entries[i].name.as_str(), mime_type) {
                return Some(i);
            }
            i += 1;
        }
        None
    }

    /// How many content types there are.
    pub fn len(&self) -> (n: usize)
        requires
            self.wf(),
        ensures
            self@.dom().finite(),
            n == self@.dom().len(),
    {
        proof {
            lemma_to_map_finite(self.pairs());
        }
        self.entries.len()
    }

    /// Whether `mime_type` is among the content types.
    pub fn contains(&self, mime_type: &str) -> (found: bool)
        ensures
            found == self@.contains_key(mime_type@),
    {
        self.find(mime_type).is_some()
    }

    /// The buffer of `mime_type`, if it is among the content types.
    pub fn get(&self, mime_type: &str) -> (buffer: Option<&SelectionData>)
        requires
            self.wf(),
        ensures
            match buffer {
                Some(b) => self@.contains_key(mime_type@) && b@ == self@[mime_type@],
                None => !self@.contains_key(mime_type@),
            },
    {
        match self.find(mime_type) {
            Some(i) => {
                proof {
                    lemma_to_map_at(self.pairs(), i as int);
                }
                Some(&self.entries[i].data)
            },
            None => None,
        }
    }

    /// Adds `mime_type` with an empty buffer, unless it is there already: a
    /// buffer that exists is never replaced.
    pub fn add(&mut self, mime_type: String)
        requires
            old(self).wf(),
        ensures
            final(self).wf(),
            final(self)@ == if old(self)@.contains_key(mime_type@) {
                old(self)@
            } else {
                old(self)@.insert(mime_type@, BufferView::empty())
            },
    {
        if self.find(mime_type.as_str()).is_none() {
            proof {
                lemma_to_map_push(self.pairs(), mime_type@, BufferView::empty());
            }
            self.entries.push(MimeEntry { name: mime_type, data: SelectionData::new() });
            assert(self.pairs() =~= old(self).pairs().push((mime_type@, BufferView::empty())));
        }
    }
}

impl MimeTypes {
    /// Adds `chunk` behind what the buffer of `mime_type` holds. Without such a
    /// buffer nothing changes.
    pub fn append(&mut self, mime_type: &str, chunk: &[u8])
        requires
            old(self).wf(),
        ensures
            final(self).wf(),
            final(self)@ == if old(self)@.contains_key(mime_type@) {
                old(self)@.insert(mime_type@, old(self)@[mime_type@].append(chunk@))
            } else {
                old(self)@
            },
    {
        match self.find(mime_type) {
            Some(i) => {
                proof {
                    lemma_to_map_at(self.pairs(), i as int);
                    lemma_to_map_update(
                        self.pairs(),
                        i as int,
                        self.pairs()[i as int].1.append(chunk@),
                    );
                }
                self.entries[i].data.append(chunk);
                assert(self.pairs() =~= old(self).pairs().update(
                    i as int,
                    (mime_type@, old(self).pairs()[i as int].1.append(chunk@)),
                ));
            },
            None => {},
        }
    }

    /// Raises the completion flag of the buffer of `mime_type`. Without such a
    /// buffer nothing changes.
    pub fn mark_complete(&mut self, mime_type: &str)
        requires
            old(self).wf(),
        ensures
            final(self).wf(),
            final(self)@ == if old(self)@.contains_key(mime_type@) {
                old(self)@.insert(mime_type@, old(self)@[mime_type@].finish())
            } else {
                old(self)@
            },
    {
        match self.find(mime_type) {
            Some(i) => {
                proof {
                    lemma_to_map_at(self.pairs(), i as int);
                    lemma_to_map_update(self.pairs(), i as int, self.pairs()[i as int].1.finish());
                }
                self.entries[i].data.mark_complete();
                assert(self.pairs() =~= old(self).pairs().update(
                    i as int,
                    (mime_type@, old(self).pairs()[i as int].1.finish()),
                ));
            },
            None => {},
        }
    }

    /// Takes `mime_type` and its buffer out. The other content types stay.
    pub fn remove(&mut self, mime_type: &str)
        requires
            old(self).wf(),
        ensures
            final(self).wf(),
            final(self)@ == old(self)@.remove(mime_type@),
    {
        match self.find(mime_type) {
            Some(i) => {
                proof {
                    lemma_to_map_remove(self.pairs(), i as int);
                }
                let _ = self.entries.remove(i);
                assert(self.pairs() =~= old(self).pairs().remove(i as int));
            },
            None => {
                assert(old(self)@.remove(mime_type@) =~= old(self)@);
            },
        }
    }

    /// Whether every buffer has seen the end of its stream. True of no buffers.
    pub fn all_complete(&self) -> (done: bool)
        requires
            self.wf(),
        ensures
            done == all_complete(self@),
    {
        let mut i: usize = 0;
        while i < self.entries.len()
            invariant
                self.wf(),
                i <= self.entries.len(),
                forall|j: int| 0 <= j < i ==> (#[trigger] self.pairs()[j]).1.complete,
            decreases self.entries.len() - i,
        {
            if !self.entries[i].data.is_complete() {
                proof {
                    lemma_to_map_at(self.pairs(), i as int);
                }
                return false;
            }
            i += 1;
        }
        proof {
            assert forall|name: Seq<char>| self@.contains_key(name) implies (
            #[trigger] self@[name]).complete by {
                let j = index_of(self.pairs(), name);
                lemma_to_map_at(self.pairs(), j);
            }
        }
        true
    }

    /// The names of the content types, each once.
    pub fn names(&self) -> (names: Vec<String>)
        requires
            self.wf(),
        ensures
            texts(names@).no_duplicates(),
            texts(names@).to_set() == self@.dom(),
            names@.len() == self@.dom().len(),
    {
        let mut names: Vec<String> = Vec::new();
        let mut i: usize = 0;
        while i < self.entries.len()
            invariant
                i <= self.entries.len(),
                names@.len() == i,
                forall|j: int| 0 <= j < i ==> (#[trigger] names@[j])@ == self.pairs()[j].0,
            decreases self.entries.len() - i,
        {
            names.push(self.entries[i].name.clone());
            i += 1;
        }
        proof {
            lemma_to_map_finite(self.pairs());
            assert(texts(names@) =~= keys(self.pairs()));
        }
        names
    }
}

/// What a list of strings holds, string by string.
pub open spec fn texts(names: Seq<String>) -> Seq<Seq<char>> {
    Seq::new(names.len(), |i: int| names[i]@)
}

} // verus!
