use crate::assoc::{distinct_keys, has_key, to_map};
use crate::assoc::{lemma_to_map_at, lemma_to_map_empty, lemma_to_map_push};
use crate::assoc::{lemma_to_map_remove, lemma_to_map_update};
use crate::offer::{DataOffer, OfferView};
use crate::selection::Selection;
use vstd::prelude::*;

verus! {

#[derive(Debug)]
struct OfferEntry {
    id: u32,
    offer: DataOffer,
}

/// The offers that were announced and neither promoted nor discarded, each
/// under the id that the compositor gave it. An id occurs once.
#[derive(Debug)]
pub struct PendingOffers {
    entries: Vec<OfferEntry>,
}

impl View for PendingOffers {
    type V = Map<u32, OfferView>;

    closed spec fn view(&self) -> Map<u32, OfferView> {
        to_map(self.pairs())
    }
}

impl PendingOffers {
    /// The entries as pairs of plain values, in the order in which they came.
    spec fn pairs(&self) -> Seq<(u32, OfferView)> {
        self.entries@.map_values(|e: OfferEntry| (e.id, e.offer@))
    }

    /// No id occurs twice, and each offer is well formed.
    pub closed spec fn wf(&self) -> bool {
        &&& distinct_keys(self.pairs())
        &&& forall|i: int| 0 <= i < self.entries@.len() ==> (#[trigger] self.entries@[i]).offer.wf()
    }

    /// No offer at all.
    pub fn new() -> (offers: PendingOffers)
        ensures
            offers.wf(),
            offers@ == Map::<u32, OfferView>::empty(),
    {
        let offers = PendingOffers { entries: Vec::new() };
        proof {
            lemma_to_map_empty::<u32, OfferView>();
            assert(offers.pairs() =~= Seq::empty());
        }
        offers
    }

    fn find(&self, id: u32) -> (found: Option<usize>)
        ensures
            match found {
                Some(i) => i < self.pairs().len() && self.pairs()[i as int].0 == id,
                None => !has_key(self.pairs(), id),
            },
    {
        let mut i: usize = 0;
        while i < self.entries.len()
            invariant
                i <= self.entries.len(),
                forall|j: int| 0 <= j < i ==> (#[trigger] self.pairs()[j]).0 != id,
            decreases self.entries.len() - i,
        {
            if self.entries[i].id == id {
                return Some(i);
            }
            i += 1;
        }
        None
    }

    /// The offer with the id `id`, if it is pending.
    pub fn get(&self, id: u32) -> (offer: Option<&DataOffer>)
        requires
            self.wf(),
        ensures
            match offer {
                Some(o) => self@.contains_key(id) && o@ == self@[id] && o.wf(),
                None => !self@.contains_key(id),
            },
    {
        match self.find(id) {
            Some(i) => {
                proof {
                    lemma_to_map_at(self.pairs(), i as int);
                }
                Some(&self.entries[i].offer)
            },
            None => None,
        }
    }

    /// Puts `offer` under `id`, in place of the offer that stood there, if any.
    pub(crate) fn put(&mut self, id: u32, offer: DataOffer)
        requires
            old(self).wf(),
            offer.wf(),
        ensures
            final(self).wf(),
            final(self)@ == old(self)@.insert(id, offer@),
    {
        match self.find(id) {
            Some(i) => {
                proof {
                    lemma_to_map_update(self.pairs(), i as int, offer@);
                }
                self.entries[i].offer = offer;
                assert(self.pairs() =~= old(self).pairs().update(i as int, (id, offer@)));
            },
            None => {
                proof {
                    lemma_to_map_push(self.pairs(), id, offer@);
                }
                self.entries.push(OfferEntry { id, offer });
                assert(self.pairs() =~= old(self).pairs().push((id, offer@)));
            },
        }
    }

    /// Takes the offer with the id `id` out and hands it over, if it is pending.
    pub(crate) fn take(&mut self, id: u32) -> (offer: Option<DataOffer>)
        requires
            old(self).wf(),
        ensures
            final(self).wf(),
            final(self)@ == old(self)@.remove(id),
            match offer {
                Some(o) => old(self)@.contains_key(id) && o@ == old(self)@[id] && o.wf(),
                None => !old(self)@.contains_key(id),
            },
    {
        match self.find(id) {
            Some(i) => {
                proof {
                    lemma_to_map_at(self.pairs(), i as int);
                    lemma_to_map_remove(self.pairs(), i as int);
                }
                let entry = self.entries.remove(i);
                assert(self.pairs() =~= old(self).pairs().remove(i as int));
                Some(entry.offer)
            },
            None => {
                assert(old(self)@.remove(id) =~= old(self)@);
                None
            },
        }
    }

    /// Takes note of a content type that the offer `id` advertises. Without
    /// such an offer nothing changes.
    pub(crate) fn advertise(&mut self, id: u32, mime_type: String)
        requires
            old(self).wf(),
        ensures
            final(self).wf(),
            final(self)@ == if old(self)@.contains_key(id) {
                old(self)@.insert(id, old(self)@[id].advertise(mime_type@))
            } else {
                old(self)@
            },
    {
        match self.find(id) {
            Some(i) => {
                proof {
                    lemma_to_map_at(self.pairs(), i as int);
                    lemma_to_map_update(
                        self.pairs(),
                        i as int,
                        self.pairs()[i as int].1.advertise(mime_type@),
                    );
                }
                self.entries[i].offer.advertise(mime_type);
                assert(self.pairs() =~= old(self).pairs().update(
                    i as int,
                    (id, old(self).pairs()[i as int].1.advertise(mime_type@)),
                ));
            },
            None => {},
        }
    }

    /// Confirms the offer `id` for `selection`, unless it was confirmed before.
    /// Tells whether this call confirmed it.
    pub(crate) fn confirm(&mut self, id: u32, selection: Selection) -> (first: bool)
        requires
            old(self).wf(),
        ensures
            final(self).wf(),
            final(self)@ == if old(self)@.contains_key(id) {
                old(self)@.insert(id, old(self)@[id].confirm(selection))
            } else {
                old(self)@
            },
            first == (old(self)@.contains_key(id) && old(self)@[id].selection is None),
    {
        match self.find(id) {
            Some(i) => {
                proof {
                    lemma_to_map_at(self.pairs(), i as int);
                    lemma_to_map_update(
                        self.pairs(),
                        i as int,
                        self.pairs()[i as int].1.confirm(selection),
                    );
                }
                let first = self.entries[i].offer.confirm(selection);
                assert(self.pairs() =~= old(self).pairs().update(
                    i as int,
                    (id, old(self).pairs()[i as int].1.confirm(selection)),
                ));
                first
            },
            None => false,
        }
    }

    /// Adds `chunk` behind what was read of `mime_type` of the offer `id`.
    pub(crate) fn receive(&mut self, id: u32, mime_type: &str, chunk: &[u8])
        requires
            old(self).wf(),
        ensures
            final(self).wf(),
            final(self)@ == if old(self)@.contains_key(id) {
                old(self)@.insert(id, old(self)@[id].receive(mime_type@, chunk@))
            } else {
                old(self)@
            },
    {
        match self.find(id) {
            Some(i) => {
                proof {
                    lemma_to_map_at(self.pairs(), i as int);
                    lemma_to_map_update(
                        self.pairs(),
                        i as int,
                        self.pairs()[i as int].1.receive(mime_type@, chunk@),
                    );
                }
                self.entries[i].offer.receive(mime_type, chunk);
                assert(self.pairs() =~= old(self).pairs().update(
                    i as int,
                    (id, old(self).pairs()[i as int].1.receive(mime_type@, chunk@)),
                ));
            },
            None => {},
        }
    }

    /// Notes that the stream of `mime_type` of the offer `id` ended.
    pub(crate) fn finish(&mut self, id: u32, mime_type: &str)
        requires
            old(self).wf(),
        ensures
            final(self).wf(),
            final(self)@ == if old(self)@.contains_key(id) {
                old(self)@.insert(id, old(self)@[id].finish(mime_type@))
            } else {
                old(self)@
            },
    {
        match self.find(id) {
            Some(i) => {
                proof {
                    lemma_to_map_at(self.pairs(), i as int);
                    lemma_to_map_update(
                        self.pairs(),
                        i as int,
                        self.pairs()[i as int].1.finish(mime_type@),
                    );
                }
                self.entries[i].offer.finish(mime_type);
                assert(self.pairs() =~= old(self).pairs().update(
                    i as int,
                    (id, old(self).pairs()[i as int].1.finish(mime_type@)),
                ));
            },
            None => {},
        }
    }

    /// Gives up `mime_type` of the offer `id`. Its siblings stay.
    pub(crate) fn drop_type(&mut self, id: u32, mime_type: &str)
        requires
            old(self).wf(),
        ensures
            final(self).wf(),
            final(self)@ == if old(self)@.contains_key(id) {
                old(self)@.insert(id, old(self)@[id].drop_type(mime_type@))
            } else {
                old(self)@
            },
    {
        match self.find(id) {
            Some(i) => {
                proof {
                    lemma_to_map_at(self.pairs(), i as int);
                    lemma_to_map_update(
                        self.pairs(),
                        i as int,
                        self.pairs()[i as int].1.drop_type(mime_type@),
                    );
                }
                self.entries[i].offer.drop_type(mime_type);
                assert(self.pairs() =~= old(self).pairs().update(
                    i as int,
                    (id, old(self).pairs()[i as int].1.drop_type(mime_type@)),
                ));
            },
            None => {},
        }
    }
}

} // verus!
