//! The table of live links, indexed by ids that are never given out twice.

use vstd::prelude::*;
use crate::error::ProgramError;
use crate::handles::LinkHandle;

verus! {

/// The id of a link in a `LinkTable`.
#[derive(Debug, Clone, Copy, PartialEq, Eq, Structural)]
pub struct LinkId {
    pub index: usize,
}

/// The links that were made, each under its id. The slot of a link that was
/// taken out stays behind empty, so that its id is not given out again.
#[derive(Debug)]
pub struct LinkTable {
    slots: Vec<Option<LinkHandle>>,
}

/// The table `slots` after it took in `link`, and the id that `link` got.
pub open spec fn inserted(slots: Seq<Option<LinkHandle>>, link: LinkHandle) -> (
    Seq<Option<LinkHandle>>,
    LinkId,
) {
    (slots.push(Some(link)), LinkId { index: slots.len() as usize })
}

/// Whether `slots` holds a live link under `id`.
pub open spec fn holds(slots: Seq<Option<LinkHandle>>, id: LinkId) -> bool {
    id.index < slots.len() && slots[id.index as int] is Some
}

impl View for LinkTable {
    type V = Seq<Option<LinkHandle>>;

    /// One slot for each id given out so far, in the order of the ids.
    closed spec fn view(&self) -> Seq<Option<LinkHandle>> {
        self.slots@
    }
}

impl LinkTable {
    /// A table without links.
    pub fn new() -> (table: LinkTable)
        ensures
            table@ == Seq::<Option<LinkHandle>>::empty(),
    {
        LinkTable { slots: Vec::new() }
    }

    /// A table has no more slots than `usize` counts.
    pub proof fn lemma_len_fits(&self)
        ensures
            self@.len() <= usize::MAX,
    {
        assert(self.slots@.len() == self.slots.len());
    }

    /// Takes in `link` and gives it an id that no link had before.
    pub fn insert(&mut self, link: LinkHandle) -> (id: LinkId)
        ensures
            (final(self)@, id) == inserted(old(self)@, link),
            !holds(old(self)@, id),
            holds(final(self)@, id),
            forall|live: LinkId| holds(old(self)@, live) ==> holds(final(self)@, live) && live != id,
    {
        let index: usize = self.slots.len();
        self.slots.push(Some(link));
        LinkId { index }
    }

    /// Whether a live link has the id `id`.
    pub fn contains(&self, id: LinkId) -> (live: bool)
        ensures
            live == holds(self@, id),
    {
        id.index < self.slots.len() && self.slots[id.index].is_some()
    }

    /// The descriptor of the live link with the id `id`.
    pub fn get(&self, id: LinkId) -> (fd: Option<i32>)
        ensures
            fd is Some == holds(self@, id),
            fd matches Some(number) ==> self@[id.index as int] == Some(LinkHandle { fd: number }),
    {
        if id.index < self.slots.len() {
            match &self.slots[id.index] {
                Some(link) => Some(link.fd),
                None => None,
            }
        } else {
            None
        }
    }

    /// The number of live links.
    pub fn len(&self) -> (count: usize)
        ensures
            count == self@.filter(|slot: Option<LinkHandle>| slot is Some).len(),
    {
        let mut count: usize = 0;
        let mut i: usize = 0;
        let ghost live = |slot: Option<LinkHandle>| slot is Some;
        while i < self.slots.len()
            invariant
                i <= self.slots.len(),
                count == self.slots@.take(i as int).filter(live).len(),
                count <= i,
                live == |slot: Option<LinkHandle>| slot is Some,
            decreases self.slots.len() - i,
        {
            proof {
                let head = self.slots@.take(i as int);
                let slot = self.slots@[i as int];
                assert(self.slots@.take(i + 1) =~= head.push(slot));
                assert(head.push(slot).drop_last() =~= head);
                reveal(Seq::filter);
            }
            if self.slots[i].is_some() {
                count = count + 1;
            }
            i = i + 1;
        }
        proof {
            assert(self.slots@.take(i as int) =~= self.slots@);
        }
        count
    }

    /// Takes the live link with the id `id` out of the table, for the caller
    /// to close. An id that has no live link, or has none any more, is
    /// refused with `NotAttached`.
    pub fn remove(&mut self, id: LinkId) -> (taken: Result<LinkHandle, ProgramError>)
        ensures
            match taken {
                Ok(link) => holds(old(self)@, id) && old(self)@[id.index as int] == Some(link)
                    && final(self)@ == old(self)@.update(id.index as int, None),
                Err(error) => !holds(old(self)@, id) && error is NotAttached && final(self)@ == old(
                    self,
                )@,
            },
    {
        if id.index < self.slots.len() {
            let mut slot: Option<LinkHandle> = None;
            std::mem::swap(&mut slot, &mut self.slots[id.index]);
            match slot {
                Some(link) => {
                    assert(self.slots@ =~= old(self).slots@.update(id.index as int, None));
                    Ok(link)
                },
                None => {
                    assert(self.slots@ =~= old(self).slots@);
                    Err(ProgramError::NotAttached)
                },
            }
        } else {
            Err(ProgramError::NotAttached)
        }
    }
}

/// Two links taken in one after the other get two ids, and both are live in
/// the table after the second: also where the two links are equal. The
/// table is one that can exist: after both links it has no more slots than
/// `usize` counts, which `LinkTable::lemma_len_fits` shows of every table.
pub proof fn lemma_successive_ids_differ(
    slots: Seq<Option<LinkHandle>>,
    first: LinkHandle,
    second: LinkHandle,
)
    requires
        slots.len() + 2 <= usize::MAX,
    ensures
        ({
            let (once, first_id) = inserted(slots, first);
            let (twice, second_id) = inserted(once, second);
            &&& first_id != second_id
            &&& holds(twice, first_id) && twice[first_id.index as int] == Some(first)
            &&& holds(twice, second_id) && twice[second_id.index as int] == Some(second)
        }),
{
}

/// The id of a link that was taken out is not given out again: a link taken
/// in afterwards gets another, and the old id stays without a link.
pub proof fn lemma_ids_are_not_reused(
    slots: Seq<Option<LinkHandle>>,
    gone: LinkId,
    link: LinkHandle,
)
    requires
        gone.index < slots.len() <= usize::MAX,
    ensures
        ({
            let (after, id) = inserted(slots.update(gone.index as int, None), link);
            id != gone && !holds(after, gone) && holds(after, id)
        }),
{
}

} // verus!
