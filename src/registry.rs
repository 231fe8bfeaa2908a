use vstd::prelude::*;

use crate::address::Address;
use crate::error::RestakingError;
use crate::ticket::{cooldown_spec, status_spec, warmup_spec, Ticket, TicketStatus};

verus! {

/// One relationship held by a registry: the counterparty, its ticket, and for
/// slasher relationships the bound set when the entry was made.
#[derive(Clone, Copy, Debug)]
pub struct Entry {
    pub counterparty: Address,
    pub ticket: Ticket,
    pub max_slashable_per_epoch: u64,
}

/// No counterparty appears twice.
pub open spec fn keys_unique(s: Seq<Entry>) -> bool {
    forall|i: int, j: int|
        0 <= i < j < s.len() ==> #[trigger] s[i].counterparty@ != #[trigger] s[j].counterparty@
}

pub open spec fn holds_key(s: Seq<Entry>, i: int, key: Seq<u8>) -> bool {
    0 <= i < s.len() && s[i].counterparty@ == key
}

/// The index of `key`'s entry, if it has one.
pub open spec fn find_spec(s: Seq<Entry>, key: Seq<u8>) -> Option<int> {
    if exists|i: int| holds_key(s, i, key) {
        Some(choose|i: int| holds_key(s, i, key))
    } else {
        None
    }
}

pub open spec fn is_inactive(e: Entry, slot: u64, warmup_delay: u64, cooldown_delay: u64) -> bool {
    status_spec(e.ticket, slot, warmup_delay, cooldown_delay) == TicketStatus::Inactive
}

/// `j` is the lowest index whose entry is fully inactive.
pub open spec fn is_first_inactive(
    s: Seq<Entry>,
    j: int,
    slot: u64,
    warmup_delay: u64,
    cooldown_delay: u64,
) -> bool {
    &&& 0 <= j < s.len()
    &&& is_inactive(s[j], slot, warmup_delay, cooldown_delay)
    &&& forall|k: int| 0 <= k < j ==> !is_inactive(#[trigger] s[k], slot, warmup_delay, cooldown_delay)
}

/// The lowest index whose entry can be reclaimed, if any.
pub open spec fn first_inactive_spec(
    s: Seq<Entry>,
    slot: u64,
    warmup_delay: u64,
    cooldown_delay: u64,
) -> Option<int> {
    if exists|j: int| is_first_inactive(s, j, slot, warmup_delay, cooldown_delay) {
        Some(choose|j: int| is_first_inactive(s, j, slot, warmup_delay, cooldown_delay))
    } else {
        None
    }
}

pub open spec fn fresh_entry(counterparty: Address, slot: u64, max_slashable_per_epoch: u64) -> Entry {
    Entry {
        counterparty,
        ticket: Ticket { slot_added: slot, slot_removed: None },
        max_slashable_per_epoch,
    }
}

/// The outcome of adding `counterparty` at `slot`, and the entries afterwards.
pub open spec fn add_spec(
    s: Seq<Entry>,
    capacity: nat,
    counterparty: Address,
    signer: Seq<u8>,
    admin: Seq<u8>,
    slot: u64,
    max_slashable_per_epoch: u64,
    warmup_delay: u64,
    cooldown_delay: u64,
) -> (Result<(), RestakingError>, Seq<Entry>) {
    let e = fresh_entry(counterparty, slot, max_slashable_per_epoch);
    if signer != admin {
        (Err(RestakingError::Unauthorized), s)
    } else {
        match find_spec(s, counterparty@) {
            Some(i) => if is_inactive(s[i], slot, warmup_delay, cooldown_delay) {
                (Ok(()), s.update(i, e))
            } else {
                (Err(RestakingError::DuplicateEntry), s)
            },
            None => if s.len() < capacity {
                (Ok(()), s.push(e))
            } else {
                match first_inactive_spec(s, slot, warmup_delay, cooldown_delay) {
                    Some(j) => (Ok(()), s.update(j, e)),
                    None => (Err(RestakingError::ListFull), s),
                }
            },
        }
    }
}

/// The outcome of removing `counterparty` at `slot`: its ticket's cooldown.
pub open spec fn remove_spec(
    s: Seq<Entry>,
    counterparty: Seq<u8>,
    signer: Seq<u8>,
    admin: Seq<u8>,
    slot: u64,
    warmup_delay: u64,
    cooldown_delay: u64,
) -> (Result<(), RestakingError>, Seq<Entry>) {
    if signer != admin {
        (Err(RestakingError::Unauthorized), s)
    } else {
        match find_spec(s, counterparty) {
            None => (Err(RestakingError::TicketNotActive), s),
            Some(i) => {
                let (r, t) = cooldown_spec(
                    s[i].ticket,
                    signer,
                    admin,
                    slot,
                    warmup_delay,
                    cooldown_delay,
                );
                if r is Ok {
                    (r, s.update(i, Entry { ticket: t, ..s[i] }))
                } else {
                    (r, s)
                }
            },
        }
    }
}

/// The status of `counterparty`'s relationship: `Inactive` when it has no entry.
pub open spec fn entry_status_spec(
    s: Seq<Entry>,
    counterparty: Seq<u8>,
    slot: u64,
    warmup_delay: u64,
    cooldown_delay: u64,
) -> TicketStatus {
    match find_spec(s, counterparty) {
        Some(i) => status_spec(s[i].ticket, slot, warmup_delay, cooldown_delay),
        None => TicketStatus::Inactive,
    }
}

/// The outcome of re-affirming `counterparty`'s relationship.
pub open spec fn reaffirm_spec(
    s: Seq<Entry>,
    counterparty: Seq<u8>,
    signer: Seq<u8>,
    admin: Seq<u8>,
    slot: u64,
    warmup_delay: u64,
    cooldown_delay: u64,
) -> Result<(), RestakingError> {
    if signer != admin {
        Err(RestakingError::Unauthorized)
    } else {
        match find_spec(s, counterparty) {
            None => Err(RestakingError::TicketNotActive),
            Some(i) => warmup_spec(s[i].ticket, signer, admin, slot, warmup_delay, cooldown_delay),
        }
    }
}

/// Replacing an entry by one whose key no other entry holds keeps keys unique.
proof fn lemma_update_keeps_unique(s: Seq<Entry>, i: int, e: Entry)
    requires
        keys_unique(s),
        0 <= i < s.len(),
        forall|j: int| 0 <= j < s.len() && j != i ==> s[j].counterparty@ != e.counterparty@,
    ensures
        keys_unique(s.update(i, e)),
{
    let t = s.update(i, e);
    assert forall|a: int, b: int| 0 <= a < b < t.len() implies #[trigger] t[a].counterparty@
        != #[trigger] t[b].counterparty@ by {
        if a != i && b != i {
            assert(s[a].counterparty@ != s[b].counterparty@);
        }
    }
}

/// Appending an entry whose key no entry holds keeps keys unique.
proof fn lemma_push_keeps_unique(s: Seq<Entry>, e: Entry)
    requires
        keys_unique(s),
        forall|j: int| 0 <= j < s.len() ==> s[j].counterparty@ != e.counterparty@,
    ensures
        keys_unique(s.push(e)),
{
    let t = s.push(e);
    assert forall|a: int, b: int| 0 <= a < b < t.len() implies #[trigger] t[a].counterparty@
        != #[trigger] t[b].counterparty@ by {
        if b < s.len() {
            assert(s[a].counterparty@ != s[b].counterparty@);
        } else {
            assert(!holds_key(s, a, e.counterparty@));
        }
    }
}

/// A bounded list of relationships owned by one participant record. Its
/// capacity is fixed when it is made.
#[derive(Debug)]
pub struct RegistryList {
    entries: Vec<Entry>,
    capacity: usize,
}

impl RegistryList {
    pub closed spec fn spec_entries(&self) -> Seq<Entry> {
        self.entries@
    }

    pub closed spec fn spec_capacity(&self) -> nat {
        self.capacity as nat
    }

    /// Never more entries than the capacity, and each counterparty at most once.
    pub open spec fn wf(&self) -> bool {
        &&& self.spec_entries().len() <= self.spec_capacity()
        &&& keys_unique(self.spec_entries())
    }

    /// An empty list holding at most `capacity` entries.
    pub fn new(capacity: usize) -> (r: RegistryList)
        ensures
            r.wf(),
            r.spec_entries() == Seq::<Entry>::empty(),
            r.spec_capacity() == capacity,
    {
        RegistryList { entries: Vec::new(), capacity }
    }

    pub fn capacity(&self) -> (r: usize)
        ensures
            r == self.spec_capacity(),
    {
        self.capacity
    }

    pub fn len(&self) -> (r: usize)
        ensures
            r == self.spec_entries().len(),
    {
        self.entries.len()
    }

    /// The entry at `index`.
    pub fn get(&self, index: usize) -> (r: Entry)
        requires
            index < self.spec_entries().len(),
        ensures
            r == self.spec_entries()[index as int],
    {
        self.entries[index]
    }

    /// The index of `key`'s entry, if it has one.
    pub fn find(&self, key: &Address) -> (r: Option<usize>)
        requires
            self.wf(),
        ensures
            match r {
                Some(i) => find_spec(self.spec_entries(), key@) == Some(i as int),
                None => find_spec(self.spec_entries(), key@) is None,
            },
    {
        let mut i: usize = 0;
        while i < self.entries.len()
            invariant
                self.wf(),
                i <= self.entries@.len(),
                forall|j: int| 0 <= j < i ==> !holds_key(self.entries@, j, key@),
            decreases self.entries@.len() - i,
        {
            if self.entries[i].counterparty.same_as(key) {
                let ghost s = self.entries@;
                proof {
                    assert(holds_key(s, i as int, key@));
                    let c = choose|j: int| holds_key(s, j, key@);
                    if c != i as int {
                        if c < i {
                            assert(s[c].counterparty@ != s[i as int].counterparty@);
                        } else {
                            assert(s[i as int].counterparty@ != s[c].counterparty@);
                        }
                    }
                }
                return Some(i);
            }
            i = i + 1;
        }
        None
    }

    /// The lowest index whose entry is fully inactive at `slot`, if any.
    fn first_inactive(&self, slot: u64, warmup_delay: u64, cooldown_delay: u64) -> (r: Option<usize>)
        ensures
            match r {
                Some(j) => first_inactive_spec(self.spec_entries(), slot, warmup_delay, cooldown_delay)
                    == Some(j as int),
                None => first_inactive_spec(self.spec_entries(), slot, warmup_delay, cooldown_delay) is None,
            },
    {
        let ghost s = self.entries@;
        let mut i: usize = 0;
        while i < self.entries.len()
            invariant
                s == self.entries@,
                i <= s.len(),
                forall|k: int| 0 <= k < i ==> !is_inactive(#[trigger] s[k], slot, warmup_delay, cooldown_delay),
            decreases s.len() - i,
        {
            if self.entries[i].ticket.status(slot, warmup_delay, cooldown_delay) == TicketStatus::Inactive {
                proof {
                    assert(is_first_inactive(s, i as int, slot, warmup_delay, cooldown_delay));
                    let c = choose|j: int| is_first_inactive(s, j, slot, warmup_delay, cooldown_delay);
                    if c < i {
                        assert(!is_inactive(s[c], slot, warmup_delay, cooldown_delay));
                    } else if c > i {
                        assert(!is_inactive(s[i as int], slot, warmup_delay, cooldown_delay));
                    }
                }
                return Some(i);
            }
            i = i + 1;
        }
        proof {
            if exists|j: int| is_first_inactive(s, j, slot, warmup_delay, cooldown_delay) {
                let c = choose|j: int| is_first_inactive(s, j, slot, warmup_delay, cooldown_delay);
                assert(!is_inactive(s[c], slot, warmup_delay, cooldown_delay));
            }
        }
        None
    }

    /// Adds `counterparty` with a fresh ticket warming up from `slot`. Only the
    /// owning record's admin may add. A counterparty whose entry is fully
    /// inactive has that entry reinitialized; a new counterparty takes a free
    /// place, or else the lowest fully inactive entry is reclaimed.
    pub fn add(
        &mut self,
        counterparty: &Address,
        signer: &Address,
        admin: &Address,
        slot: u64,
        max_slashable_per_epoch: u64,
        warmup_delay: u64,
        cooldown_delay: u64,
    ) -> (r: Result<(), RestakingError>)
        requires
            old(self).wf(),
        ensures
            final(self).wf(),
            final(self).spec_capacity() == old(self).spec_capacity(),
            (r, final(self).spec_entries()) == add_spec(
                old(self).spec_entries(),
                old(self).spec_capacity(),
                *counterparty,
                signer@,
                admin@,
                slot,
                max_slashable_per_epoch,
                warmup_delay,
                cooldown_delay,
            ),
    {
        if !signer.same_as(admin) {
            return Err(RestakingError::Unauthorized);
        }
        let ghost s = self.entries@;
        let e = Entry {
            counterparty: *counterparty,
            ticket: Ticket::new(slot),
            max_slashable_per_epoch,
        };
        assert(e == fresh_entry(*counterparty, slot, max_slashable_per_epoch));
        match self.find(counterparty) {
            Some(i) => {
                if self.entries[i].ticket.status(slot, warmup_delay, cooldown_delay)
                    == TicketStatus::Inactive {
                    proof {
                        let c = choose|j: int| holds_key(s, j, counterparty@);
                        assert forall|j: int| 0 <= j < s.len() && j != i implies s[j].counterparty@
                            != e.counterparty@ by {
                            if j < i {
                                assert(s[j].counterparty@ != s[i as int].counterparty@);
                            } else {
                                assert(s[i as int].counterparty@ != s[j].counterparty@);
                            }
                        }
                        lemma_update_keeps_unique(s, i as int, e);
                    }
                    self.entries.set(i, e);
                    Ok(())
                } else {
                    Err(RestakingError::DuplicateEntry)
                }
            },
            None => {
                proof {
                    assert forall|j: int| 0 <= j < s.len() implies s[j].counterparty@
                        != e.counterparty@ by {
                        assert(!holds_key(s, j, counterparty@));
                    }
                }
                if self.entries.len() < self.capacity {
                    proof {
                        lemma_push_keeps_unique(s, e);
                    }
                    self.entries.push(e);
                    Ok(())
                } else {
                    match self.first_inactive(slot, warmup_delay, cooldown_delay) {
                        Some(j) => {
                            proof {
                                lemma_update_keeps_unique(s, j as int, e);
                            }
                            self.entries.set(j, e);
                            Ok(())
                        },
                        None => Err(RestakingError::ListFull),
                    }
                }
            },
        }
    }

    /// Removes `counterparty` by starting its ticket's cooldown. The entry
    /// stays until the ticket is fully inactive.
    pub fn remove(
        &mut self,
        counterparty: &Address,
        signer: &Address,
        admin: &Address,
        slot: u64,
        warmup_delay: u64,
        cooldown_delay: u64,
    ) -> (r: Result<(), RestakingError>)
        requires
            old(self).wf(),
        ensures
            final(self).wf(),
            final(self).spec_capacity() == old(self).spec_capacity(),
            (r, final(self).spec_entries()) == remove_spec(
                old(self).spec_entries(),
                counterparty@,
                signer@,
                admin@,
                slot,
                warmup_delay,
                cooldown_delay,
            ),
    {
        if !signer.same_as(admin) {
            return Err(RestakingError::Unauthorized);
        }
        let ghost s = self.entries@;
        match self.find(counterparty) {
            None => Err(RestakingError::TicketNotActive),
            Some(i) => {
                let mut e = self.entries[i];
                match e.ticket.cooldown(signer, admin, slot, warmup_delay, cooldown_delay) {
                    Ok(()) => {
                        proof {
                            assert forall|j: int| 0 <= j < s.len() && j != i implies s[j].counterparty@
                                != e.counterparty@ by {
                                if j < i {
                                    assert(s[j].counterparty@ != s[i as int].counterparty@);
                                } else {
                                    assert(s[i as int].counterparty@ != s[j].counterparty@);
                                }
                            }
                            lemma_update_keeps_unique(s, i as int, e);
                        }
                        self.entries.set(i, e);
                        Ok(())
                    },
                    Err(x) => Err(x),
                }
            },
        }
    }

    /// The status of `counterparty`'s relationship at `slot`: `Inactive` when
    /// it has no entry.
    pub fn status_of(&self, counterparty: &Address, slot: u64, warmup_delay: u64, cooldown_delay: u64) -> (r:
        TicketStatus)
        requires
            self.wf(),
        ensures
            r == entry_status_spec(self.spec_entries(), counterparty@, slot, warmup_delay, cooldown_delay),
    {
        match self.find(counterparty) {
            Some(i) => self.entries[i].ticket.status(slot, warmup_delay, cooldown_delay),
            None => TicketStatus::Inactive,
        }
    }

    /// Re-affirms `counterparty`'s relationship; nothing changes.
    pub fn warmup(
        &self,
        counterparty: &Address,
        signer: &Address,
        admin: &Address,
        slot: u64,
        warmup_delay: u64,
        cooldown_delay: u64,
    ) -> (r: Result<(), RestakingError>)
        requires
            self.wf(),
        ensures
            r == reaffirm_spec(
                self.spec_entries(),
                counterparty@,
                signer@,
                admin@,
                slot,
                warmup_delay,
                cooldown_delay,
            ),
    {
        if !signer.same_as(admin) {
            return Err(RestakingError::Unauthorized);
        }
        match self.find(counterparty) {
            None => Err(RestakingError::TicketNotActive),
            Some(i) => self.entries[i].ticket.warmup(signer, admin, slot, warmup_delay, cooldown_delay),
        }
    }
}

} // verus!

verus! {

/// With unique keys, the entry that holds a key is the one `find_spec` names.
proof fn lemma_find_unique(s: Seq<Entry>, i: int, key: Seq<u8>)
    requires
        keys_unique(s),
        holds_key(s, i, key),
    ensures
        find_spec(s, key) == Some(i),
{
    let c = choose|j: int| holds_key(s, j, key);
    if c < i {
        assert(s[c].counterparty@ != s[i].counterparty@);
    } else if c > i {
        assert(s[i].counterparty@ != s[c].counterparty@);
    }
}

/// If some entry is fully inactive, a lowest such entry exists.
proof fn lemma_first_inactive_exists(
    s: Seq<Entry>,
    i: int,
    slot: u64,
    warmup_delay: u64,
    cooldown_delay: u64,
)
    requires
        0 <= i < s.len(),
        is_inactive(s[i], slot, warmup_delay, cooldown_delay),
    ensures
        exists|j: int| is_first_inactive(s, j, slot, warmup_delay, cooldown_delay),
    decreases i,
{
    if exists|k: int| 0 <= k < i && is_inactive(#[trigger] s[k], slot, warmup_delay, cooldown_delay) {
        let k = choose|k: int| 0 <= k < i && is_inactive(#[trigger] s[k], slot, warmup_delay, cooldown_delay);
        lemma_first_inactive_exists(s, k, slot, warmup_delay, cooldown_delay);
    } else {
        assert(is_first_inactive(s, i, slot, warmup_delay, cooldown_delay));
    }
}

/// A successful add leaves keys unique and the counterparty holding a fresh entry.
proof fn lemma_add_places(
    s: Seq<Entry>,
    capacity: nat,
    counterparty: Address,
    admin: Seq<u8>,
    slot: u64,
    max_slashable_per_epoch: u64,
    warmup_delay: u64,
    cooldown_delay: u64,
)
    requires
        keys_unique(s),
        add_spec(s, capacity, counterparty, admin, admin, slot, max_slashable_per_epoch, warmup_delay, cooldown_delay).0 is Ok,
    ensures
        ({
            let t = add_spec(s, capacity, counterparty, admin, admin, slot, max_slashable_per_epoch, warmup_delay, cooldown_delay).1;
            &&& keys_unique(t)
            &&& exists|i: int| holds_key(t, i, counterparty@) && t[i] == fresh_entry(counterparty, slot, max_slashable_per_epoch)
        }),
{
    let e = fresh_entry(counterparty, slot, max_slashable_per_epoch);
    match find_spec(s, counterparty@) {
        Some(i) => {
            assert forall|j: int| 0 <= j < s.len() && j != i implies s[j].counterparty@ != e.counterparty@ by {
                if j < i {
                    assert(s[j].counterparty@ != s[i].counterparty@);
                } else {
                    assert(s[i].counterparty@ != s[j].counterparty@);
                }
            }
            lemma_update_keeps_unique(s, i, e);
            assert(holds_key(s.update(i, e), i, counterparty@));
        },
        None => {
            assert forall|j: int| 0 <= j < s.len() implies s[j].counterparty@ != e.counterparty@ by {
                assert(!holds_key(s, j, counterparty@));
            }
            if s.len() < capacity {
                lemma_push_keeps_unique(s, e);
                assert(holds_key(s.push(e), s.len() as int, counterparty@));
            } else {
                let j = first_inactive_spec(s, slot, warmup_delay, cooldown_delay)->0;
                lemma_update_keeps_unique(s, j, e);
                assert(holds_key(s.update(j, e), j, counterparty@));
            }
        },
    }
}

/// Adding a counterparty, removing it, and adding it again fails with
/// `DuplicateEntry` while the removed ticket is still cooling down, and once
/// the cooldown delay has elapsed succeeds with a ticket reinitialized to
/// warm up from the slot of the second add.
pub proof fn lemma_add_remove_add(
    s: Seq<Entry>,
    capacity: nat,
    counterparty: Address,
    admin: Seq<u8>,
    added: u64,
    removed: u64,
    again: u64,
    max_slashable_per_epoch: u64,
    warmup_delay: u64,
    cooldown_delay: u64,
)
    requires
        keys_unique(s),
        add_spec(s, capacity, counterparty, admin, admin, added, max_slashable_per_epoch, warmup_delay, cooldown_delay).0 is Ok,
        remove_spec(
            add_spec(s, capacity, counterparty, admin, admin, added, max_slashable_per_epoch, warmup_delay, cooldown_delay).1,
            counterparty@,
            admin,
            admin,
            removed,
            warmup_delay,
            cooldown_delay,
        ).0 is Ok,
    ensures
        ({
            let s1 = add_spec(s, capacity, counterparty, admin, admin, added, max_slashable_per_epoch, warmup_delay, cooldown_delay).1;
            let s2 = remove_spec(s1, counterparty@, admin, admin, removed, warmup_delay, cooldown_delay).1;
            let (r3, s3) = add_spec(s2, capacity, counterparty, admin, admin, again, max_slashable_per_epoch, warmup_delay, cooldown_delay);
            &&& again < removed + cooldown_delay ==> r3 == Err::<(), RestakingError>(RestakingError::DuplicateEntry)
            &&& again >= removed + cooldown_delay ==> {
                &&& r3 is Ok
                &&& find_spec(s3, counterparty@) matches Some(i) && s3[i].ticket == Ticket { slot_added: again, slot_removed: None }
                &&& warmup_delay > 0 ==> entry_status_spec(s3, counterparty@, again, warmup_delay, cooldown_delay) == TicketStatus::WarmingUp
            }
        }),
{
    let s1 = add_spec(s, capacity, counterparty, admin, admin, added, max_slashable_per_epoch, warmup_delay, cooldown_delay).1;
    lemma_add_places(s, capacity, counterparty, admin, added, max_slashable_per_epoch, warmup_delay, cooldown_delay);
    let i = choose|i: int| holds_key(s1, i, counterparty@) && s1[i] == fresh_entry(counterparty, added, max_slashable_per_epoch);
    lemma_find_unique(s1, i, counterparty@);
    let s2 = remove_spec(s1, counterparty@, admin, admin, removed, warmup_delay, cooldown_delay).1;
    let cooled = Entry { ticket: Ticket { slot_added: added, slot_removed: Some(removed) }, ..s1[i] };
    assert(s2 == s1.update(i, cooled));
    assert forall|j: int| 0 <= j < s1.len() && j != i implies s1[j].counterparty@ != cooled.counterparty@ by {
        if j < i {
            assert(s1[j].counterparty@ != s1[i].counterparty@);
        } else {
            assert(s1[i].counterparty@ != s1[j].counterparty@);
        }
    }
    lemma_update_keeps_unique(s1, i, cooled);
    assert(holds_key(s2, i, counterparty@));
    lemma_find_unique(s2, i, counterparty@);
    if again >= removed + cooldown_delay {
        let e = fresh_entry(counterparty, again, max_slashable_per_epoch);
        let s3 = s2.update(i, e);
        assert forall|j: int| 0 <= j < s2.len() && j != i implies s2[j].counterparty@ != e.counterparty@ by {
            if j < i {
                assert(s2[j].counterparty@ != s2[i].counterparty@);
            } else {
                assert(s2[i].counterparty@ != s2[j].counterparty@);
            }
        }
        lemma_update_keeps_unique(s2, i, e);
        assert(holds_key(s3, i, counterparty@));
        lemma_find_unique(s3, i, counterparty@);
    }
}

/// A full list whose entries are none of them fully inactive rejects a new
/// counterparty with `ListFull`; once some entry is fully inactive, the new
/// counterparty takes the lowest such entry's place and the length stays.
pub proof fn lemma_capacity_boundary(
    s: Seq<Entry>,
    capacity: nat,
    counterparty: Address,
    admin: Seq<u8>,
    slot: u64,
    max_slashable_per_epoch: u64,
    warmup_delay: u64,
    cooldown_delay: u64,
)
    requires
        s.len() == capacity,
        find_spec(s, counterparty@) is None,
    ensures
        ({
            let (r, t) = add_spec(s, capacity, counterparty, admin, admin, slot, max_slashable_per_epoch, warmup_delay, cooldown_delay);
            &&& (forall|i: int| 0 <= i < s.len() ==> !is_inactive(#[trigger] s[i], slot, warmup_delay, cooldown_delay))
                ==> r == Err::<(), RestakingError>(RestakingError::ListFull) && t == s
            &&& (exists|i: int| 0 <= i < s.len() && is_inactive(#[trigger] s[i], slot, warmup_delay, cooldown_delay)) ==> {
                &&& r is Ok
                &&& t.len() == capacity
                &&& first_inactive_spec(s, slot, warmup_delay, cooldown_delay) matches Some(j)
                    && t == s.update(j, fresh_entry(counterparty, slot, max_slashable_per_epoch))
            }
        }),
{
    if exists|i: int| 0 <= i < s.len() && is_inactive(#[trigger] s[i], slot, warmup_delay, cooldown_delay) {
        let i = choose|i: int| 0 <= i < s.len() && is_inactive(#[trigger] s[i], slot, warmup_delay, cooldown_delay);
        lemma_first_inactive_exists(s, i, slot, warmup_delay, cooldown_delay);
    } else {
        if exists|j: int| is_first_inactive(s, j, slot, warmup_delay, cooldown_delay) {
            let j = choose|j: int| is_first_inactive(s, j, slot, warmup_delay, cooldown_delay);
            assert(is_inactive(s[j], slot, warmup_delay, cooldown_delay));
        }
    }
}

/// Removing with a signature other than the stored admin's fails with
/// `Unauthorized` and leaves every entry, and so every `slot_removed`, as it was.
pub proof fn lemma_remove_needs_admin(
    s: Seq<Entry>,
    counterparty: Seq<u8>,
    signer: Seq<u8>,
    admin: Seq<u8>,
    slot: u64,
    warmup_delay: u64,
    cooldown_delay: u64,
)
    requires
        signer != admin,
    ensures
        remove_spec(s, counterparty, signer, admin, slot, warmup_delay, cooldown_delay) == (
        Err::<(), RestakingError>(RestakingError::Unauthorized),
        s,
        ),
{
}

} // verus!
