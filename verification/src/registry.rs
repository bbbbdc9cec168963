//! The registry of connected clients: from a peer's address to the handle on
//! which that peer can be written to and closed.
//!
//! Each registration gets a serial number of its own, so that a connection
//! that ends can take out its own entry and no other: an address may have
//! been registered again in the meantime.

use vstd::prelude::*;

verus! {

/// The network address of a peer: what identifies a connection.
#[derive(Clone, Copy, Debug, PartialEq, Eq, Structural)]
pub enum PeerAddress {
    V4 { host: u32, port: u16 },
    V6 { host6: u128, port: u16, flowinfo: u32, scope_id: u32 },
}

/// Whether no address occurs twice in `entries`.
pub open spec fn distinct_addresses<H>(entries: Seq<(PeerAddress, H)>) -> bool {
    forall|i: int, j: int|
        0 <= i < j < entries.len() ==> (#[trigger] entries[i]).0 != (#[trigger] entries[j]).0
}

/// Whether `entries` holds an entry for `address`.
pub open spec fn has_address<H>(entries: Seq<(PeerAddress, H)>, address: PeerAddress) -> bool {
    exists|i: int| 0 <= i < entries.len() && (#[trigger] entries[i]).0 == address
}

/// A place at which `entries` holds `address`, if there is one.
pub open spec fn position<H>(entries: Seq<(PeerAddress, H)>, address: PeerAddress) -> int {
    choose|i: int| 0 <= i < entries.len() && (#[trigger] entries[i]).0 == address
}

/// The mapping that `entries` stands for.
pub open spec fn as_map<H>(entries: Seq<(PeerAddress, H)>) -> Map<PeerAddress, H> {
    Map::new(
        |address: PeerAddress| has_address(entries, address),
        |address: PeerAddress| entries[position(entries, address)].1,
    )
}

/// `entries` after `handle` was registered for `address`: an entry for the
/// address is overwritten where it stands, a new one goes to the end.
pub open spec fn inserted<H>(
    entries: Seq<(PeerAddress, H)>,
    address: PeerAddress,
    handle: H,
) -> Seq<(PeerAddress, H)> {
    if has_address(entries, address) {
        entries.update(position(entries, address), (address, handle))
    } else {
        entries.push((address, handle))
    }
}

/// `entries` without the entry for `address`; the others keep their order.
pub open spec fn removed<H>(entries: Seq<(PeerAddress, H)>, address: PeerAddress) -> Seq<
    (PeerAddress, H),
> {
    if has_address(entries, address) {
        entries.remove(position(entries, address))
    } else {
        entries
    }
}

/// Where no address occurs twice, each address is found at its own place.
pub proof fn lemma_position_is_unique<H>(entries: Seq<(PeerAddress, H)>, at: int)
    requires
        distinct_addresses(entries),
        0 <= at < entries.len(),
    ensures
        has_address(entries, entries[at].0),
        position(entries, entries[at].0) == at,
        as_map(entries)[entries[at].0] == entries[at].1,
{
    let address = entries[at].0;
    assert(has_address(entries, address));
    let found = position(entries, address);
    assert(0 <= found < entries.len() && entries[found].0 == address);
    if found < at {
        assert(entries[found].0 != entries[at].0);
    } else if at < found {
        assert(entries[at].0 != entries[found].0);
    }
}

/// Registering keeps addresses distinct and acts on the mapping as an
/// insertion that overwrites.
pub proof fn lemma_inserted<H>(entries: Seq<(PeerAddress, H)>, address: PeerAddress, handle: H)
    requires
        distinct_addresses(entries),
    ensures
        distinct_addresses(inserted(entries, address, handle)),
        as_map(inserted(entries, address, handle)) == as_map(entries).insert(address, handle),
        inserted(entries, address, handle).len() == if has_address(entries, address) {
            entries.len()
        } else {
            entries.len() + 1
        },
{
    let after = inserted(entries, address, handle);
    let at = if has_address(entries, address) {
        position(entries, address)
    } else {
        entries.len() as int
    };
    assert(0 <= at < after.len() && after[at] == (address, handle));
    assert forall|i: int| 0 <= i < after.len() && i != at implies after[i] == entries[i]
        && entries[i].0 != address by {
        if has_address(entries, address) {
            lemma_position_is_unique(entries, i);
        }
    }
    assert(distinct_addresses(after)) by {
        assert forall|i: int, j: int| 0 <= i < j < after.len() implies (#[trigger] after[i]).0 != (
        #[trigger] after[j]).0 by {
            if i != at && j != at {
                assert(entries[i].0 != entries[j].0);
            }
        }
    }
    assert forall|other: PeerAddress| #[trigger]
        as_map(after).dom().contains(other) == as_map(entries).insert(
            address,
            handle,
        ).dom().contains(other) by {
        if other == address {
            assert(after[at].0 == other);
        } else if has_address(entries, other) {
            let i = position(entries, other);
            assert(after[i].0 == other);
        } else if has_address(after, other) {
            let i = position(after, other);
            assert(entries[i].0 == other);
        }
    }
    assert forall|other: PeerAddress| #[trigger] as_map(after).dom().contains(other) implies as_map(
        after,
    )[other] == as_map(entries).insert(address, handle)[other] by {
        let i = position(after, other);
        lemma_position_is_unique(after, i);
        if other == address {
            lemma_position_is_unique(after, at);
        } else {
            lemma_position_is_unique(entries, i);
        }
    }
    assert(as_map(after) =~= as_map(entries).insert(address, handle));
}

/// Removing keeps addresses distinct and acts on the mapping as a removal.
pub proof fn lemma_removed<H>(entries: Seq<(PeerAddress, H)>, address: PeerAddress)
    requires
        distinct_addresses(entries),
    ensures
        distinct_addresses(removed(entries, address)),
        as_map(removed(entries, address)) == as_map(entries).remove(address),
{
    let after = removed(entries, address);
    if has_address(entries, address) {
        let at = position(entries, address);
        assert forall|i: int| 0 <= i < after.len() implies #[trigger] after[i] == entries[if i
            < at {
            i
        } else {
            i + 1
        }] && after[i].0 != address by {
            let k = if i < at {
                i
            } else {
                i + 1
            };
            lemma_position_is_unique(entries, k);
        }
        assert(distinct_addresses(after)) by {
            assert forall|i: int, j: int| 0 <= i < j < after.len() implies (#[trigger] after[i]).0
                != (#[trigger] after[j]).0 by {
                let ki = if i < at {
                    i
                } else {
                    i + 1
                };
                let kj = if j < at {
                    j
                } else {
                    j + 1
                };
                assert(entries[ki].0 != entries[kj].0);
            }
        }
        assert forall|other: PeerAddress| #[trigger]
            as_map(after).dom().contains(other) == as_map(entries).remove(
                address,
            ).dom().contains(other) by {
            if other != address && has_address(entries, other) {
                let k = position(entries, other);
                let i = if k < at {
                    k
                } else {
                    k - 1
                };
                assert(after[i].0 == other);
            } else if has_address(after, other) {
                let i = position(after, other);
                let k = if i < at {
                    i
                } else {
                    i + 1
                };
                assert(entries[k].0 == other);
            }
        }
        assert forall|other: PeerAddress| #[trigger]
            as_map(after).dom().contains(other) implies as_map(after)[other] == as_map(
            entries,
        ).remove(address)[other] by {
            let i = position(after, other);
            let k = if i < at {
                i
            } else {
                i + 1
            };
            lemma_position_is_unique(after, i);
            lemma_position_is_unique(entries, k);
        }
        assert(as_map(after) =~= as_map(entries).remove(address));
    } else {
        assert(as_map(entries).remove(address) =~= as_map(entries));
    }
}

/// Where no address occurs twice, the mapping has as many keys as there are
/// entries: one entry for each address, never two.
pub proof fn lemma_one_entry_per_address<H>(entries: Seq<(PeerAddress, H)>)
    requires
        distinct_addresses(entries),
    ensures
        as_map(entries).dom().finite(),
        as_map(entries).dom().len() == entries.len(),
    decreases entries.len(),
{
    if entries.len() == 0 {
        assert(as_map(entries).dom() =~= Set::<PeerAddress>::empty());
    } else {
        let last = entries.last();
        let front = entries.drop_last();
        assert forall|i: int, j: int| 0 <= i < j < front.len() implies (#[trigger] front[i]).0 != (
        #[trigger] front[j]).0 by {
            assert(entries[i].0 != entries[j].0);
        }
        lemma_one_entry_per_address(front);
        assert(!has_address(front, last.0)) by {
            if has_address(front, last.0) {
                let i = position(front, last.0);
                assert(entries[i].0 != entries[entries.len() - 1].0);
            }
        }
        assert(as_map(entries).dom() =~= as_map(front).dom().insert(last.0)) by {
            assert forall|other: PeerAddress| #[trigger]
                as_map(entries).dom().contains(other) == as_map(front).dom().insert(
                    last.0,
                ).contains(other) by {
                if other == last.0 {
                    assert(entries[entries.len() - 1].0 == other);
                } else if has_address(front, other) {
                    let i = position(front, other);
                    assert(entries[i].0 == other);
                } else if has_address(entries, other) {
                    let i = position(entries, other);
                    assert(front[i].0 == other);
                }
            }
        }
    }
}

/// The serial number that follows `issued`: one more, until the numbers run
/// out. The last number is then given again and again.
pub open spec fn next_issue(issued: u64) -> u64 {
    if issued < u64::MAX {
        (issued + 1) as u64
    } else {
        issued
    }
}

/// The serial numbers of `entries`, place by place, after `address` was
/// registered with the number `serial`.
pub open spec fn stamped<H>(
    entries: Seq<(PeerAddress, H)>,
    serials: Seq<u64>,
    address: PeerAddress,
    serial: u64,
) -> Seq<u64> {
    if has_address(entries, address) {
        serials.update(position(entries, address), serial)
    } else {
        serials.push(serial)
    }
}

/// The serial numbers of `entries` after the entry for `address` was taken
/// out.
pub open spec fn unstamped<H>(
    entries: Seq<(PeerAddress, H)>,
    serials: Seq<u64>,
    address: PeerAddress,
) -> Seq<u64> {
    if has_address(entries, address) {
        serials.remove(position(entries, address))
    } else {
        serials
    }
}

/// Whether the entry for `address` is the one that was registered with the
/// number `serial`.
pub open spec fn holds_registration<H>(
    entries: Seq<(PeerAddress, H)>,
    serials: Seq<u64>,
    address: PeerAddress,
    serial: u64,
) -> bool {
    has_address(entries, address) && serials[position(entries, address)] == serial
}

/// A registration is told apart from every earlier one: the entry it makes
/// carries the number that was next, and no number issued before names that
/// entry. The entries of other addresses keep their numbers.
pub proof fn lemma_registration_is_told_apart<H>(
    entries: Seq<(PeerAddress, H)>,
    serials: Seq<u64>,
    issued: u64,
    address: PeerAddress,
    handle: H,
    earlier: u64,
)
    requires
        distinct_addresses(entries),
        serials.len() == entries.len(),
        earlier < issued,
    ensures
        holds_registration(
            inserted(entries, address, handle),
            stamped(entries, serials, address, issued),
            address,
            issued,
        ),
        !holds_registration(
            inserted(entries, address, handle),
            stamped(entries, serials, address, issued),
            address,
            earlier,
        ),
        forall|other: PeerAddress, serial: u64|
            other != address ==> (#[trigger] holds_registration(
                inserted(entries, address, handle),
                stamped(entries, serials, address, issued),
                other,
                serial,
            ) <==> holds_registration(entries, serials, other, serial)),
{
    let after = inserted(entries, address, handle);
    let numbers = stamped(entries, serials, address, issued);
    let at = if has_address(entries, address) {
        position(entries, address)
    } else {
        entries.len() as int
    };
    lemma_inserted(entries, address, handle);
    assert(0 <= at < after.len() && after[at] == (address, handle));
    lemma_position_is_unique(after, at);
    assert(numbers[at] == issued);
    assert forall|other: PeerAddress, serial: u64| other != address implies (
    #[trigger] holds_registration(after, numbers, other, serial) <==> holds_registration(
        entries,
        serials,
        other,
        serial,
    )) by {
        if has_address(entries, other) {
            let i = position(entries, other);
            lemma_position_is_unique(entries, i);
            assert(i != at);
            assert(after[i] == entries[i]);
            lemma_position_is_unique(after, i);
            assert(numbers[i] == serials[i]);
        } else if has_address(after, other) {
            let i = position(after, other);
            assert(i != at);
            assert(entries[i].0 == other);
        }
    }
}

/// When an address is registered a second time, the first registration no
/// longer names the entry: taking the first out leaves the second in place.
pub proof fn lemma_second_registration_stands<H>(
    entries: Seq<(PeerAddress, H)>,
    serials: Seq<u64>,
    issued: u64,
    address: PeerAddress,
    first: H,
    second: H,
)
    requires
        distinct_addresses(entries),
        serials.len() == entries.len(),
        issued < u64::MAX,
    ensures
        ({
            let once = inserted(entries, address, first);
            let once_numbers = stamped(entries, serials, address, issued);
            let twice = inserted(once, address, second);
            let twice_numbers = stamped(once, once_numbers, address, next_issue(issued));
            &&& !holds_registration(twice, twice_numbers, address, issued)
            &&& holds_registration(twice, twice_numbers, address, next_issue(issued))
            &&& as_map(twice).contains_key(address)
            &&& as_map(twice)[address] == second
        }),
{
    let once = inserted(entries, address, first);
    let once_numbers = stamped(entries, serials, address, issued);
    lemma_inserted(entries, address, first);
    lemma_inserted(once, address, second);
    lemma_registration_is_told_apart(
        once,
        once_numbers,
        next_issue(issued),
        address,
        second,
        issued,
    );
}

/// The clients that are connected, each under its peer's address.
///
/// `H` is the handle on which a client is written to and closed. No address
/// ever has two entries. The registry keeps the handles in the order in which
/// their addresses were first registered, and with each the serial number of
/// the registration that put it there.
#[derive(Debug)]
pub struct ClientRegistry<H> {
    entries: Vec<(PeerAddress, H)>,
    serials: Vec<u64>,
    issued: u64,
}

impl<H> View for ClientRegistry<H> {
    type V = Map<PeerAddress, H>;

    open spec fn view(&self) -> Map<PeerAddress, H> {
        as_map(self.entries())
    }
}

impl<H> ClientRegistry<H> {
    #[verifier::type_invariant]
    spec fn one_entry_per_address(self) -> bool {
        distinct_addresses(self.entries@) && self.serials@.len() == self.entries@.len()
    }

    /// The entries, in the order in which their addresses were registered.
    pub closed spec fn entries(&self) -> Seq<(PeerAddress, H)> {
        self.entries@
    }

    /// The serial numbers of the entries, place by place.
    pub closed spec fn serials(&self) -> Seq<u64> {
        self.serials@
    }

    /// The serial number that the next registration gets. It never goes
    /// down.
    pub closed spec fn issued(&self) -> u64 {
        self.issued
    }

    /// What holds of every registry: no address has two entries, and every
    /// entry has its serial number.
    pub open spec fn wf(&self) -> bool {
        distinct_addresses(self.entries()) && self.serials().len() == self.entries().len()
    }

    /// An empty registry.
    pub fn new() -> (registry: ClientRegistry<H>)
        ensures
            registry.wf(),
            registry.entries() == Seq::<(PeerAddress, H)>::empty(),
            registry.serials() == Seq::<u64>::empty(),
            registry.issued() == 0,
            registry@ == Map::<PeerAddress, H>::empty(),
    {
        let registry = ClientRegistry { entries: Vec::new(), serials: Vec::new(), issued: 0 };
        assert(as_map(registry.entries()) =~= Map::<PeerAddress, H>::empty());
        registry
    }

    /// The number of registered clients, which is the number of addresses
    /// that have an entry.
    pub fn len(&self) -> (n: usize)
        ensures
            self.wf(),
            n == self.entries().len(),
            n == self@.dom().len(),
    {
        proof {
            use_type_invariant(self);
            lemma_one_entry_per_address(self.entries());
        }
        self.entries.len()
    }

    /// The serial number that the next registration gets.
    pub fn next_serial(&self) -> (serial: u64)
        ensures
            serial == self.issued(),
    {
        self.issued
    }

    fn find(&self, address: &PeerAddress) -> (found: Option<usize>)
        ensures
            self.wf(),
            match found {
                Some(at) => at < self.entries().len() && self.entries()[at as int].0 == *address
                    && has_address(self.entries(), *address) && position(
                    self.entries(),
                    *address,
                ) == at,
                None => !has_address(self.entries(), *address),
            },
    {
        proof {
            use_type_invariant(self);
        }
        let mut at: usize = 0;
        while at < self.entries.len()
            invariant
                self.wf(),
                at <= self.entries@.len(),
                forall|i: int| 0 <= i < at ==> (#[trigger] self.entries@[i]).0 != *address,
            decreases self.entries@.len() - at,
        {
            if self.entries[at].0 == *address {
                proof {
                    lemma_position_is_unique(self.entries(), at as int);
                }
                return Some(at);
            }
            at += 1;
        }
        None
    }

    /// Tells whether a client is registered under `address`.
    pub fn contains(&self, address: &PeerAddress) -> (r: bool)
        ensures
            self.wf(),
            r == self@.contains_key(*address),
    {
        self.find(address).is_some()
    }

    /// The handle registered under `address`, if there is one.
    pub fn get(&self, address: &PeerAddress) -> (handle: Option<&H>)
        ensures
            self.wf(),
            match handle {
                Some(found) => self@.contains_key(*address) && *found == self@[*address],
                None => !self@.contains_key(*address),
            },
    {
        match self.find(address) {
            Some(at) => {
                proof {
                    lemma_position_is_unique(self.entries(), at as int);
                }
                Some(&self.entries[at].1)
            },
            None => None,
        }
    }

    /// The address of the entry at `index`, counting from zero in the order of
    /// registration; `None` past the last entry.
    pub fn address_at(&self, index: usize) -> (address: Option<PeerAddress>)
        ensures
            self.wf(),
            address == (if index < self.entries().len() {
                Some(self.entries()[index as int].0)
            } else {
                None
            }),
    {
        proof {
            use_type_invariant(self);
        }
        if index < self.entries.len() {
            Some(self.entries[index].0)
        } else {
            None
        }
    }

    /// The handle of the entry at `index`; `None` past the last entry.
    pub fn handle_at(&self, index: usize) -> (handle: Option<&H>)
        ensures
            self.wf(),
            match handle {
                Some(found) => index < self.entries().len() && *found == self.entries()[index as int].1,
                None => index >= self.entries().len(),
            },
    {
        proof {
            use_type_invariant(self);
        }
        if index < self.entries.len() {
            Some(&self.entries[index].1)
        } else {
            None
        }
    }

    /// Registers `handle` under `address`, with the serial number that is
    /// next. A handle already registered under that address is replaced and
    /// handed back: an address never has two.
    pub fn insert(&mut self, address: PeerAddress, handle: H) -> (replaced: Option<H>)
        ensures
            old(self).wf(),
            final(self).wf(),
            final(self).entries() == inserted(old(self).entries(), address, handle),
            final(self).serials() == stamped(
                old(self).entries(),
                old(self).serials(),
                address,
                old(self).issued(),
            ),
            final(self).issued() == next_issue(old(self).issued()),
            final(self)@ == old(self)@.insert(address, handle),
            replaced == (if old(self)@.contains_key(address) {
                Some(old(self)@[address])
            } else {
                None
            }),
    {
        proof {
            use_type_invariant(&*self);
            lemma_inserted(self.entries(), address, handle);
        }
        let found = self.find(&address);
        let (mut entries, mut serials, issued) = self.take_parts();
        let replaced = match found {
            Some(at) => {
                let mut entry = (address, handle);
                entries.set_and_swap(at, &mut entry);
                serials.set(at, issued);
                Some(entry.1)
            },
            None => {
                entries.push((address, handle));
                serials.push(issued);
                None
            },
        };
        let following = if issued < u64::MAX {
            issued + 1
        } else {
            issued
        };
        *self = ClientRegistry { entries, serials, issued: following };
        replaced
    }

    /// Takes the entry for `address` out, whichever registration put it
    /// there, and hands its handle back.
    pub fn remove(&mut self, address: &PeerAddress) -> (taken: Option<H>)
        ensures
            old(self).wf(),
            final(self).wf(),
            final(self).entries() == removed(old(self).entries(), *address),
            final(self).serials() == unstamped(
                old(self).entries(),
                old(self).serials(),
                *address,
            ),
            final(self).issued() == old(self).issued(),
            final(self)@ == old(self)@.remove(*address),
            taken == (if old(self)@.contains_key(*address) {
                Some(old(self)@[*address])
            } else {
                None
            }),
    {
        proof {
            use_type_invariant(&*self);
            lemma_removed(self.entries(), *address);
        }
        let found = self.find(address);
        let (mut entries, mut serials, issued) = self.take_parts();
        let taken = match found {
            Some(at) => {
                let entry = entries.remove(at);
                let _ = serials.remove(at);
                Some(entry.1)
            },
            None => None,
        };
        *self = ClientRegistry { entries, serials, issued };
        taken
    }

    /// Takes the entry for `address` out if it is still the one that was
    /// registered with the number `serial`, and hands its handle back. An
    /// entry that a later registration put under the address stays.
    pub fn withdraw(&mut self, address: &PeerAddress, serial: u64) -> (taken: Option<H>)
        ensures
            old(self).wf(),
            final(self).wf(),
            final(self).issued() == old(self).issued(),
            if holds_registration(old(self).entries(), old(self).serials(), *address, serial) {
                &&& final(self).entries() == removed(old(self).entries(), *address)
                &&& final(self).serials() == unstamped(
                    old(self).entries(),
                    old(self).serials(),
                    *address,
                )
                &&& final(self)@ == old(self)@.remove(*address)
                &&& taken == Some(old(self)@[*address])
            } else {
                &&& final(self).entries() == old(self).entries()
                &&& final(self).serials() == old(self).serials()
                &&& final(self)@ == old(self)@
                &&& taken is None
            },
    {
        proof {
            use_type_invariant(&*self);
        }
        match self.find(address) {
            Some(at) => {
                if self.serials[at] == serial {
                    self.remove(address)
                } else {
                    None
                }
            },
            None => None,
        }
    }

    /// Moves the parts out and leaves the registry empty.
    fn take_parts(&mut self) -> (parts: (Vec<(PeerAddress, H)>, Vec<u64>, u64))
        ensures
            parts.0@ == old(self).entries(),
            parts.1@ == old(self).serials(),
            parts.2 == old(self).issued(),
            distinct_addresses(parts.0@),
            parts.1@.len() == parts.0@.len(),
    {
        proof {
            use_type_invariant(&*self);
        }
        let mut emptied = ClientRegistry { entries: Vec::new(), serials: Vec::new(), issued: 0 };
        core::mem::swap(self, &mut emptied);
        (emptied.entries, emptied.serials, emptied.issued)
    }
}

} // verus!
