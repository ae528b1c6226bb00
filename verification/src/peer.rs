//! The peer directory: for each peer identifier its identity binding (an
//! instance uuid and a public key) and the address it was last seen at.

use vstd::prelude::*;
use crate::keyed::{viewed, KeyedList};
use crate::text::bytes_eq;

verus! {

/// A socket address: the textual form of an IP address, and a port.
#[derive(Debug, PartialEq, Eq)]
pub struct SocketAddress {
    pub ip: String,
    pub port: u16,
}

/// What a `SocketAddress` holds.
pub ghost struct AddressView {
    pub ip: Seq<char>,
    pub port: u16,
}

impl View for SocketAddress {
    type V = AddressView;

    open spec fn view(&self) -> AddressView {
        AddressView { ip: self.ip@, port: self.port }
    }
}

impl Clone for SocketAddress {
    fn clone(&self) -> (r: Self)
        ensures
            r@ == self@,
    {
        SocketAddress { ip: self.ip.clone(), port: self.port }
    }
}

impl SocketAddress {
    /// Whether two addresses name the same IP address and port.
    pub fn same(&self, other: &SocketAddress) -> (r: bool)
        ensures
            r == (self@ == other@),
    {
        self.ip == other.ip && self.port == other.port
    }
}

/// One entry of the directory. An entry that was made for an identifier
/// before any registration bound it is a placeholder: `bound` is false and
/// its uuid and key are empty.
#[derive(Debug, PartialEq, Eq)]
pub struct Peer {
    pub id: String,
    pub uuid: Vec<u8>,
    pub public_key: Vec<u8>,
    pub address: SocketAddress,
    pub last_seen: u64,
    pub bound: bool,
}

/// What a `Peer` holds.
pub ghost struct PeerView {
    pub id: Seq<char>,
    pub uuid: Seq<u8>,
    pub public_key: Seq<u8>,
    pub address: AddressView,
    pub last_seen: u64,
    pub bound: bool,
}

impl View for Peer {
    type V = PeerView;

    open spec fn view(&self) -> PeerView {
        PeerView {
            id: self.id@,
            uuid: self.uuid@,
            public_key: self.public_key@,
            address: self.address@,
            last_seen: self.last_seen,
            bound: self.bound,
        }
    }
}

impl Clone for Peer {
    fn clone(&self) -> (r: Self)
        ensures
            r@ == self@,
    {
        Peer {
            id: self.id.clone(),
            uuid: self.uuid.clone(),
            public_key: self.public_key.clone(),
            address: self.address.clone(),
            last_seen: self.last_seen,
            bound: self.bound,
        }
    }
}

/// The empty entry that stands for `id` until a registration binds it.
pub open spec fn placeholder(id: Seq<char>) -> PeerView {
    PeerView {
        id,
        uuid: Seq::empty(),
        public_key: Seq::empty(),
        address: AddressView { ip: Seq::empty(), port: 0 },
        last_seen: 0,
        bound: false,
    }
}

/// The entry that a registration accepted at time `now` leaves behind.
pub open spec fn bound_peer(
    id: Seq<char>,
    uuid: Seq<u8>,
    public_key: Seq<u8>,
    address: AddressView,
    now: u64,
) -> PeerView {
    PeerView { id, uuid, public_key, address, last_seen: now, bound: true }
}

/// What a lookup hands out for punch-hole resolution.
#[derive(Debug, PartialEq, Eq)]
pub struct PeerSnapshot {
    pub address: SocketAddress,
    pub uuid: Vec<u8>,
}

/// What a `PeerSnapshot` holds.
pub ghost struct SnapshotView {
    pub address: AddressView,
    pub uuid: Seq<u8>,
}

impl View for PeerSnapshot {
    type V = SnapshotView;

    open spec fn view(&self) -> SnapshotView {
        SnapshotView { address: self.address@, uuid: self.uuid@ }
    }
}

/// The result of a registration attempt.
#[derive(Debug, Clone, Copy, PartialEq, Eq, Structural)]
pub enum BindOutcome {
    /// The registration stands. `changed` is false where the entry already
    /// held exactly this uuid, key and address, and true where the caller has
    /// an update to persist.
    Accepted { changed: bool },
    /// The registration contradicts the identity bound to the identifier.
    IdentityMismatch,
}

/// The entry stored under `id`, if there is one.
pub open spec fn stored(dir: Map<Seq<char>, PeerView>, id: Seq<char>) -> Option<PeerView> {
    if dir.dom().contains(id) {
        Some(dir[id])
    } else {
        None
    }
}

/// The identity rule. An identifier that is not bound yet takes any
/// registration. A bound one rejects another uuid, and rejects the same uuid
/// where both the address and the key differ from the stored ones; what is
/// left is accepted, and has changed the entry unless key and address are the
/// stored ones.
pub open spec fn bind_outcome(
    entry: Option<PeerView>,
    uuid: Seq<u8>,
    public_key: Seq<u8>,
    address: AddressView,
) -> BindOutcome {
    match entry {
        None => BindOutcome::Accepted { changed: true },
        Some(p) => if !p.bound {
            BindOutcome::Accepted { changed: true }
        } else if p.uuid != uuid {
            BindOutcome::IdentityMismatch
        } else if p.address != address && p.public_key != public_key {
            BindOutcome::IdentityMismatch
        } else {
            BindOutcome::Accepted { changed: p.address != address || p.public_key != public_key }
        },
    }
}

/// The directory that a registration attempt leaves behind.
pub open spec fn after_bind(
    dir: Map<Seq<char>, PeerView>,
    id: Seq<char>,
    uuid: Seq<u8>,
    public_key: Seq<u8>,
    address: AddressView,
    now: u64,
) -> Map<Seq<char>, PeerView> {
    if bind_outcome(stored(dir, id), uuid, public_key, address) == (BindOutcome::Accepted {
        changed: true,
    }) {
        dir.insert(id, bound_peer(id, uuid, public_key, address, now))
    } else {
        dir
    }
}

/// What a lookup of `id` returns.
pub open spec fn snapshot_of(dir: Map<Seq<char>, PeerView>, id: Seq<char>) -> Option<SnapshotView> {
    if dir.dom().contains(id) && dir[id].bound {
        Some(SnapshotView { address: dir[id].address, uuid: dir[id].uuid })
    } else {
        None
    }
}

/// The directory of peers, keyed by identifier. No identifier occurs twice
/// (`wf`), and entries are never removed, so a handle stays valid.
pub struct PeerDirectory {
    entries: KeyedList<Peer>,
}

impl View for PeerDirectory {
    type V = Map<Seq<char>, PeerView>;

    closed spec fn view(&self) -> Map<Seq<char>, PeerView> {
        viewed(self.entries@)
    }
}

impl PeerDirectory {
    /// No identifier occurs twice, and every entry names the identifier
    /// that it is stored under.
    pub closed spec fn wf(&self) -> bool {
        &&& self.entries.wf()
        &&& forall|id: Seq<char>| #[trigger]
            self.entries@.dom().contains(id) ==> self.entries@[id].id@ == id
    }

    /// Every entry is stored under the identifier that it names, and every
    /// handle stands for an entry.
    pub proof fn lemma_keys(&self)
        requires
            self.wf(),
        ensures
            forall|id: Seq<char>| #[trigger] self@.dom().contains(id) ==> self@[id].id == id,
            forall|h: int|
                0 <= h < self.spec_len() ==> self@.dom().contains(#[trigger] self.id_at(h)),
    {
        self.entries.lemma_places();
    }

    /// The number of entries, placeholders included.
    pub closed spec fn spec_len(&self) -> nat {
        self.entries.key_seq().len()
    }

    /// The identifier of the entry that a handle stands for.
    pub closed spec fn id_at(&self, handle: int) -> Seq<char> {
        self.entries.key_seq()[handle]
    }

    /// An empty directory.
    pub fn new() -> (dir: Self)
        ensures
            dir.wf(),
            dir@ == Map::<Seq<char>, PeerView>::empty(),
            dir.spec_len() == 0,
    {
        let dir = PeerDirectory { entries: KeyedList::new() };
        assert(dir@ =~= Map::<Seq<char>, PeerView>::empty());
        dir
    }

    /// The number of entries, placeholders included.
    pub fn len(&self) -> (n: usize)
        requires
            self.wf(),
        ensures
            n == self.spec_len(),
    {
        self.entries.len()
    }

    /// Whether the directory holds an entry for `id`, bound or not.
    pub fn contains(&self, id: &str) -> (r: bool)
        requires
            self.wf(),
        ensures
            r == self@.dom().contains(id@),
    {
        self.entries.contains_key(id)
    }

    /// The handle of the entry for `id`. Where there is none yet, an empty
    /// placeholder is added first. The identity rule is not applied here.
    pub fn get_or_create(&mut self, id: &str) -> (handle: usize)
        requires
            old(self).wf(),
        ensures
            final(self).wf(),
            handle < final(self).spec_len(),
            final(self).id_at(handle as int) == id@,
            old(self)@.dom().contains(id@) ==> final(self)@ == old(self)@ && final(self).spec_len()
                == old(self).spec_len(),
            !old(self)@.dom().contains(id@) ==> final(self)@ == old(self)@.insert(
                id@,
                placeholder(id@),
            ) && final(self).spec_len() == old(self).spec_len() + 1,
            forall|h: int|
                0 <= h < old(self).spec_len() ==> final(self).id_at(h) == old(self).id_at(h),
    {
        match self.entries.position(id) {
            Some(i) => i,
            None => {
                let p = Peer {
                    id: id.to_owned(),
                    uuid: Vec::new(),
                    public_key: Vec::new(),
                    address: SocketAddress { ip: String::new(), port: 0 },
                    last_seen: 0,
                    bound: false,
                };
                assert(p@ == placeholder(id@));
                self.entries.put(id.to_owned(), p);
                assert(self@ =~= old(self)@.insert(id@, placeholder(id@)));
                self.entries.len() - 1
            },
        }
    }

    /// The entry that a handle stands for.
    pub fn peer_at(&self, handle: usize) -> (p: &Peer)
        requires
            self.wf(),
            handle < self.spec_len(),
        ensures
            p@.id == self.id_at(handle as int),
            self@.dom().contains(p@.id),
            self@[p@.id] == p@,
    {
        proof {
            self.entries.lemma_places();
        }
        self.entries.value_at(handle)
    }

    /// Applies the identity rule to a registration of `id` from `address`
    /// with the given uuid and key. An accepted registration that changes
    /// anything replaces the entry and stamps it with `now`; a mismatch and
    /// an unchanged re-registration leave the directory as it was.
    pub fn try_bind(
        &mut self,
        id: String,
        uuid: Vec<u8>,
        public_key: Vec<u8>,
        address: SocketAddress,
        now: u64,
    ) -> (out: BindOutcome)
        requires
            old(self).wf(),
        ensures
            final(self).wf(),
            out == bind_outcome(stored(old(self)@, id@), uuid@, public_key@, address@),
            final(self)@ == after_bind(old(self)@, id@, uuid@, public_key@, address@, now),
            out != (BindOutcome::Accepted { changed: true }) ==> final(self)@ == old(self)@,
            forall|h: int|
                0 <= h < old(self).spec_len() ==> h < final(self).spec_len() && final(self).id_at(h)
                    == old(self).id_at(h),
    {
        let found = self.entries.position(id.as_str());
        if let Some(i) = found {
            let cur = self.entries.value_at(i);
            if cur.bound {
                if !bytes_eq(cur.uuid.as_slice(), uuid.as_slice()) {
                    return BindOutcome::IdentityMismatch;
                }
                let address_differs = !cur.address.same(&address);
                let key_differs = !bytes_eq(cur.public_key.as_slice(), public_key.as_slice());
                if address_differs && key_differs {
                    return BindOutcome::IdentityMismatch;
                }
                if !address_differs && !key_differs {
                    return BindOutcome::Accepted { changed: false };
                }
            }
        }
        let p = Peer { id: id.clone(), uuid, public_key, address, last_seen: now, bound: true };
        self.entries.put(id, p);
        assert(self@ =~= old(self)@.insert(id@, p@));
        BindOutcome::Accepted { changed: true }
    }

    /// The address and uuid of the peer bound to `id`. A placeholder is no
    /// peer yet.
    pub fn lookup(&self, id: &str) -> (r: Option<PeerSnapshot>)
        requires
            self.wf(),
        ensures
            match r {
                Some(s) => snapshot_of(self@, id@) == Some(s@),
                None => snapshot_of(self@, id@) is None,
            },
    {
        match self.entries.get(id) {
            None => None,
            Some(p) => {
                if p.bound {
                    Some(PeerSnapshot { address: p.address.clone(), uuid: p.uuid.clone() })
                } else {
                    None
                }
            },
        }
    }

    /// Takes in an entry that was read back from storage. An identifier that
    /// the directory already holds keeps the entry it has.
    pub fn restore(&mut self, peer: Peer)
        requires
            old(self).wf(),
        ensures
            final(self).wf(),
            final(self)@ == restored(old(self)@, peer@),
            forall|h: int|
                0 <= h < old(self).spec_len() ==> h < final(self).spec_len() && final(self).id_at(h)
                    == old(self).id_at(h),
    {
        if !self.entries.contains_key(peer.id.as_str()) {
            self.entries.put(peer.id.clone(), peer);
            assert(self@ =~= old(self)@.insert(peer.id@, peer@));
        }
    }

    /// Records that `id` was seen at `address` at time `now`. An identifier
    /// without an entry gets a placeholder that carries the address; the
    /// identity binding of an existing entry is left alone.
    pub fn record_address(&mut self, id: &str, address: SocketAddress, now: u64)
        requires
            old(self).wf(),
        ensures
            final(self).wf(),
            final(self)@ == old(self)@.insert(
                id@,
                seen_at(stored(old(self)@, id@), id@, address@, now),
            ),
            forall|h: int|
                0 <= h < old(self).spec_len() ==> h < final(self).spec_len() && final(self).id_at(h)
                    == old(self).id_at(h),
    {
        let p = match self.entries.get(id) {
            None => Peer {
                id: id.to_owned(),
                uuid: Vec::new(),
                public_key: Vec::new(),
                address,
                last_seen: now,
                bound: false,
            },
            Some(cur) => Peer {
                id: cur.id.clone(),
                uuid: cur.uuid.clone(),
                public_key: cur.public_key.clone(),
                address,
                last_seen: now,
                bound: cur.bound,
            },
        };
        self.entries.put(id.to_owned(), p);
        assert(self@ =~= old(self)@.insert(id@, p@));
    }
}

/// The entry for `id` once it was seen at `address` at time `now`.
pub open spec fn seen_at(
    entry: Option<PeerView>,
    id: Seq<char>,
    address: AddressView,
    now: u64,
) -> PeerView {
    match entry {
        Some(p) => PeerView { address, last_seen: now, ..p },
        None => PeerView { address, last_seen: now, ..placeholder(id) },
    }
}

/// The directory after an entry was read back from storage.
pub open spec fn restored(dir: Map<Seq<char>, PeerView>, peer: PeerView) -> Map<
    Seq<char>,
    PeerView,
> {
    if dir.dom().contains(peer.id) {
        dir
    } else {
        dir.insert(peer.id, peer)
    }
}

/// Registering the same identifier, uuid, key and address a second time is
/// accepted as unchanged and leaves the directory as the first registration
/// left it.
pub proof fn lemma_reregistration_is_idempotent(
    dir: Map<Seq<char>, PeerView>,
    id: Seq<char>,
    uuid: Seq<u8>,
    public_key: Seq<u8>,
    address: AddressView,
    first: u64,
    second: u64,
)
    requires
        bind_outcome(stored(dir, id), uuid, public_key, address) is Accepted,
    ensures
        bind_outcome(
            stored(after_bind(dir, id, uuid, public_key, address, first), id),
            uuid,
            public_key,
            address,
        ) == (BindOutcome::Accepted { changed: false }),
        after_bind(
            after_bind(dir, id, uuid, public_key, address, first),
            id,
            uuid,
            public_key,
            address,
            second,
        ) == after_bind(dir, id, uuid, public_key, address, first),
{
}

/// For a bound identifier: the same uuid and key from another address is
/// accepted as a change (the peer roams); the same uuid with another key
/// from another address is a mismatch; another uuid is always a mismatch.
pub proof fn lemma_roaming_not_impersonation(
    dir: Map<Seq<char>, PeerView>,
    id: Seq<char>,
    uuid: Seq<u8>,
    public_key: Seq<u8>,
    address: AddressView,
)
    requires
        dir.dom().contains(id),
        dir[id].bound,
    ensures
        uuid == dir[id].uuid && public_key == dir[id].public_key && address != dir[id].address
            ==> bind_outcome(stored(dir, id), uuid, public_key, address) == (BindOutcome::Accepted {
            changed: true,
        }),
        uuid == dir[id].uuid && public_key != dir[id].public_key && address != dir[id].address
            ==> bind_outcome(stored(dir, id), uuid, public_key, address)
            == BindOutcome::IdentityMismatch,
        uuid != dir[id].uuid ==> bind_outcome(stored(dir, id), uuid, public_key, address)
            == BindOutcome::IdentityMismatch,
{
}

} // verus!
