//! The keyring: signing keys indexed by verifying key and by Ethereum address.
use vstd::prelude::*;

use crate::address::{address_of_point, is_uncompressed_point, Address};
use crate::error::Error;
use crate::primitives::bytes_equal;

use crate::service::KeyHandle;
use crate::signing_key::{SigningKey, VerifyingKey};

verus! {

/// One key of the ring, with its verifying key and address worked out once,
/// when it was added.
struct KeyEntry {
    verifying_key: VerifyingKey,
    address: Address,
    signing_key: SigningKey,
}

/// Keys for producing digital signatures.
///
/// Each key is indexed by its verifying key and by the Ethereum address of
/// that verifying key. Both are unique in the ring: a key whose verifying key
/// or whose address is already there is refused. There is no removal.
pub struct Keyring {
    entries: Vec<KeyEntry>,
}

impl Keyring {
    /// The encoded verifying keys, in order of insertion.
    pub closed spec fn points(&self) -> Seq<Seq<u8>> {
        self.entries@.map_values(|e: KeyEntry| e.verifying_key@)
    }

    /// The address of each key, in order of insertion.
    pub closed spec fn addresses(&self) -> Seq<Seq<u8>> {
        self.entries@.map_values(|e: KeyEntry| e.address.hash@)
    }

    /// The signing keys, in order of insertion.
    pub closed spec fn keys(&self) -> Seq<SigningKey> {
        self.entries@.map_values(|e: KeyEntry| e.signing_key)
    }

    /// The ring's invariant: each entry holds an uncompressed point, the
    /// address of that point and a key whose public key it is; no two entries
    /// share a point or an address.
    pub closed spec fn wf(&self) -> bool {
        &&& forall|i: int|
            0 <= i < self.entries@.len() ==> {
                let e = #[trigger] self.entries@[i];
                &&& is_uncompressed_point(e.verifying_key@)
                &&& e.address.hash@ == address_of_point(e.verifying_key@)
                &&& e.signing_key.public_key() == e.verifying_key@
            }
        &&& forall|i: int, j: int|
            0 <= i < self.entries@.len() && 0 <= j < self.entries@.len() && i != j ==> {
                &&& #[trigger] self.entries@[i].verifying_key@ != #[trigger] self.entries@[j].verifying_key@
                &&& self.entries@[i].address.hash@ != self.entries@[j].address.hash@
            }
    }

    /// Does the ring hold a key with this encoded verifying key?
    pub open spec fn contains_key(&self, point: Seq<u8>) -> bool {
        exists|i: int| 0 <= i < self.points().len() && #[trigger] self.points()[i] == point
    }

    /// Does the ring hold a key with this address?
    pub open spec fn contains_address(&self, addr: Seq<u8>) -> bool {
        exists|i: int| 0 <= i < self.addresses().len() && #[trigger] self.addresses()[i] == addr
    }

    /// The key with this address, if any.
    pub open spec fn lookup(&self, addr: Seq<u8>) -> Option<SigningKey> {
        if self.contains_address(addr) {
            let i = choose|i: int| 0 <= i < self.addresses().len() && #[trigger] self.addresses()[i] == addr;
            Some(self.keys()[i])
        } else {
            None
        }
    }

    /// Would `add` accept a key with this public key?
    pub open spec fn can_add(&self, point: Seq<u8>) -> bool {
        &&& is_uncompressed_point(point)
        &&& !self.contains_key(point)
        &&& !self.contains_address(address_of_point(point))
    }

    /// Is this ring `before` with `key` added at the end?
    pub open spec fn extends(&self, before: Self, key: SigningKey) -> bool {
        &&& self.points() == before.points().push(key.public_key())
        &&& self.addresses() == before.addresses().push(address_of_point(key.public_key()))
        &&& self.keys() == before.keys().push(key)
    }

    /// An empty keyring.
    pub fn new() -> (r: Self)
        ensures
            r.wf(),
            r.points().len() == 0,
            r.addresses().len() == 0,
            r.keys().len() == 0,
            forall|addr: Seq<u8>| !r.contains_address(addr),
            forall|point: Seq<u8>| !r.contains_key(point),
    {
        let r = Keyring { entries: Vec::new() };
        assert(r.points() =~= Seq::<Seq<u8>>::empty());
        assert(r.addresses() =~= Seq::<Seq<u8>>::empty());
        assert(r.keys() =~= Seq::<SigningKey>::empty());
        r
    }

    /// The number of keys in the ring.
    pub fn len(&self) -> (r: usize)
        ensures
            r == self.keys().len(),
    {
        self.entries.len()
    }

    /// Adds a key to the ring. Refused where its verifying key is not an
    /// uncompressed point, where the ring already holds that verifying key, or
    /// where it holds another key with the same address; the ring is then
    /// left as it was.
    pub fn add(&mut self, signing_key: SigningKey) -> (r: Result<(), Error>)
        requires
            old(self).wf(),
        ensures
            final(self).wf(),
            r is Ok <==> old(self).can_add(signing_key.public_key()),
            r is Ok ==> final(self).extends(*old(self), signing_key),
            r is Err ==> *final(self) == *old(self),
    {
        let verifying_key = signing_key.verifying_key();
        let address = match Address::from_public_key(verifying_key.as_bytes()) {
            Ok(a) => a,
            Err(e) => return Err(e),
        };
        let ghost point = signing_key.public_key();
        let mut i: usize = 0;
        while i < self.entries.len()
            invariant
                *self == *old(self),
                self.wf(),
                i <= self.entries@.len(),
                verifying_key@ == point,
                point == signing_key.public_key(),
                address.hash@ == address_of_point(point),
                forall|j: int| 0 <= j < i ==> self.points()[j] != point,
                forall|j: int| 0 <= j < i ==> self.addresses()[j] != address_of_point(point),
            decreases self.entries@.len() - i,
        {
            let entry = &self.entries[i];
            if bytes_equal(entry.verifying_key.as_bytes(), verifying_key.as_bytes()) {
                assert(self.points()[i as int] == point);
                assert(self.contains_key(point));
                return Err(Error);
            }
            if bytes_equal(entry.address.hash.as_slice(), address.hash.as_slice()) {
                assert(self.addresses()[i as int] == address_of_point(point));
                assert(self.contains_address(address_of_point(point)));
                return Err(Error);
            }
            i = i + 1;
        }
        let ghost before = *self;
        self.entries.push(KeyEntry { verifying_key, address, signing_key });
        assert(self.points() =~= before.points().push(point));
        assert(self.addresses() =~= before.addresses().push(address_of_point(point)));
        assert(self.keys() =~= before.keys().push(signing_key));
        assert(self.wf()) by {
            assert forall|a: int, b: int|
                0 <= a < self.entries@.len() && 0 <= b < self.entries@.len() && a != b
                implies #[trigger] self.entries@[a].verifying_key@ != #[trigger] self.entries@[b].verifying_key@
                && self.entries@[a].address.hash@ != self.entries@[b].address.hash@ by {
                if a < before.entries@.len() && b < before.entries@.len() {
                    assert(before.entries@[a] == self.entries@[a]);
                    assert(before.entries@[b] == self.entries@[b]);
                } else if a < before.entries@.len() {
                    assert(self.points()[a] != point);
                    assert(self.addresses()[a] != address_of_point(point));
                } else {
                    assert(self.points()[b] != point);
                    assert(self.addresses()[b] != address_of_point(point));
                }
            }
        }
        Ok(())
    }

    /// Finds a key by its Ethereum address; the chain ID is not compared.
    pub fn find_by_eth_address(&self, eth_addr: &Address) -> (r: Result<&SigningKey, Error>)
        requires
            self.wf(),
        ensures
            r is Ok <==> self.contains_address(eth_addr.hash@),
            r matches Ok(k) ==> self.lookup(eth_addr.hash@) == Some(*k),
            r matches Ok(k) ==> address_of_point(k.public_key()) == eth_addr.hash@,
    {
        let mut i: usize = 0;
        while i < self.entries.len()
            invariant
                self.wf(),
                i <= self.entries@.len(),
                forall|j: int| 0 <= j < i ==> self.addresses()[j] != eth_addr.hash@,
            decreases self.entries@.len() - i,
        {
            if bytes_equal(self.entries[i].address.hash.as_slice(), eth_addr.hash.as_slice()) {
                proof {
                    let addr = eth_addr.hash@;
                    assert(self.addresses()[i as int] == addr);
                    let c = choose|c: int| 0 <= c < self.addresses().len() && #[trigger] self.addresses()[c] == addr;
                    if c != i {
                        assert(self.entries@[c].address.hash@ != self.entries@[i as int].address.hash@);
                    }
                }
                return Ok(&self.entries[i].signing_key);
            }
            i = i + 1;
        }
        Err(Error)
    }
}

impl Keyring {
    /// The key that a handle names, if the ring holds it.
    pub open spec fn key_for(&self, key_handle: KeyHandle) -> Option<SigningKey> {
        match key_handle {
            KeyHandle::Ethereum(addr) => self.lookup(addr.hash@),
        }
    }

    /// Finds the key that a handle names: for an Ethereum address, through
    /// the address index.
    pub fn find_by_handle(&self, key_handle: &KeyHandle) -> (r: Result<&SigningKey, Error>)
        requires
            self.wf(),
        ensures
            r is Ok <==> self.key_for(*key_handle) is Some,
            r matches Ok(k) ==> self.key_for(*key_handle) == Some(*k),
            r matches Ok(k) ==> key_handle matches KeyHandle::Ethereum(a) && address_of_point(
                k.public_key(),
            ) == a.hash@,
    {
        match key_handle {
            KeyHandle::Ethereum(eth_addr) => self.find_by_eth_address(eth_addr),
        }
    }
}

/// What the ring's invariant says of its three views: they have the same
/// length; each entry's point is an uncompressed point, the public key of its
/// key, and has the entry's address; no two entries share a point or an
/// address.
pub proof fn lemma_keyring_views(ring: Keyring)
    requires
        ring.wf(),
    ensures
        ring.points().len() == ring.keys().len(),
        ring.addresses().len() == ring.keys().len(),
        forall|i: int|
            0 <= i < ring.keys().len() ==> {
                &&& is_uncompressed_point(#[trigger] ring.points()[i])
                &&& ring.points()[i] == ring.keys()[i].public_key()
                &&& ring.addresses()[i] == address_of_point(ring.points()[i])
            },
        forall|i: int, j: int|
            0 <= i < ring.keys().len() && 0 <= j < ring.keys().len() && i != j ==> {
                &&& #[trigger] ring.points()[i] != #[trigger] ring.points()[j]
                &&& ring.addresses()[i] != ring.addresses()[j]
            },
{
    assert forall|i: int, j: int|
        0 <= i < ring.keys().len() && 0 <= j < ring.keys().len() && i != j implies {
            &&& #[trigger] ring.points()[i] != #[trigger] ring.points()[j]
            &&& ring.addresses()[i] != ring.addresses()[j]
        } by {
        assert(ring.entries@[i].verifying_key@ != ring.entries@[j].verifying_key@);
    }
}

/// A key that was added to a ring is found by the address of its verifying
/// key, through the address index and through any Ethereum handle with that
/// address; and adding it again is refused.
pub proof fn lemma_added_key_is_found(
    before: Keyring,
    after: Keyring,
    key: SigningKey,
)
    requires
        before.wf(),
        after.wf(),
        before.can_add(key.public_key()),
        after.extends(before, key),
    ensures
        after.lookup(address_of_point(key.public_key())) == Some(key),
        forall|a: Address|
            a.hash@ == address_of_point(key.public_key()) ==> #[trigger] after.key_for(
                KeyHandle::Ethereum(a),
            ) == Some(key),
        !after.can_add(key.public_key()),
{
    let point = key.public_key();
    let addr = address_of_point(point);
    let n = before.points().len() as int;
    assert(after.addresses()[n] == addr);
    assert(after.points()[n] == point);
    assert(after.contains_address(addr));
    let c = choose|c: int| 0 <= c < after.addresses().len() && #[trigger] after.addresses()[c] == addr;
    if c != n {
        assert(before.addresses()[c] == addr);
        assert(false);
    }
}

} // verus!
