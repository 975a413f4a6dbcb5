//! What the ledger hands to a component, as plain values: addresses,
//! identity tokens, and what a verified proof of ownership attests.
//!
//! The ledger itself (storage, minting, the checking of signatures) is not
//! here. A caller that talks to the ledger reads these values from it and
//! passes them in; nothing in this crate takes an identity on a caller's
//! word alone, only out of an `OwnershipProof`.

use vstd::prelude::*;

verus! {

/// Compares two 32-byte keys byte by byte.
pub fn same_key(a: &[u8; 32], b: &[u8; 32]) -> (same: bool)
    ensures
        same == (a@ == b@),
{
    let mut i: usize = 0;
    while i < 32
        invariant
            i <= 32,
            forall|j: int| 0 <= j < i ==> a@[j] == b@[j],
        decreases 32 - i,
    {
        if a[i] != b[i] {
            return false;
        }
        i += 1;
    }
    assert(a@ =~= b@);
    true
}

/// The address of a kind of token.
#[derive(Debug, Clone, Copy)]
pub struct ResourceAddress {
    pub key: [u8; 32],
}

impl View for ResourceAddress {
    type V = Seq<u8>;

    open spec fn view(&self) -> Seq<u8> {
        self.key@
    }
}

impl PartialEq for ResourceAddress {
    fn eq(&self, other: &ResourceAddress) -> (same: bool) {
        same_key(&self.key, &other.key)
    }
}

impl Eq for ResourceAddress {

}

impl vstd::std_specs::cmp::PartialEqSpecImpl for ResourceAddress {
    open spec fn obeys_eq_spec() -> bool {
        true
    }

    open spec fn eq_spec(&self, other: &ResourceAddress) -> bool {
        self@ == other@
    }
}

/// The address of a component that lives on the ledger, such as one game.
#[derive(Debug, Clone, Copy)]
pub struct ComponentAddress {
    pub key: [u8; 32],
}

impl View for ComponentAddress {
    type V = Seq<u8>;

    open spec fn view(&self) -> Seq<u8> {
        self.key@
    }
}

impl PartialEq for ComponentAddress {
    fn eq(&self, other: &ComponentAddress) -> (same: bool) {
        same_key(&self.key, &other.key)
    }
}

impl Eq for ComponentAddress {

}

impl vstd::std_specs::cmp::PartialEqSpecImpl for ComponentAddress {
    open spec fn obeys_eq_spec() -> bool {
        true
    }

    open spec fn eq_spec(&self, other: &ComponentAddress) -> bool {
        self@ == other@
    }
}

/// The address of the code from which components are made.
#[derive(Debug, Clone, Copy)]
pub struct TemplateAddress {
    pub hash: [u8; 32],
}

impl View for TemplateAddress {
    type V = Seq<u8>;

    open spec fn view(&self) -> Seq<u8> {
        self.hash@
    }
}

impl PartialEq for TemplateAddress {
    fn eq(&self, other: &TemplateAddress) -> (same: bool) {
        same_key(&self.hash, &other.hash)
    }
}

impl Eq for TemplateAddress {

}

impl vstd::std_specs::cmp::PartialEqSpecImpl for TemplateAddress {
    open spec fn obeys_eq_spec() -> bool {
        true
    }

    open spec fn eq_spec(&self, other: &TemplateAddress) -> bool {
        self@ == other@
    }
}

/// The identifier of one token of a non-fungible resource. Two identifiers
/// name the same token when they are of the same form and hold the same
/// value.
#[derive(Debug)]
pub enum NonFungibleId {
    U256([u8; 32]),
    String(String),
    Uint32(u32),
    Uint64(u64),
}

/// What an identifier holds.
pub enum Identity {
    U256(Seq<u8>),
    Text(Seq<char>),
    Uint32(u32),
    Uint64(u64),
}

impl View for NonFungibleId {
    type V = Identity;

    open spec fn view(&self) -> Identity {
        match self {
            NonFungibleId::U256(bytes) => Identity::U256(bytes@),
            NonFungibleId::String(text) => Identity::Text(text@),
            NonFungibleId::Uint32(number) => Identity::Uint32(*number),
            NonFungibleId::Uint64(number) => Identity::Uint64(*number),
        }
    }
}

impl PartialEq for NonFungibleId {
    fn eq(&self, other: &NonFungibleId) -> (same: bool) {
        match (self, other) {
            (NonFungibleId::U256(a), NonFungibleId::U256(b)) => same_key(a, b),
            (NonFungibleId::String(a), NonFungibleId::String(b)) => *a == *b,
            (NonFungibleId::Uint32(a), NonFungibleId::Uint32(b)) => *a == *b,
            (NonFungibleId::Uint64(a), NonFungibleId::Uint64(b)) => *a == *b,
            _ => false,
        }
    }
}

impl Eq for NonFungibleId {

}

impl vstd::std_specs::cmp::PartialEqSpecImpl for NonFungibleId {
    open spec fn obeys_eq_spec() -> bool {
        true
    }

    open spec fn eq_spec(&self, other: &NonFungibleId) -> bool {
        self@ == other@
    }
}

impl Clone for NonFungibleId {
    fn clone(&self) -> (copy: NonFungibleId)
        ensures
            copy@ == self@,
    {
        match self {
            NonFungibleId::U256(bytes) => NonFungibleId::U256(*bytes),
            NonFungibleId::String(text) => NonFungibleId::String(text.clone()),
            NonFungibleId::Uint32(number) => NonFungibleId::Uint32(*number),
            NonFungibleId::Uint64(number) => NonFungibleId::Uint64(*number),
        }
    }
}

/// One token: its resource and its identifier within that resource.
#[derive(Debug)]
pub struct NonFungibleAddress {
    pub resource: ResourceAddress,
    pub id: NonFungibleId,
}

impl NonFungibleAddress {
    /// Names the token `id` of `resource`.
    pub fn new(resource: ResourceAddress, id: NonFungibleId) -> (address: NonFungibleAddress)
        ensures
            address.resource == resource,
            address.id == id,
    {
        NonFungibleAddress { resource, id }
    }

    /// The resource that the token belongs to.
    pub fn resource_address(&self) -> (resource: &ResourceAddress)
        ensures
            *resource == self.resource,
    {
        &self.resource
    }

    /// The token's identifier.
    pub fn id(&self) -> (id: &NonFungibleId)
        ensures
            *id == self.id,
    {
        &self.id
    }
}

/// What a proof of ownership attests once the ledger has verified it: the
/// resource whose tokens the presenter holds, and the identifiers of those
/// tokens in ascending order, as the ledger lists them. A game or the
/// arbiter learns from a proof only an identity: the first that it lists
/// (`resolve`), or, where a move is to be played, the only one (`sole`).
#[derive(Debug)]
pub struct OwnershipProof {
    resource: ResourceAddress,
    ids: Vec<NonFungibleId>,
}

/// What a proof attests, as mathematics.
pub struct Attested {
    pub resource: Seq<u8>,
    pub ids: Seq<Identity>,
}

impl Attested {
    /// The identity that the proof resolves to where tokens of `expected`
    /// are asked for: the first identifier it lists, however many follow.
    /// A proof of another resource resolves to nobody, and neither does one
    /// that lists no token.
    pub open spec fn identity(self, expected: Seq<u8>) -> Option<Identity> {
        if self.resource == expected && self.ids.len() > 0 {
            Some(self.ids[0])
        } else {
            None
        }
    }

    /// The identity that the proof attests alone: its identifier, where it
    /// is a proof of `expected` and lists exactly one token. A proof of
    /// another resource attests nobody alone, and neither does one that
    /// lists no token or several.
    pub open spec fn sole(self, expected: Seq<u8>) -> Option<Identity> {
        if self.resource == expected && self.ids.len() == 1 {
            Some(self.ids[0])
        } else {
            None
        }
    }
}

/// What each of `ids` holds, in the same order.
pub open spec fn identities(ids: Seq<NonFungibleId>) -> Seq<Identity> {
    Seq::new(ids.len(), |i: int| ids[i]@)
}

impl View for OwnershipProof {
    type V = Attested;

    closed spec fn view(&self) -> Attested {
        Attested { resource: self.resource@, ids: identities(self.ids@) }
    }
}

impl OwnershipProof {
    /// Records what the ledger found a proof to attest: that its presenter
    /// holds the tokens `ids` of `resource`.
    pub fn new(resource: ResourceAddress, ids: Vec<NonFungibleId>) -> (attested: OwnershipProof)
        ensures
            attested@ == (Attested { resource: resource@, ids: identities(ids@) }),
    {
        OwnershipProof { resource, ids }
    }

    /// Resolves the proof to the identity it stands for among the tokens of
    /// `expected`, or to `None` where it stands for nobody.
    pub fn resolve(&self, expected: &ResourceAddress) -> (id: Option<&NonFungibleId>)
        ensures
            match id {
                Some(id) => self@.identity(expected@) == Some(id@),
                None => self@.identity(expected@) is None,
            },
    {
        if self.resource != *expected {
            return None;
        }
        if self.ids.len() == 0 {
            return None;
        }
        Some(&self.ids[0])
    }

    /// The one identity that the proof attests among the tokens of
    /// `expected`, or `None` where it is a proof of another resource or
    /// lists no token or more than one.
    pub fn sole(&self, expected: &ResourceAddress) -> (id: Option<&NonFungibleId>)
        ensures
            match id {
                Some(id) => self@.sole(expected@) == Some(id@),
                None => self@.sole(expected@) is None,
            },
    {
        if self.resource != *expected {
            return None;
        }
        if self.ids.len() != 1 {
            return None;
        }
        Some(&self.ids[0])
    }
}

} // verus!
