//! Identifiers: 32-byte agent ids, account/contract addresses, and the
//! byte-wise order in which the registry keeps its agents.
use vstd::prelude::*;

verus! {

/// A 32-byte agent identifier.
pub type AgentId = [u8; 32];

/// The two kinds of on-chain address an agent or a fee recipient can have.
#[derive(Clone, Copy, Debug, PartialEq, Eq)]
pub enum AddressKind {
    Account,
    Contract,
}

/// An on-chain address: its kind and its 32-byte key (an account's public
/// key or a contract's hash).
#[derive(Clone, Copy, Debug, PartialEq, Eq)]
pub struct Address {
    pub kind: AddressKind,
    pub key: [u8; 32],
}

/// Result of comparing two agent ids byte by byte.
#[derive(Clone, Copy, Debug, PartialEq, Eq)]
pub enum IdOrder {
    Less,
    Equal,
    Greater,
}

/// `a` comes strictly before `b`: at the first byte where they differ,
/// `a` holds the smaller byte.
pub open spec fn id_lt(a: Seq<u8>, b: Seq<u8>) -> bool {
    exists|k: int|
        #![trigger a[k], b[k]]
        0 <= k < a.len() && k < b.len() && a[k] < b[k] && (forall|j: int|
            0 <= j < k ==> a[j] == b[j])
}

/// No id comes before itself.
pub proof fn lemma_id_lt_irreflexive(a: Seq<u8>)
    ensures
        !id_lt(a, a),
{
}

/// The byte order on ids is transitive.
pub proof fn lemma_id_lt_transitive(a: Seq<u8>, b: Seq<u8>, c: Seq<u8>)
    requires
        id_lt(a, b),
        id_lt(b, c),
    ensures
        id_lt(a, c),
{
    let k1 = choose|k: int|
        #![trigger a[k], b[k]]
        0 <= k < a.len() && k < b.len() && a[k] < b[k] && (forall|j: int|
            0 <= j < k ==> a[j] == b[j]);
    let k2 = choose|k: int|
        #![trigger b[k], c[k]]
        0 <= k < b.len() && k < c.len() && b[k] < c[k] && (forall|j: int|
            0 <= j < k ==> b[j] == c[j]);
    if k1 <= k2 {
        assert(a[k1] < c[k1]);
        assert(forall|j: int| 0 <= j < k1 ==> a[j] == c[j]);
    } else {
        assert(a[k2] < c[k2]);
        assert(forall|j: int| 0 <= j < k2 ==> a[j] == c[j]);
    }
}

/// Two ids never come before each other.
pub proof fn lemma_id_lt_asymmetric(a: Seq<u8>, b: Seq<u8>)
    requires
        id_lt(a, b),
    ensures
        !id_lt(b, a),
{
    if id_lt(b, a) {
        lemma_id_lt_transitive(a, b, a);
        lemma_id_lt_irreflexive(a);
    }
}

/// Two different ids of the same length are ordered one way or the other.
pub proof fn lemma_id_lt_total(a: Seq<u8>, b: Seq<u8>)
    requires
        a.len() == b.len(),
        a != b,
    ensures
        id_lt(a, b) || id_lt(b, a),
{
    assert(!(a =~= b));
    let i = choose|i: int| 0 <= i < a.len() && a[i] != b[i];
    lemma_first_difference(a, b, i);
}

/// From any position where two ids differ, the first difference orders
/// them.
proof fn lemma_first_difference(a: Seq<u8>, b: Seq<u8>, i: int)
    requires
        a.len() == b.len(),
        0 <= i < a.len(),
        a[i] != b[i],
    ensures
        id_lt(a, b) || id_lt(b, a),
    decreases i,
{
    if exists|j: int| 0 <= j < i && a[j] != b[j] {
        let j = choose|j: int| 0 <= j < i && a[j] != b[j];
        lemma_first_difference(a, b, j);
    } else if a[i] < b[i] {
        assert(id_lt(a, b));
    } else {
        assert(id_lt(b, a));
    }
}

/// Compares two agent ids byte by byte.
pub fn order_ids(a: &AgentId, b: &AgentId) -> (r: IdOrder)
    ensures
        r == IdOrder::Equal <==> a@ == b@,
        r == IdOrder::Less <==> id_lt(a@, b@),
        r == IdOrder::Greater <==> id_lt(b@, a@),
{
    let mut i: usize = 0;
    while i < 32
        invariant
            0 <= i <= 32,
            a@.len() == 32,
            b@.len() == 32,
            forall|j: int| 0 <= j < i ==> a@[j] == b@[j],
        decreases 32 - i,
    {
        if a[i] < b[i] {
            assert(id_lt(a@, b@)) by {
                assert(a@[i as int] < b@[i as int]);
            }
            proof {
                lemma_id_lt_asymmetric(a@, b@);
            }
            return IdOrder::Less;
        } else if a[i] > b[i] {
            assert(id_lt(b@, a@)) by {
                assert(b@[i as int] < a@[i as int]);
            }
            proof {
                lemma_id_lt_asymmetric(b@, a@);
            }
            return IdOrder::Greater;
        }
        i = i + 1;
    }
    assert(a@ =~= b@);
    proof {
        lemma_id_lt_irreflexive(a@);
    }
    IdOrder::Equal
}

/// The same two ids as plain values: true exactly when every byte agrees.
pub fn same_id(a: &AgentId, b: &AgentId) -> (r: bool)
    ensures
        r <==> a@ == b@,
{
    match order_ids(a, b) {
        IdOrder::Equal => true,
        _ => false,
    }
}


/// The XDR header of an address value: `ScVal::Address` (18), then the
/// `ScAddress` variant (0 account, 1 contract); an account adds the public
/// key type (0, Ed25519).
pub open spec fn address_xdr_header(kind: AddressKind) -> Seq<u8> {
    match kind {
        AddressKind::Account => seq![0u8, 0, 0, 18, 0, 0, 0, 0, 0, 0, 0, 0],
        AddressKind::Contract => seq![0u8, 0, 0, 18, 0, 0, 0, 1],
    }
}

/// An address's XDR form: its header followed by its 32-byte key.
pub open spec fn address_xdr(a: Address) -> Seq<u8> {
    address_xdr_header(a.kind) + a.key@
}

/// The XDR form of an address.
pub fn address_to_xdr(a: &Address) -> (v: Vec<u8>)
    ensures
        v@ == address_xdr(*a),
{
    let mut v: Vec<u8> = match a.kind {
        AddressKind::Account => vec![0u8, 0, 0, 18, 0, 0, 0, 0, 0, 0, 0, 0],
        AddressKind::Contract => vec![0u8, 0, 0, 18, 0, 0, 0, 1],
    };
    let ghost h = v@;
    assert(h =~= address_xdr_header(a.kind));
    let mut i: usize = 0;
    while i < 32
        invariant
            0 <= i <= 32,
            h == address_xdr_header(a.kind),
            a.key@.len() == 32,
            v@ == h + a.key@.take(i as int),
        decreases 32 - i,
    {
        v.push(a.key[i]);
        assert(a.key@.take(i + 1) =~= a.key@.take(i as int).push(a.key@[i as int]));
        assert(h + a.key@.take(i + 1) =~= (h + a.key@.take(i as int)).push(a.key@[i as int]));
        i = i + 1;
    }
    assert(a.key@.take(32) =~= a.key@);
    v
}

/// The address whose XDR form `bytes` are, if they are one.
pub fn address_from_xdr(bytes: &[u8]) -> (r: Option<Address>)
    ensures
        match r {
            Some(a) => address_xdr(a) == bytes@,
            None => forall|a: Address| address_xdr(a) != bytes@,
        },
{
    let kind = if bytes.len() == 44 && bytes[0] == 0 && bytes[1] == 0 && bytes[2] == 0
        && bytes[3] == 18 && bytes[4] == 0 && bytes[5] == 0 && bytes[6] == 0 && bytes[7] == 0
        && bytes[8] == 0 && bytes[9] == 0 && bytes[10] == 0 && bytes[11] == 0 {
        AddressKind::Account
    } else if bytes.len() == 40 && bytes[0] == 0 && bytes[1] == 0 && bytes[2] == 0 && bytes[3]
        == 18 && bytes[4] == 0 && bytes[5] == 0 && bytes[6] == 0 && bytes[7] == 1 {
        AddressKind::Contract
    } else {
        proof {
            assert forall|a: Address| address_xdr(a) != bytes@ by {
                if address_xdr(a) == bytes@ {
                    let h = address_xdr_header(a.kind);
                    assert(bytes@.len() == h.len() + 32);
                    assert forall|j: int| 0 <= j < h.len() implies bytes@[j] == h[j] by {
                        assert(address_xdr(a)[j] == h[j]);
                    }
                }
            }
        }
        return None;
    };
    let start: usize = match kind {
        AddressKind::Account => 12,
        AddressKind::Contract => 8,
    };
    let mut key = [0u8; 32];
    let mut i: usize = 0;
    while i < 32
        invariant
            0 <= i <= 32,
            start <= 12,
            start + 32 == bytes@.len(),
            key@.len() == 32,
            forall|j: int| 0 <= j < i ==> key@[j] == bytes@[start + j],
        decreases 32 - i,
    {
        key[i] = bytes[start + i];
        i = i + 1;
    }
    let a = Address { kind, key };
    assert(address_xdr(a) =~= bytes@);
    Some(a)
}

} // verus!
