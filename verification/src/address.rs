//! Ledger addresses and fixed-size byte strings.

use vstd::prelude::*;

use crate::errors::SettlementError;

verus! {

broadcast use vstd::array::group_array_axioms;

/// Exact equality on a key type, as used by the association lists of the
/// contract state.
pub trait KeyEq: Sized {
    fn key_eq(&self, other: &Self) -> (r: bool)
        ensures
            r == (*self == *other),
    ;
}

/// A 32-byte value such as a payment reference or a Wasm hash.
#[derive(Clone, Copy, Debug)]
pub struct BytesN32 {
    pub bytes: [u8; 32],
}

impl BytesN32 {
    pub fn from_array(bytes: [u8; 32]) -> (r: BytesN32)
        ensures
            r.bytes == bytes,
    {
        BytesN32 { bytes }
    }

    pub open spec fn spec_is_zero(self) -> bool {
        forall|i: int| 0 <= i < 32 ==> self.bytes@[i] == 0u8
    }

    /// True when every byte is zero.
    pub fn is_zero(&self) -> (r: bool)
        ensures
            r == self.spec_is_zero(),
    {
        let mut i: usize = 0;
        while i < 32
            invariant
                i <= 32,
                forall|j: int| 0 <= j < i ==> self.bytes@[j] == 0u8,
            decreases 32 - i,
        {
            if self.bytes[i] != 0 {
                return false;
            }
            i = i + 1;
        }
        true
    }
}

impl KeyEq for BytesN32 {
    fn key_eq(&self, other: &Self) -> (r: bool) {
        let mut i: usize = 0;
        while i < 32
            invariant
                i <= 32,
                forall|j: int| 0 <= j < i ==> self.bytes[j] == other.bytes[j],
            decreases 32 - i,
        {
            if self.bytes[i] != other.bytes[i] {
                return false;
            }
            i = i + 1;
        }
        assert(self.bytes =~= other.bytes);
        true
    }
}


impl PartialEq for BytesN32 {
    fn eq(&self, other: &Self) -> (r: bool) {
        self.key_eq(other)
    }
}

impl vstd::std_specs::cmp::PartialEqSpecImpl for BytesN32 {
    open spec fn obeys_eq_spec() -> bool {
        true
    }

    open spec fn eq_spec(&self, other: &Self) -> bool {
        *self == *other
    }
}

impl Eq for BytesN32 {}

/// Whether an address names an account (a `G...` key) or a contract (a `C...` key).
#[derive(Clone, Copy, Debug, PartialEq, Eq, Structural)]
pub enum AddressKind {
    Account,
    Contract,
}

/// A ledger address: its kind and its 32-byte key.
#[derive(Clone, Copy, Debug)]
pub struct Address {
    pub kind: AddressKind,
    pub key: BytesN32,
}

impl KeyEq for Address {
    fn key_eq(&self, other: &Self) -> (r: bool) {
        if self.kind != other.kind {
            return false;
        }
        self.key.key_eq(&other.key)
    }
}

impl PartialEq for Address {
    fn eq(&self, other: &Self) -> (r: bool) {
        self.key_eq(other)
    }
}

impl vstd::std_specs::cmp::PartialEqSpecImpl for Address {
    open spec fn obeys_eq_spec() -> bool {
        true
    }

    open spec fn eq_spec(&self, other: &Self) -> bool {
        *self == *other
    }
}

impl Eq for Address {}

impl Address {
    /// The network's zero address: the account whose key is all zeros
    /// (`GAAAAAAAAAAAAAAAAAAAAAAAAAAAAAAAAAAAAAAAAAAAAAAAAAAAAWHF`).
    pub open spec fn spec_is_zero(self) -> bool {
        self.kind == AddressKind::Account && self.key.spec_is_zero()
    }

    pub fn account(key: [u8; 32]) -> (r: Address)
        ensures
            r.kind == AddressKind::Account,
            r.key.bytes == key,
    {
        Address { kind: AddressKind::Account, key: BytesN32 { bytes: key } }
    }

    pub fn contract(key: [u8; 32]) -> (r: Address)
        ensures
            r.kind == AddressKind::Contract,
            r.key.bytes == key,
    {
        Address { kind: AddressKind::Contract, key: BytesN32 { bytes: key } }
    }
}

/// The host's XDR encoding of `a` as a value (`ScVal::Address`): the value
/// tag 18, the address tag (0 for an account, 1 for a contract), for an
/// account the key-type tag 0 (ed25519), then the 32 key bytes. Each tag is
/// a big-endian 32-bit word.
pub open spec fn spec_address_xdr(a: Address) -> Seq<u8> {
    match a.kind {
        AddressKind::Account => seq![0u8, 0u8, 0u8, 18u8, 0u8, 0u8, 0u8, 0u8, 0u8, 0u8, 0u8, 0u8]
            + a.key.bytes@,
        AddressKind::Contract => seq![0u8, 0u8, 0u8, 18u8, 0u8, 0u8, 0u8, 1u8] + a.key.bytes@,
    }
}

/// Distinct addresses have distinct encodings, so decoding an address's
/// encoding gives that address back.
pub proof fn lemma_address_xdr_injective(a: Address, b: Address)
    ensures
        spec_address_xdr(a) == spec_address_xdr(b) ==> a == b,
{
    if spec_address_xdr(a) == spec_address_xdr(b) {
        assert(spec_address_xdr(a)[7] == spec_address_xdr(b)[7]);
        assert(a.kind == b.kind);
        let off: int = if a.kind == AddressKind::Account {
            12
        } else {
            8
        };
        assert forall|i: int| 0 <= i < 32 implies a.key.bytes@[i] == b.key.bytes@[i] by {
            assert(spec_address_xdr(a)[off + i] == spec_address_xdr(b)[off + i]);
        }
        assert(a.key.bytes@ =~= b.key.bytes@);
        assert(a.key.bytes == b.key.bytes);
    }
}

impl Address {
    /// The address's XDR encoding, as the host serializes it.
    pub fn to_xdr_bytes(&self) -> (r: Vec<u8>)
        ensures
            r@ == spec_address_xdr(*self),
    {
        let mut r: Vec<u8> = Vec::new();
        r.push(0);
        r.push(0);
        r.push(0);
        r.push(18);
        match self.kind {
            AddressKind::Account => {
                r.push(0);
                r.push(0);
                r.push(0);
                r.push(0);
                r.push(0);
                r.push(0);
                r.push(0);
                r.push(0);
            },
            AddressKind::Contract => {
                r.push(0);
                r.push(0);
                r.push(0);
                r.push(1);
            },
        }
        let ghost head = r@;
        let mut i: usize = 0;
        while i < 32
            invariant
                i <= 32,
                r@ == head + self.key.bytes@.take(i as int),
            decreases 32 - i,
        {
            r.push(self.key.bytes[i]);
            i = i + 1;
            assert(r@ =~= head + self.key.bytes@.take(i as int));
        }
        proof {
            assert(self.key.bytes@.take(32) =~= self.key.bytes@);
            assert(r@ =~= spec_address_xdr(*self));
        }
        r
    }

    /// The address whose XDR encoding is `bytes`, if there is one.
    pub fn from_xdr_bytes(bytes: &Vec<u8>) -> (r: Option<Address>)
        ensures
            match r {
                Some(a) => bytes@ == spec_address_xdr(a),
                None => forall|a: Address| bytes@ != #[trigger] spec_address_xdr(a),
            },
    {
        let n = bytes.len();
        if n < 8 || bytes[0] != 0 || bytes[1] != 0 || bytes[2] != 0 || bytes[3] != 18 || bytes[4]
            != 0 || bytes[5] != 0 || bytes[6] != 0 || (bytes[7] != 0 && bytes[7] != 1) {
            proof {
                assert forall|a: Address| bytes@ != #[trigger] spec_address_xdr(a) by {
                    if bytes@ == spec_address_xdr(a) {
                        assert(spec_address_xdr(a).len() >= 40);
                        assert(spec_address_xdr(a)[0] == 0u8);
                        assert(spec_address_xdr(a)[1] == 0u8);
                        assert(spec_address_xdr(a)[2] == 0u8);
                        assert(spec_address_xdr(a)[3] == 18u8);
                        assert(spec_address_xdr(a)[4] == 0u8);
                        assert(spec_address_xdr(a)[5] == 0u8);
                        assert(spec_address_xdr(a)[6] == 0u8);
                        assert(spec_address_xdr(a)[7] == 0u8 || spec_address_xdr(a)[7] == 1u8);
                    }
                }
            }
            return None;
        }
        let account = bytes[7] == 0;
        if account && (n != 44 || bytes[8] != 0 || bytes[9] != 0 || bytes[10] != 0 || bytes[11]
            != 0) {
            proof {
                assert forall|a: Address| bytes@ != #[trigger] spec_address_xdr(a) by {
                    if bytes@ == spec_address_xdr(a) {
                        assert(spec_address_xdr(a)[7] == bytes@[7]);
                        assert(a.kind == AddressKind::Account);
                        assert(spec_address_xdr(a).len() == 44);
                        assert(spec_address_xdr(a)[8] == 0u8);
                        assert(spec_address_xdr(a)[9] == 0u8);
                        assert(spec_address_xdr(a)[10] == 0u8);
                        assert(spec_address_xdr(a)[11] == 0u8);
                    }
                }
            }
            return None;
        }
        if !account && n != 40 {
            proof {
                assert forall|a: Address| bytes@ != #[trigger] spec_address_xdr(a) by {
                    if bytes@ == spec_address_xdr(a) {
                        assert(spec_address_xdr(a)[7] == bytes@[7]);
                        assert(a.kind == AddressKind::Contract);
                    }
                }
            }
            return None;
        }
        let offset: usize = if account {
            12
        } else {
            8
        };
        let mut key: [u8; 32] = [0u8; 32];
        let mut i: usize = 0;
        while i < 32
            invariant
                i <= 32,
                offset <= 12,
                offset + 32 == bytes@.len(),
                forall|j: int| 0 <= j < i ==> key@[j] == bytes@[offset + j],
            decreases 32 - i,
        {
            key[i] = bytes[offset + i];
            i = i + 1;
        }
        let kind = if account {
            AddressKind::Account
        } else {
            AddressKind::Contract
        };
        let a = Address { kind, key: BytesN32 { bytes: key } };
        proof {
            assert(bytes@ =~= spec_address_xdr(a));
        }
        Some(a)
    }
}

/// Returns `true` if `address` is the network's zero address.
pub fn is_zero_address(address: &Address) -> (r: bool)
    ensures
        r == address.spec_is_zero(),
{
    address.kind == AddressKind::Account && address.key.is_zero()
}

/// Rejects the zero address with `zero_error`.
///
/// The textual form of an address is never empty, so `empty_error` is never
/// the result; it is kept so that each caller names both of its errors.
pub fn validate_nonzero_address(
    address: &Address,
    empty_error: SettlementError,
    zero_error: SettlementError,
) -> (r: Result<(), SettlementError>)
    ensures
        r == (if address.spec_is_zero() {
            Err::<(), SettlementError>(zero_error)
        } else {
            Ok(())
        }),
{
    if is_zero_address(address) {
        return Err(zero_error);
    }
    Ok(())
}

} // verus!
