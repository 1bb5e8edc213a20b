//! The host around a contract call: the ledger clock, the authorizations
//! that came with the call, the published events and the governance
//! contracts that can be invoked.

use vstd::prelude::*;

use crate::address::{Address, AddressKind, BytesN32, KeyEq};
use crate::assoc::AssocList;
use crate::events::{ContractEvent, EmittedEvent};
use crate::governance::MockGovernanceWithFees;
use crate::types::FeeConfig;

verus! {

/// What the contract's specification sees of the host.
#[verifier::ext_equal]
pub struct EnvModel {
    pub timestamp: u64,
    pub sequence: u32,
    pub all_authorized: bool,
    pub authorized: Seq<Address>,
    pub events: Seq<EmittedEvent>,
    pub governance: Map<Address, MockGovernanceWithFees>,
    pub next_address: u64,
}

impl EnvModel {
    /// Whether `a` has authorized the current call.
    pub open spec fn authorizes(self, a: Address) -> bool {
        self.all_authorized || self.authorized.contains(a)
    }

    /// Whether a governance contract is deployed at `g`.
    pub open spec fn is_governance(self, g: Address) -> bool {
        self.governance.contains_key(g)
    }

    /// What `get_fee_config` on `g` answers: `None` when no governance
    /// contract is deployed there or it has no configuration.
    pub open spec fn fee_config_at(self, g: Address) -> Option<FeeConfig> {
        if self.governance.contains_key(g) {
            self.governance[g].fee
        } else {
            None
        }
    }

    /// The host after `contract` has published `evs`, in order.
    pub open spec fn emit(self, contract: Address, evs: Seq<ContractEvent>) -> EnvModel {
        EnvModel {
            events: self.events + evs.map_values(
                |ev: ContractEvent| EmittedEvent { contract, event: ev },
            ),
            ..self
        }
    }
}

/// The key of the `n`-th address that the host generates: `n` in the first
/// eight bytes, least significant first, then zeros, and a final byte 1.
pub open spec fn generated_key(n: u64) -> Seq<u8> {
    Seq::new(
        32,
        |i: int|
            if i < 8 {
                ((n >> ((8 * i) as u64)) & 0xff) as u8
            } else if i == 31 {
                1u8
            } else {
                0u8
            },
    )
}

/// Different counts give different keys, so generated addresses are all
/// distinct.
pub proof fn lemma_generated_key_injective(n: u64, m: u64)
    ensures
        generated_key(n) == generated_key(m) ==> n == m,
{
    if generated_key(n) == generated_key(m) {
        assert(generated_key(n)[0] == generated_key(m)[0]);
        assert(generated_key(n)[1] == generated_key(m)[1]);
        assert(generated_key(n)[2] == generated_key(m)[2]);
        assert(generated_key(n)[3] == generated_key(m)[3]);
        assert(generated_key(n)[4] == generated_key(m)[4]);
        assert(generated_key(n)[5] == generated_key(m)[5]);
        assert(generated_key(n)[6] == generated_key(m)[6]);
        assert(generated_key(n)[7] == generated_key(m)[7]);
        assert(n == m) by (bit_vector)
            requires
                ((n >> 0u64) & 0xff) as u8 == ((m >> 0u64) & 0xff) as u8,
                ((n >> 8u64) & 0xff) as u8 == ((m >> 8u64) & 0xff) as u8,
                ((n >> 16u64) & 0xff) as u8 == ((m >> 16u64) & 0xff) as u8,
                ((n >> 24u64) & 0xff) as u8 == ((m >> 24u64) & 0xff) as u8,
                ((n >> 32u64) & 0xff) as u8 == ((m >> 32u64) & 0xff) as u8,
                ((n >> 40u64) & 0xff) as u8 == ((m >> 40u64) & 0xff) as u8,
                ((n >> 48u64) & 0xff) as u8 == ((m >> 48u64) & 0xff) as u8,
                ((n >> 56u64) & 0xff) as u8 == ((m >> 56u64) & 0xff) as u8,
        ;
    }
}

/// Publishing nothing leaves the host as it was.
pub proof fn lemma_emit_nothing(e: EnvModel, contract: Address)
    ensures
        e.emit(contract, Seq::empty()) == e,
{
    assert(e.emit(contract, Seq::empty()).events =~= e.events);
    assert(e.emit(contract, Seq::empty()) =~= e);
}

/// Publishing two batches one after the other is publishing them together.
pub proof fn lemma_emit_twice(
    e: EnvModel,
    contract: Address,
    first: Seq<ContractEvent>,
    second: Seq<ContractEvent>,
)
    ensures
        e.emit(contract, first).emit(contract, second) == e.emit(contract, first + second),
{
    assert(e.emit(contract, first).emit(contract, second).events =~= e.emit(
        contract,
        first + second,
    ).events);
    assert(e.emit(contract, first).emit(contract, second) =~= e.emit(contract, first + second));
}

pub struct Env {
    timestamp: u64,
    sequence: u32,
    all_authorized: bool,
    authorized: Vec<Address>,
    events: Vec<EmittedEvent>,
    governance: AssocList<Address, MockGovernanceWithFees>,
    next_address: u64,
}

impl View for Env {
    type V = EnvModel;

    closed spec fn view(&self) -> EnvModel {
        EnvModel {
            timestamp: self.timestamp,
            sequence: self.sequence,
            all_authorized: self.all_authorized,
            authorized: self.authorized@,
            events: self.events@,
            governance: self.governance@,
            next_address: self.next_address,
        }
    }
}

impl Env {
    /// A fresh host at ledger 0, with no authorizations and no contracts.
    pub fn new() -> (r: Env)
        ensures
            r@.timestamp == 0,
            r@.sequence == 0,
            !r@.all_authorized,
            r@.authorized == Seq::<Address>::empty(),
            r@.events == Seq::<EmittedEvent>::empty(),
            r@.governance == Map::<Address, MockGovernanceWithFees>::empty(),
            r@.next_address == 0,
    {
        Env {
            timestamp: 0,
            sequence: 0,
            all_authorized: false,
            authorized: Vec::new(),
            events: Vec::new(),
            governance: AssocList::new(),
            next_address: 0,
        }
    }

    /// Ledger close time, in seconds.
    pub fn timestamp(&self) -> (r: u64)
        ensures
            r == self@.timestamp,
    {
        self.timestamp
    }

    /// Ledger sequence number.
    pub fn sequence(&self) -> (r: u32)
        ensures
            r == self@.sequence,
    {
        self.sequence
    }

    /// Moves the ledger clock to `timestamp`.
    pub fn set_timestamp(&mut self, timestamp: u64)
        ensures
            final(self)@ == (EnvModel { timestamp, ..old(self)@ }),
    {
        self.timestamp = timestamp;
    }

    /// Moves the ledger to sequence number `sequence`.
    pub fn set_sequence(&mut self, sequence: u32)
        ensures
            final(self)@ == (EnvModel { sequence, ..old(self)@ }),
    {
        self.sequence = sequence;
    }

    /// Every address authorizes every call from now on.
    pub fn mock_all_auths(&mut self)
        ensures
            final(self)@ == (EnvModel { all_authorized: true, ..old(self)@ }),
    {
        self.all_authorized = true;
    }

    /// Exactly the addresses in `signers` authorize the calls from now on.
    pub fn set_auths(&mut self, signers: Vec<Address>)
        ensures
            final(self)@ == (EnvModel { all_authorized: false, authorized: signers@, ..old(self)@ }),
    {
        self.all_authorized = false;
        self.authorized = signers;
    }

    /// Whether `a` has authorized the current call.
    pub fn require_auth(&self, a: &Address) -> (r: bool)
        ensures
            r == self@.authorizes(*a),
    {
        if self.all_authorized {
            return true;
        }
        let mut i: usize = 0;
        while i < self.authorized.len()
            invariant
                i <= self.authorized@.len(),
                forall|j: int| 0 <= j < i ==> self.authorized@[j] != *a,
            decreases self.authorized@.len() - i,
        {
            if self.authorized[i].key_eq(a) {
                assert(self.authorized@[i as int] == *a);
                return true;
            }
            i = i + 1;
        }
        false
    }

    /// Every event published so far, oldest first.
    pub fn events(&self) -> (r: &Vec<EmittedEvent>)
        ensures
            r@ == self@.events,
    {
        &self.events
    }

    /// Appends an event published by `contract`.
    pub fn publish(&mut self, contract: Address, event: ContractEvent)
        ensures
            final(self)@ == old(self)@.emit(contract, seq![event]),
    {
        self.events.push(EmittedEvent { contract, event });
        proof {
            assert(self@.events =~= old(self)@.emit(contract, seq![event]).events);
        }
    }

    /// A fresh address of the given kind, numbered after the previous one:
    /// its key carries the new count in its first eight bytes (least
    /// significant first) and ends in 1, so it is never the zero address
    /// and differs from every address generated before.
    pub fn generate_address(&mut self, kind: AddressKind) -> (r: Address)
        requires
            old(self)@.next_address < u64::MAX,
        ensures
            r.kind == kind,
            r.key.bytes@ == generated_key((old(self)@.next_address + 1) as u64),
            !r.spec_is_zero(),
            final(self)@ == (EnvModel { next_address: (old(self)@.next_address + 1) as u64, ..old(self)@ }),
    {
        self.next_address = self.next_address + 1;
        let n: u64 = self.next_address;
        let mut key: [u8; 32] = [0u8; 32];
        key[0] = (n & 0xff) as u8;
        key[1] = ((n >> 8) & 0xff) as u8;
        key[2] = ((n >> 16) & 0xff) as u8;
        key[3] = ((n >> 24) & 0xff) as u8;
        key[4] = ((n >> 32) & 0xff) as u8;
        key[5] = ((n >> 40) & 0xff) as u8;
        key[6] = ((n >> 48) & 0xff) as u8;
        key[7] = ((n >> 56) & 0xff) as u8;
        key[31] = 1;
        let r = Address { kind, key: BytesN32 { bytes: key } };
        proof {
            assert(n & 0xff == (n >> 0u64) & 0xff) by (bit_vector);
            assert(r.key.bytes@ =~= generated_key(n));
            assert(r.key.bytes@[31] == 1u8);
        }
        r
    }

    /// Deploys `contract` as a governance contract at a fresh contract address.
    pub fn register_governance(&mut self, contract: MockGovernanceWithFees) -> (r: Address)
        requires
            old(self)@.next_address < u64::MAX,
        ensures
            r.kind == AddressKind::Contract,
            r.key.bytes@ == generated_key((old(self)@.next_address + 1) as u64),
            !r.spec_is_zero(),
            final(self)@ == (EnvModel {
                next_address: (old(self)@.next_address + 1) as u64,
                governance: old(self)@.governance.insert(r, contract),
                ..old(self)@
            }),
    {
        let address = self.generate_address(AddressKind::Contract);
        self.governance.insert(address, contract);
        address
    }

    /// Records that the governance contract at `address` answers
    /// `get_fee_config` as `contract` does.
    pub fn set_governance(&mut self, address: Address, contract: MockGovernanceWithFees)
        ensures
            final(self)@ == (EnvModel {
                governance: old(self)@.governance.insert(address, contract),
                ..old(self)@
            }),
    {
        self.governance.insert(address, contract);
    }

    /// Whether a governance contract is deployed at `g`.
    pub fn is_governance(&self, g: &Address) -> (r: bool)
        ensures
            r == self@.is_governance(*g),
    {
        self.governance.contains_key(g)
    }

    /// Invokes `get_fee_config` on the governance contract at `g`; `None` when
    /// no contract is deployed there or it has no configuration.
    pub fn invoke_get_fee_config(&self, g: &Address) -> (r: Option<FeeConfig>)
        ensures
            r == self@.fee_config_at(*g),
    {
        match self.governance.get(g) {
            Some(contract) => contract.get_fee_config(),
            None => None,
        }
    }

    /// Invokes `set_fee_config` on the governance contract at `g`; returns
    /// whether one is deployed there.
    pub fn invoke_set_fee_config(&mut self, g: &Address, config: FeeConfig) -> (r: bool)
        ensures
            r == old(self)@.is_governance(*g),
            r ==> final(self)@ == (EnvModel {
                governance: old(self)@.governance.insert(
                    *g,
                    MockGovernanceWithFees { fee: Some(config) },
                ),
                ..old(self)@
            }),
            !r ==> final(self)@ == old(self)@,
    {
        match self.governance.get(g) {
            Some(contract) => {
                let mut updated = contract;
                updated.set_fee_config(config);
                self.governance.insert(*g, updated);
                true
            },
            None => false,
        }
    }
}

/// Deploys a governance contract, configured with `config` when one is given.
pub fn deploy_governance(env: &mut Env, config: Option<FeeConfig>) -> (r: Address)
    requires
        old(env)@.next_address < u64::MAX,
    ensures
        r.kind == AddressKind::Contract,
        r.key.bytes@ == generated_key((old(env)@.next_address + 1) as u64),
        !r.spec_is_zero(),
        final(env)@ == (EnvModel {
            next_address: (old(env)@.next_address + 1) as u64,
            governance: old(env)@.governance.insert(r, MockGovernanceWithFees { fee: config }),
            ..old(env)@
        }),
{
    let mut contract = MockGovernanceWithFees::new();
    match config {
        Some(cfg) => contract.init(cfg),
        None => {},
    }
    env.register_governance(contract)
}

} // verus!
