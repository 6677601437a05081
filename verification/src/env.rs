//! One invocation of the contract, as the contract sees it.
use crate::address::Address;
use crate::storage::Instance;
use vstd::prelude::*;

verus! {

/// An event for clients that follow the contract.
#[derive(Clone, Copy, Debug, PartialEq, Eq)]
pub enum Event {
    EscrowCreated { buyer: Address, seller: Address, amount: i128 },
    EscrowFunded { buyer: Address, amount: i128 },
    DeliveryMarked { seller: Address },
    DisputeRaised { raiser: Address },
    PartialReleased { seller: Address, amount: i128 },
    FundsReleased { seller: Address, amount: i128 },
    FundsRefunded { buyer: Address, amount: i128 },
}

impl Event {
    /// The event's first topic.
    pub open spec fn spec_name(self) -> Seq<char> {
        match self {
            Event::EscrowCreated { .. } => "escrow_created"@,
            Event::EscrowFunded { .. } => "escrow_funded"@,
            Event::DeliveryMarked { .. } => "delivery_marked"@,
            Event::DisputeRaised { .. } => "dispute_raised"@,
            Event::PartialReleased { .. } => "partial_released"@,
            Event::FundsReleased { .. } => "funds_released"@,
            Event::FundsRefunded { .. } => "funds_refunded"@,
        }
    }

    /// The addresses that follow the name as topics, in order.
    pub open spec fn spec_topics(self) -> Seq<Address> {
        match self {
            Event::EscrowCreated { buyer, seller, .. } => seq![buyer, seller],
            Event::EscrowFunded { buyer, .. } => seq![buyer],
            Event::DeliveryMarked { seller } => seq![seller],
            Event::DisputeRaised { raiser } => seq![raiser],
            Event::PartialReleased { seller, .. } => seq![seller],
            Event::FundsReleased { seller, .. } => seq![seller],
            Event::FundsRefunded { buyer, .. } => seq![buyer],
        }
    }

    /// The amount that the event carries as its data, if any.
    pub open spec fn spec_data(self) -> Option<i128> {
        match self {
            Event::EscrowCreated { amount, .. } => Some(amount),
            Event::EscrowFunded { amount, .. } => Some(amount),
            Event::DeliveryMarked { .. } => None,
            Event::DisputeRaised { .. } => None,
            Event::PartialReleased { amount, .. } => Some(amount),
            Event::FundsReleased { amount, .. } => Some(amount),
            Event::FundsRefunded { amount, .. } => Some(amount),
        }
    }

    /// Returns the event's first topic.
    pub fn name(&self) -> (name: &'static str)
        ensures
            name@ == self.spec_name(),
    {
        match self {
            Event::EscrowCreated { .. } => "escrow_created",
            Event::EscrowFunded { .. } => "escrow_funded",
            Event::DeliveryMarked { .. } => "delivery_marked",
            Event::DisputeRaised { .. } => "dispute_raised",
            Event::PartialReleased { .. } => "partial_released",
            Event::FundsReleased { .. } => "funds_released",
            Event::FundsRefunded { .. } => "funds_refunded",
        }
    }

    /// Returns the addresses that follow the name as topics, in order.
    pub fn topics(&self) -> (topics: Vec<Address>)
        ensures
            topics@ == self.spec_topics(),
    {
        let mut topics: Vec<Address> = Vec::new();
        match self {
            Event::EscrowCreated { buyer, seller, .. } => {
                topics.push(*buyer);
                topics.push(*seller);
            },
            Event::EscrowFunded { buyer, .. } => topics.push(*buyer),
            Event::DeliveryMarked { seller } => topics.push(*seller),
            Event::DisputeRaised { raiser } => topics.push(*raiser),
            Event::PartialReleased { seller, .. } => topics.push(*seller),
            Event::FundsReleased { seller, .. } => topics.push(*seller),
            Event::FundsRefunded { buyer, .. } => topics.push(*buyer),
        }
        assert(topics@ =~= self.spec_topics());
        topics
    }

    /// Returns the amount that the event carries as its data, if any.
    pub fn data(&self) -> (data: Option<i128>)
        ensures
            data == self.spec_data(),
    {
        match self {
            Event::EscrowCreated { amount, .. } => Some(*amount),
            Event::EscrowFunded { amount, .. } => Some(*amount),
            Event::DeliveryMarked { .. } => None,
            Event::DisputeRaised { .. } => None,
            Event::PartialReleased { amount, .. } => Some(*amount),
            Event::FundsReleased { amount, .. } => Some(*amount),
            Event::FundsRefunded { amount, .. } => Some(*amount),
        }
    }
}

/// Something that the contract asks of the host. If the host cannot do it,
/// the whole invocation is undone.
#[derive(Clone, Copy, Debug, PartialEq, Eq)]
pub enum Effect {
    /// The address must have authorised this invocation.
    RequireAuth { address: Address },
    /// The address must be that of a token contract, one that answers when
    /// asked for its decimals.
    ProbeToken { token: Address },
    /// Tokens move from one address to another.
    Transfer { token: Address, from: Address, to: Address, amount: i128 },
    /// If the instance storage has fewer than `threshold` ledgers to live, it
    /// gets `extend_to`.
    ExtendTtl { threshold: u32, extend_to: u32 },
    /// The contract's code is replaced by the one with this hash.
    UpdateWasm { hash: [u8; 32] },
    /// An event is published.
    Publish { event: Event },
}

/// One invocation: what is stored, where the ledger stands, who the contract
/// is, and what has been asked of the host so far, in order.
#[derive(Debug, PartialEq, Eq)]
pub struct Env {
    pub instance: Instance,
    /// The current ledger's number.
    pub sequence: u32,
    /// The address of the contract itself.
    pub contract: Address,
    pub effects: Vec<Effect>,
}

/// An [`Env`] as a mathematical value.
#[verifier::ext_equal]
pub struct EnvView {
    pub instance: Instance,
    pub sequence: u32,
    pub contract: Address,
    pub effects: Seq<Effect>,
}

impl View for Env {
    type V = EnvView;

    open spec fn view(&self) -> EnvView {
        EnvView {
            instance: self.instance,
            sequence: self.sequence,
            contract: self.contract,
            effects: self.effects@,
        }
    }
}

impl EnvView {
    /// The invocation with these effects asked for on top.
    pub open spec fn asking(self, added: Seq<Effect>) -> EnvView {
        EnvView { effects: self.effects + added, ..self }
    }

    /// The invocation with this left in storage.
    pub open spec fn storing(self, instance: Instance) -> EnvView {
        EnvView { instance, ..self }
    }
}

impl Env {
    /// Starts an invocation of `contract` at ledger `sequence`, on what it has
    /// stored.
    pub fn new(instance: Instance, sequence: u32, contract: Address) -> (env: Env)
        ensures
            env@ == (EnvView { instance, sequence, contract, effects: Seq::empty() }),
    {
        Env { instance, sequence, contract, effects: Vec::new() }
    }

    /// Asks one more thing of the host.
    pub fn ask(&mut self, effect: Effect)
        ensures
            final(self)@ == old(self)@.asking(seq![effect]),
    {
        self.effects.push(effect);
        assert(self@ =~= old(self)@.asking(seq![effect]));
    }
}

} // verus!
