//! Permissioned ledger-state module.
//!
//! Three independent pieces share one owned state record, which the hosting
//! boundary injects into every operation in place of ambient ledger storage:
//!
//! * an admin/pause state machine: a single administrator, set exactly once
//!   by [`QuickexContract::initialize`], may flip an emergency pause switch
//!   and hand its rights over, with every privileged write re-checked against
//!   the stored identity;
//! * a per-account privacy registry whose flags default to disabled;
//! * a stateless commitment scheme that binds a party to a secret amount and
//!   lets anyone check a revealed tuple against the digest later.
//!
//! Each mutating operation appends the event it emits to an append-only log
//! held in the state; publishing the log is the boundary's job. Every
//! operation is proved against a transition function on [`StateView`], the
//! mathematical model of the state.

use vstd::prelude::*;

mod account;
mod admin;
mod commitment;
mod errors;
mod events;
mod hashing;
mod privacy;
mod state;

pub use account::AccountId;
pub use admin::lemma_admin_transfer_revokes;
pub use admin::lemma_initialize_once;
pub use admin::lemma_pause_idempotent;
pub use admin::lemma_unauthorized_rejected;
pub use commitment::commitment_digest;
pub use commitment::commitment_matches;
pub use commitment::commitment_preimage;
pub use commitment::lemma_commitment_preimage_injective;
pub use commitment::lemma_commitment_roundtrip;
pub use errors::QuickexError;
pub use events::AdminChangedEvent;
pub use events::ContractPausedEvent;
pub use events::EventView;
pub use events::PrivacyToggledEvent;
pub use events::QuickexEvent;
pub use hashing::sha256_of;
pub use privacy::entries_lookup;
pub use privacy::entries_map;
pub use privacy::lemma_privacy_default;
pub use privacy::lemma_privacy_toggle;
pub use privacy::PrivacyEntry;
pub use state::EscrowView;
pub use state::StateView;

verus! {

/// One placeholder escrow record: only the two parties are stored.
#[derive(Debug)]
pub struct EscrowRecord {
    pub from: AccountId,
    pub to: AccountId,
}

impl View for EscrowRecord {
    type V = EscrowView;

    open spec fn view(&self) -> EscrowView {
        EscrowView { from: self.from@, to: self.to@ }
    }
}

/// The contract state: administrator record, pause switch, privacy registry,
/// placeholder escrow storage, and the append-only event log.
#[derive(Debug)]
pub struct QuickexContract {
    pub admin: Option<AccountId>,
    pub paused: bool,
    pub privacy: Vec<PrivacyEntry>,
    pub escrow_counter: u64,
    pub escrows: Vec<EscrowRecord>,
    pub events: Vec<QuickexEvent>,
}

impl View for QuickexContract {
    type V = StateView;

    open spec fn view(&self) -> StateView {
        StateView {
            admin: match self.admin {
                Option::None => Option::None,
                Option::Some(a) => Option::Some(a@),
            },
            paused: self.paused,
            privacy: entries_map(self.privacy@),
            escrow_counter: self.escrow_counter,
            escrows: self.escrows@.map_values(|e: EscrowRecord| e@),
            events: self.events@.map_values(|e: QuickexEvent| e@),
        }
    }
}

impl QuickexContract {
    /// A state in which no operation has run yet: no administrator, not
    /// paused, no privacy flags, no escrows, an empty event log.
    pub fn new() -> (r: QuickexContract)
        ensures
            r@ == StateView::initial(),
    {
        let r = QuickexContract {
            admin: None,
            paused: false,
            privacy: Vec::new(),
            escrow_counter: 0,
            escrows: Vec::new(),
            events: Vec::new(),
        };
        proof {
            assert(r.escrows@.map_values(|e: EscrowRecord| e@) =~= Seq::<EscrowView>::empty());
            assert(r.events@.map_values(|e: QuickexEvent| e@) =~= Seq::<EventView>::empty());
            assert(r@ == StateView::initial());
        }
        r
    }

    /// Always reports that the module is operational.
    pub fn health_check() -> (r: bool)
        ensures
            r,
    {
        true
    }

    /// Placeholder escrow feature: draws the next identifier from a counter
    /// and stores the two parties. No locking, release or dispute logic
    /// exists; the amount is accepted and ignored.
    pub fn create_escrow(&mut self, from: AccountId, to: AccountId, _amount: u64) -> (r: u64)
        requires
            old(self).escrow_counter < u64::MAX,
        ensures
            r == old(self).escrow_counter + 1,
            final(self)@ == (StateView {
                escrow_counter: (old(self).escrow_counter + 1) as u64,
                escrows: old(self)@.escrows.push(EscrowView { from: from@, to: to@ }),
                ..old(self)@
            }),
    {
        let ghost from_v = from@;
        let ghost to_v = to@;
        self.escrow_counter = self.escrow_counter + 1;
        let escrow_id: u64 = self.escrow_counter;
        self.escrows.push(EscrowRecord { from, to });
        proof {
            assert(self.escrows@.map_values(|e: EscrowRecord| e@) =~= old(self).escrows@.map_values(
                |e: EscrowRecord| e@,
            ).push(EscrowView { from: from_v, to: to_v }));
        }
        escrow_id
    }
}

} // verus!
