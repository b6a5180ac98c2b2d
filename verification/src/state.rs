//! The mathematical model of the contract state, and the transition
//! functions that the executable operations are proved to implement.
//!
//! Identities appear as their canonical bytes. The privacy registry is a map
//! from account bytes to the stored flag; an account outside the map's domain
//! is treated as having the flag disabled.

use vstd::prelude::*;

use crate::errors::QuickexError;
use crate::events::EventView;

verus! {

/// One escrow record: the placeholder feature stores the two parties.
pub struct EscrowView {
    pub from: Seq<u8>,
    pub to: Seq<u8>,
}

/// The whole persisted state, plus the append-only event log.
pub struct StateView {
    /// The administrator, once `initialize` has succeeded.
    pub admin: Option<Seq<u8>>,
    /// The emergency pause switch.
    pub paused: bool,
    /// Per-account privacy flags; absence means disabled.
    pub privacy: Map<Seq<u8>, bool>,
    /// How many escrow records have ever been created.
    pub escrow_counter: u64,
    /// The placeholder escrow records, in creation order.
    pub escrows: Seq<EscrowView>,
    /// Every event emitted so far, oldest first.
    pub events: Seq<EventView>,
}

impl StateView {
    /// The state before any operation has run.
    pub open spec fn initial() -> StateView {
        StateView {
            admin: None,
            paused: false,
            privacy: Map::empty(),
            escrow_counter: 0,
            escrows: Seq::empty(),
            events: Seq::empty(),
        }
    }

    /// The stored privacy flag of `owner`, disabled when absent.
    pub open spec fn privacy_of(self, owner: Seq<u8>) -> bool {
        if self.privacy.contains_key(owner) {
            self.privacy[owner]
        } else {
            false
        }
    }

    /// `initialize(admin)`: a one-time bootstrap. Fails, changing nothing,
    /// when an administrator already exists.
    pub open spec fn initialize_t(self, admin: Seq<u8>) -> (StateView, Result<
        (),
        QuickexError,
    >) {
        if self.admin is Some {
            (self, Err(QuickexError::AlreadyInitialized))
        } else {
            (StateView { admin: Some(admin), paused: false, ..self }, Ok(()))
        }
    }

    /// `set_paused(caller, v)`: only the stored administrator may flip the
    /// switch; any failure leaves the state unchanged.
    pub open spec fn set_paused_t(self, caller: Seq<u8>, new_state: bool, now: u64) -> (StateView,
    Result<(), QuickexError>) {
        if self.admin is None {
            (self, Err(QuickexError::NotInitialized))
        } else if self.admin != Some(caller) {
            (self, Err(QuickexError::Unauthorized))
        } else {
            (
                StateView {
                    paused: new_state,
                    events: self.events.push(
                        EventView::ContractPaused { paused: new_state, timestamp: now },
                    ),
                    ..self
                },
                Ok(()),
            )
        }
    }

    /// `set_admin(caller, new_admin)`: only the stored administrator may hand
    /// its rights over; on success the old identity keeps no capability.
    pub open spec fn set_admin_t(self, caller: Seq<u8>, new_admin: Seq<u8>, now: u64) -> (StateView,
    Result<(), QuickexError>) {
        if self.admin is None {
            (self, Err(QuickexError::NotInitialized))
        } else if self.admin != Some(caller) {
            (self, Err(QuickexError::Unauthorized))
        } else {
            (
                StateView {
                    admin: Some(new_admin),
                    events: self.events.push(
                        EventView::AdminChanged {
                            old_admin: caller,
                            new_admin: new_admin,
                            timestamp: now,
                        },
                    ),
                    ..self
                },
                Ok(()),
            )
        }
    }

    /// `set_privacy(owner, enabled)`: unconditionally authorized; overwrites
    /// or creates the entry and always succeeds.
    pub open spec fn set_privacy_t(self, owner: Seq<u8>, enabled: bool, now: u64) -> StateView {
        StateView {
            privacy: self.privacy.insert(owner, enabled),
            events: self.events.push(
                EventView::PrivacyToggled { owner: owner, enabled: enabled, timestamp: now },
            ),
            ..self
        }
    }
}

} // verus!
