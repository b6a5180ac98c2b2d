//! Domain events.
//!
//! Successful state transitions append structured notifications to an
//! append-only log held in the contract state. Publishing the log entries to
//! off-chain observers is the hosting boundary's job: emission never fails
//! the operation that produced the entry.

use vstd::prelude::*;

use crate::account::AccountId;

verus! {

/// A privacy flag was written for an account.
#[derive(Debug)]
pub struct PrivacyToggledEvent {
    pub owner: AccountId,
    pub enabled: bool,
    pub timestamp: u64,
}

/// The pause switch was set by the administrator.
#[derive(Debug)]
pub struct ContractPausedEvent {
    pub paused: bool,
    pub timestamp: u64,
}

/// Administrative rights moved from one identity to another.
#[derive(Debug)]
pub struct AdminChangedEvent {
    pub old_admin: AccountId,
    pub new_admin: AccountId,
    pub timestamp: u64,
}

/// One entry of the event log.
#[derive(Debug)]
pub enum QuickexEvent {
    PrivacyToggled(PrivacyToggledEvent),
    ContractPaused(ContractPausedEvent),
    AdminChanged(AdminChangedEvent),
}

/// The mathematical shape of a log entry: identities stand as their bytes.
pub enum EventView {
    PrivacyToggled { owner: Seq<u8>, enabled: bool, timestamp: u64 },
    ContractPaused { paused: bool, timestamp: u64 },
    AdminChanged { old_admin: Seq<u8>, new_admin: Seq<u8>, timestamp: u64 },
}

impl View for QuickexEvent {
    type V = EventView;

    open spec fn view(&self) -> EventView {
        match self {
            QuickexEvent::PrivacyToggled(e) => EventView::PrivacyToggled {
                owner: e.owner@,
                enabled: e.enabled,
                timestamp: e.timestamp,
            },
            QuickexEvent::ContractPaused(e) => EventView::ContractPaused {
                paused: e.paused,
                timestamp: e.timestamp,
            },
            QuickexEvent::AdminChanged(e) => EventView::AdminChanged {
                old_admin: e.old_admin@,
                new_admin: e.new_admin@,
                timestamp: e.timestamp,
            },
        }
    }
}

} // verus!
