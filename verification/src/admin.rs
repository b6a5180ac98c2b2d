//! The admin/pause state machine.
//!
//! A singleton administrator record is created exactly once by `initialize`
//! and never deleted. Every privileged write re-checks the caller against the
//! stored administrator — the capability is never cached — and a failing
//! check returns a distinct error kind and leaves the state untouched.

use vstd::prelude::*;

use crate::account::AccountId;
use crate::errors::QuickexError;
use crate::events::AdminChangedEvent;
use crate::events::ContractPausedEvent;
use crate::events::EventView;
use crate::events::QuickexEvent;
use crate::state::StateView;
use crate::QuickexContract;

verus! {

impl QuickexContract {
    /// One-time bootstrap: record `admin` as the administrator, unpaused.
    /// The caller's identity is not validated against anything — no
    /// administrator exists yet. Fails with `AlreadyInitialized`, changing
    /// nothing, when the record already exists.
    pub fn initialize(&mut self, admin: AccountId) -> (r: Result<(), QuickexError>)
        ensures
            final(self)@ == old(self)@.initialize_t(admin@).0,
            r == old(self)@.initialize_t(admin@).1,
    {
        match &self.admin {
            Some(_) => Err(QuickexError::AlreadyInitialized),
            None => {
                self.admin = Some(admin);
                self.paused = false;
                Ok(())
            },
        }
    }

    /// Set the pause switch. Requires an initialized record and a caller
    /// equal to the stored administrator; emits a pause-changed event
    /// stamped `now`. Setting the current value again is legal and re-emits
    /// the event.
    pub fn set_paused(&mut self, caller: &AccountId, new_state: bool, now: u64) -> (r: Result<
        (),
        QuickexError,
    >)
        ensures
            final(self)@ == old(self)@.set_paused_t(caller@, new_state, now).0,
            r == old(self)@.set_paused_t(caller@, new_state, now).1,
    {
        match &self.admin {
            None => Err(QuickexError::NotInitialized),
            Some(stored) => {
                if *stored == *caller {
                    self.paused = new_state;
                    self.events.push(
                        QuickexEvent::ContractPaused(
                            ContractPausedEvent { paused: new_state, timestamp: now },
                        ),
                    );
                    proof {
                        assert(self.events@.map_values(|e: QuickexEvent| e@) =~= old(
                            self,
                        ).events@.map_values(|e: QuickexEvent| e@).push(
                            EventView::ContractPaused { paused: new_state, timestamp: now },
                        ));
                    }
                    Ok(())
                } else {
                    Err(QuickexError::Unauthorized)
                }
            },
        }
    }

    /// Transfer administrative rights. Requires an initialized record and a
    /// caller equal to the stored administrator; on success the former
    /// administrator immediately loses all capability, and an admin-changed
    /// event carrying both identities is emitted, stamped `now`.
    pub fn set_admin(&mut self, caller: &AccountId, new_admin: AccountId, now: u64) -> (r: Result<
        (),
        QuickexError,
    >)
        ensures
            final(self)@ == old(self)@.set_admin_t(caller@, new_admin@, now).0,
            r == old(self)@.set_admin_t(caller@, new_admin@, now).1,
    {
        let ghost new_admin_v = new_admin@;
        match &self.admin {
            None => Err(QuickexError::NotInitialized),
            Some(stored) => {
                if *stored == *caller {
                    let event_old = caller.clone();
                    let event_new = new_admin.clone();
                    self.admin = Some(new_admin);
                    self.events.push(
                        QuickexEvent::AdminChanged(
                            AdminChangedEvent {
                                old_admin: event_old,
                                new_admin: event_new,
                                timestamp: now,
                            },
                        ),
                    );
                    proof {
                        assert(self.events@.map_values(|e: QuickexEvent| e@) =~= old(
                            self,
                        ).events@.map_values(|e: QuickexEvent| e@).push(
                            EventView::AdminChanged {
                                old_admin: caller@,
                                new_admin: new_admin_v,
                                timestamp: now,
                            },
                        ));
                    }
                    Ok(())
                } else {
                    Err(QuickexError::Unauthorized)
                }
            },
        }
    }

    /// Whether the contract is paused. A pure read: a fresh record and a
    /// freshly initialized record both report unpaused.
    pub fn is_paused(&self) -> (r: bool)
        ensures
            r == self@.paused,
    {
        self.paused
    }

    /// The stored administrator, or nothing before initialization. A pure
    /// read.
    pub fn get_admin(&self) -> (r: Option<AccountId>)
        ensures
            r is Some <==> self@.admin is Some,
            r is Some ==> r->0@ == self@.admin->0,
    {
        match &self.admin {
            None => None,
            Some(a) => Some(a.clone()),
        }
    }
}

/// Law: pause toggling is idempotent — the administrator setting the switch
/// to the same value twice succeeds both times and leaves it at that value.
pub proof fn lemma_pause_idempotent(s: StateView, admin: Seq<u8>, t1: u64, t2: u64)
    requires
        s.admin == Some(admin),
    ensures
        ({
            let (s1, r1) = s.set_paused_t(admin, true, t1);
            let (s2, r2) = s1.set_paused_t(admin, true, t2);
            &&& r1 == Ok::<(), QuickexError>(())
            &&& r2 == Ok::<(), QuickexError>(())
            &&& s2.paused
        }),
{
}

/// Law: initialization happens exactly once — the first `initialize`
/// succeeds and records its administrator; a second one fails with
/// `AlreadyInitialized` and changes nothing, so the first administrator is
/// still reported.
pub proof fn lemma_initialize_once(s: StateView, admin1: Seq<u8>, admin2: Seq<u8>)
    requires
        s.admin is None,
    ensures
        ({
            let (s1, r1) = s.initialize_t(admin1);
            let (s2, r2) = s1.initialize_t(admin2);
            &&& r1 == Ok::<(), QuickexError>(())
            &&& s1.admin == Some(admin1)
            &&& r2 == Err::<(), QuickexError>(QuickexError::AlreadyInitialized)
            &&& s2 == s1
        }),
{
}

/// Law: a caller other than the stored administrator cannot pause, unpause
/// or transfer rights — both writes fail with `Unauthorized` and leave the
/// state exactly as it was.
pub proof fn lemma_unauthorized_rejected(
    s: StateView,
    caller: Seq<u8>,
    new_state: bool,
    new_admin: Seq<u8>,
    t: u64,
)
    requires
        s.admin is Some,
        s.admin != Some(caller),
    ensures
        s.set_paused_t(caller, new_state, t) == (s, Err::<(), QuickexError>(
            QuickexError::Unauthorized,
        )),
        s.set_admin_t(caller, new_admin, t) == (s, Err::<(), QuickexError>(
            QuickexError::Unauthorized,
        )),
{
}

/// Law: transferring administrative rights revokes the old capability at
/// once — after the transfer, a pause attempt by the former administrator
/// fails with `Unauthorized` and changes nothing, while the new
/// administrator's pause succeeds.
pub proof fn lemma_admin_transfer_revokes(
    s: StateView,
    admin: Seq<u8>,
    new_admin: Seq<u8>,
    new_state: bool,
    t1: u64,
    t2: u64,
)
    requires
        s.admin == Some(admin),
        admin != new_admin,
    ensures
        ({
            let (s1, r1) = s.set_admin_t(admin, new_admin, t1);
            &&& r1 == Ok::<(), QuickexError>(())
            &&& s1.admin == Some(new_admin)
            &&& s1.set_paused_t(admin, new_state, t2) == (s1, Err::<(), QuickexError>(
                QuickexError::Unauthorized,
            ))
            &&& s1.set_paused_t(new_admin, true, t2).1 == Ok::<(), QuickexError>(())
            &&& s1.set_paused_t(new_admin, true, t2).0.paused
        }),
{
}

} // verus!
