//! The per-account privacy registry.
//!
//! The registry is kept as a journal of writes: `set_privacy` appends, and a
//! read takes the newest entry for the account. The model of the journal is
//! the map [`entries_map`], in which later entries shadow earlier ones; an
//! account outside the map reads as disabled. Any caller may set any
//! account's flag: the source behaviour has no ownership check here, unlike
//! the admin path.

use vstd::prelude::*;

use crate::account::AccountId;
use crate::errors::QuickexError;
use crate::events::EventView;
use crate::events::PrivacyToggledEvent;
use crate::events::QuickexEvent;
use crate::state::StateView;
use crate::QuickexContract;

verus! {

/// One journal entry of the privacy registry.
#[derive(Debug)]
pub struct PrivacyEntry {
    pub account: AccountId,
    pub enabled: bool,
}

/// The registry that a journal denotes: the newest write for an account is
/// authoritative.
pub open spec fn entries_map(entries: Seq<PrivacyEntry>) -> Map<Seq<u8>, bool>
    decreases entries.len(),
{
    if entries.len() == 0 {
        Map::empty()
    } else {
        entries_map(entries.drop_last()).insert(
            entries.last().account@,
            entries.last().enabled,
        )
    }
}

/// The flag that a journal stores for `owner`, disabled when absent.
pub open spec fn entries_lookup(entries: Seq<PrivacyEntry>, owner: Seq<u8>) -> bool {
    if entries_map(entries).contains_key(owner) {
        entries_map(entries)[owner]
    } else {
        false
    }
}

impl QuickexContract {
    /// Enable or disable privacy for an account. Unconditionally authorized
    /// and always succeeds; overwrites any earlier flag and emits a
    /// privacy-toggled event stamped `now`.
    pub fn set_privacy(&mut self, owner: AccountId, enabled: bool, now: u64) -> (r: Result<
        (),
        QuickexError,
    >)
        ensures
            final(self)@ == old(self)@.set_privacy_t(owner@, enabled, now),
            r == Ok::<(), QuickexError>(()),
    {
        let ghost owner_v = owner@;
        let entry_account = owner.clone();
        self.privacy.push(PrivacyEntry { account: entry_account, enabled });
        self.events.push(
            QuickexEvent::PrivacyToggled(PrivacyToggledEvent { owner, enabled, timestamp: now }),
        );
        proof {
            assert(self.privacy@.drop_last() =~= old(self).privacy@);
            assert(entries_map(self.privacy@) == entries_map(old(self).privacy@).insert(
                owner_v,
                enabled,
            ));
            assert(self.events@.map_values(|e: QuickexEvent| e@) =~= old(self).events@.map_values(
                |e: QuickexEvent| e@,
            ).push(EventView::PrivacyToggled { owner: owner_v, enabled, timestamp: now }));
        }
        Ok(())
    }

    /// Read the stored privacy flag of an account; disabled when no write
    /// for it exists. A pure read: always succeeds.
    pub fn get_privacy(&self, owner: &AccountId) -> (r: bool)
        ensures
            r == self@.privacy_of(owner@),
    {
        proof {
            assert(self.privacy@.take(self.privacy@.len() as int) =~= self.privacy@);
        }
        let mut i: usize = self.privacy.len();
        while i > 0
            invariant
                i <= self.privacy.len(),
                entries_lookup(self.privacy@, owner@) == entries_lookup(
                    self.privacy@.take(i as int),
                    owner@,
                ),
            decreases i,
        {
            let j: usize = i - 1;
            proof {
                assert(self.privacy@.take(j as int + 1).drop_last() =~= self.privacy@.take(
                    j as int,
                ));
                assert(self.privacy@.take(j as int + 1).last() == self.privacy@[j as int]);
            }
            if self.privacy[j].account == *owner {
                return self.privacy[j].enabled;
            }
            i = j;
        }
        proof {
            assert(self.privacy@.take(0) =~= Seq::<PrivacyEntry>::empty());
        }
        false
    }
}

/// Law: before any write, a fresh account's privacy flag reads as disabled.
pub proof fn lemma_privacy_default(account: Seq<u8>)
    ensures
        !StateView::initial().privacy_of(account),
{
}

/// Law: a privacy write is read back exactly — toggling an account to
/// enabled and then to disabled returns it to disabled — and a write for one
/// account leaves every other account's flag as it was.
pub proof fn lemma_privacy_toggle(s: StateView, owner: Seq<u8>, t1: u64, t2: u64)
    ensures
        s.set_privacy_t(owner, true, t1).privacy_of(owner),
        !s.set_privacy_t(owner, true, t1).set_privacy_t(owner, false, t2).privacy_of(owner),
        forall|other: Seq<u8>|
            other != owner ==> s.set_privacy_t(owner, true, t1).privacy_of(other) == s.privacy_of(
                other,
            ),
{
}

} // verus!
