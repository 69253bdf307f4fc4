//! Allowlist entries: one record for each wallet that the authority of a
//! token has ever approved.

use crate::identity::Identity;
use vstd::prelude::*;

verus! {

/// The record of one wallet on the allowlist of one token.
///
/// An entry comes into being with the wallet's first approval and is never
/// deleted: a revocation clears the flag and notes when it happened, a later
/// approval sets the flag again and leaves that note in place.
#[derive(Clone, Copy, Debug, PartialEq, Eq)]
pub struct AllowlistEntry {
    pub wallet: Identity,
    /// Whether the wallet may hold, receive and send the token right now.
    pub is_approved: bool,
    /// When the wallet was last approved.
    pub approved_at: i64,
    /// When the wallet was last revoked, if it ever was.
    pub revoked_at: Option<i64>,
    /// The bump seed of the slot that holds this record.
    pub bump: u8,
}

impl AllowlistEntry {
    /// The invariant of an entry: entries start out approved, so one that is
    /// not approved has been revoked and says when.
    pub open spec fn well_formed(self) -> bool {
        !self.is_approved ==> self.revoked_at is Some
    }

    /// The entry of `wallet` after an approval at `now`, given what its slot
    /// held before: the flag is set and the time of approval is `now`; the
    /// time of an earlier revocation stays.
    pub open spec fn approved(
        slot: Option<AllowlistEntry>,
        wallet: Identity,
        now: i64,
        bump: u8,
    ) -> AllowlistEntry {
        AllowlistEntry {
            wallet,
            is_approved: true,
            approved_at: now,
            revoked_at: match slot {
                Some(entry) => entry.revoked_at,
                None => None,
            },
            bump,
        }
    }

    /// This entry after a revocation at `now`: the flag is cleared and the
    /// time of revocation is `now`; the rest stays.
    pub open spec fn revoked(self, now: i64) -> AllowlistEntry {
        AllowlistEntry { is_approved: false, revoked_at: Some(now), ..self }
    }

    /// Whether this record keeps the invariant of an entry. A record that
    /// does not is no entry: a slot that was made and never written holds one.
    pub fn is_well_formed(&self) -> (yes: bool)
        ensures
            yes == self.well_formed(),
    {
        self.is_approved || self.revoked_at.is_some()
    }

    /// Approves `wallet` at `now`: makes its entry if `slot` is empty, else
    /// renews the entry that is there.
    pub fn approve(
        slot: Option<AllowlistEntry>,
        wallet: Identity,
        now: i64,
        bump: u8,
    ) -> (entry: AllowlistEntry)
        ensures
            entry == AllowlistEntry::approved(slot, wallet, now, bump),
            entry.well_formed(),
    {
        let revoked_at = match slot {
            Some(before) => before.revoked_at,
            None => None,
        };
        AllowlistEntry { wallet, is_approved: true, approved_at: now, revoked_at, bump }
    }

    /// Revokes the wallet of this entry at `now`.
    pub fn revoke(&mut self, now: i64)
        ensures
            *final(self) == old(self).revoked(now),
            final(self).well_formed(),
    {
        self.is_approved = false;
        self.revoked_at = Some(now);
    }
}

} // verus!
