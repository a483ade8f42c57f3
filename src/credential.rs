use vstd::prelude::*;

verus! {

/// How the expiry second itself counts when a credential is checked.
#[derive(Debug, Clone, Copy, PartialEq, Eq, Structural)]
pub enum Deadline {
    /// Usable only while the expiry is strictly after the check time.
    Exclusive,
    /// Usable up to and including the expiry second.
    Inclusive,
}

/// A token together with the absolute time, in seconds since the Unix
/// epoch, at which it stops being accepted.
#[derive(Debug)]
pub struct Credential {
    pub value: String,
    pub expires_at: i64,
}

pub open spec fn usable_at(c: Credential, now: int, deadline: Deadline) -> bool {
    match deadline {
        Deadline::Exclusive => now < c.expires_at,
        Deadline::Inclusive => now <= c.expires_at,
    }
}

/// What a slot holding `slot` hands out at time `now`.
pub open spec fn usable_value(slot: Option<Credential>, now: int, deadline: Deadline) -> Option<
    Seq<char>,
> {
    match slot {
        Some(c) => if usable_at(c, now, deadline) {
            Some(c.value@)
        } else {
            None
        },
        None => None,
    }
}

/// The text an optional string holds.
pub open spec fn text_of(r: Option<String>) -> Option<Seq<char>> {
    match r {
        Some(s) => Some(s@),
        None => None,
    }
}

impl Credential {
    /// Whether the credential may still be handed out at `now`.
    pub fn is_usable_at(&self, now: i64, deadline: Deadline) -> (r: bool)
        ensures
            r == usable_at(*self, now as int, deadline),
    {
        match deadline {
            Deadline::Exclusive => now < self.expires_at,
            Deadline::Inclusive => now <= self.expires_at,
        }
    }
}

/// The value a slot hands out at `now`: the stored token while it is usable.
pub fn usable_value_of(slot: &Option<Credential>, now: i64, deadline: Deadline) -> (r: Option<
    String,
>)
    ensures
        text_of(r) == usable_value(*slot, now as int, deadline),
{
    match slot {
        Some(c) => {
            if c.is_usable_at(now, deadline) {
                Some(c.value.clone())
            } else {
                None
            }
        },
        None => None,
    }
}

/// A credential whose expiry is strictly after the check time is handed out
/// as it is stored, whichever way the deadline counts.
pub proof fn lemma_fresh_credential_is_reused(slot: Option<Credential>, now: int, deadline: Deadline)
    requires
        slot is Some,
        now < slot->0.expires_at,
    ensures
        usable_value(slot, now, deadline) == Some(slot->0.value@),
{
}

/// An absent or expired credential is not handed out, so renewal is taken;
/// once the renewed credential, expiring after the check time, is stored, it
/// is the one handed out.
pub proof fn lemma_stale_credential_is_renewed(
    slot: Option<Credential>,
    fresh: Credential,
    now: int,
    deadline: Deadline,
)
    requires
        slot is None || slot->0.expires_at < now || (deadline == Deadline::Exclusive
            && slot->0.expires_at == now),
        now < fresh.expires_at,
    ensures
        usable_value(slot, now, deadline) is None,
        usable_value(Some(fresh), now, deadline) == Some(fresh.value@),
{
}

/// Checks made at any times up to one at which the credential is still
/// usable all hand out the same token.
pub proof fn lemma_reuse_is_idempotent(
    slot: Option<Credential>,
    earlier: int,
    later: int,
    deadline: Deadline,
)
    requires
        earlier <= later,
        usable_value(slot, later, deadline) is Some,
    ensures
        usable_value(slot, earlier, deadline) == usable_value(slot, later, deadline),
{
}

} // verus!
