//! The rules on where tickets may be opened and who may close one.
use vstd::prelude::*;

verus! {

/// Why a ticket may or may not be closed.
#[derive(Clone, Copy, Debug, PartialEq, Eq, Structural)]
pub enum CloseCheck {
    Allowed,
    /// The caller's roles could not be read.
    UnknownMember,
    /// The caller holds none of the moderator roles.
    NoPermission,
    /// The channel is the one where tickets are opened.
    ProtectedChannel,
    /// The channel sits in no category.
    NoCategory,
    /// The channel sits in another category than the ticket category.
    WrongCategory,
}

/// Some role of `member` is one of `moderators`.
pub open spec fn shares_role(member: Seq<u64>, moderators: Seq<u64>) -> bool {
    exists|i: int, j: int| 0 <= i < member.len() && 0 <= j < moderators.len() && member[i] == moderators[j]
}

/// Whether a role of `member` is one of `moderators`.
pub fn has_mod_role(member: &Vec<u64>, moderators: &Vec<u64>) -> (r: bool)
    ensures
        r == shares_role(member@, moderators@),
{
    let mut i: usize = 0;
    while i < member.len()
        invariant
            i <= member@.len(),
            forall|p: int, q: int| 0 <= p < i && 0 <= q < moderators@.len() ==> member@[p] != moderators@[q],
        decreases member@.len() - i,
    {
        let mut j: usize = 0;
        while j < moderators.len()
            invariant
                i < member@.len(),
                j <= moderators@.len(),
                forall|p: int, q: int| 0 <= p < i && 0 <= q < moderators@.len() ==> member@[p] != moderators@[q],
                forall|q: int| 0 <= q < j ==> member@[i as int] != moderators@[q],
            decreases moderators@.len() - j,
        {
            if member[i] == moderators[j] {
                return true;
            }
            j = j + 1;
        }
        i = i + 1;
    }
    false
}

/// Whether a ticket may be opened from `channel`: only from the channel set
/// aside for it.
pub fn may_open_ticket(channel: u64, ticket_channel: u64) -> (r: bool)
    ensures
        r == (channel == ticket_channel),
{
    channel == ticket_channel
}

/// The checks, in order, before closing the ticket channel `channel`, whose
/// category is `parent`, at the request of a member with the roles
/// `member_roles` (`None` when they could not be read).
pub fn check_ticket_close(
    member_roles: Option<&Vec<u64>>,
    moderators: &Vec<u64>,
    channel: u64,
    parent: Option<u64>,
    ticket_channel: u64,
    ticket_category: u64,
) -> (r: CloseCheck)
    ensures
        r == match member_roles {
            None => CloseCheck::UnknownMember,
            Some(roles) => if !shares_role(roles@, moderators@) {
                CloseCheck::NoPermission
            } else if channel == ticket_channel {
                CloseCheck::ProtectedChannel
            } else {
                match parent {
                    None => CloseCheck::NoCategory,
                    Some(p) => if p != ticket_category {
                        CloseCheck::WrongCategory
                    } else {
                        CloseCheck::Allowed
                    },
                }
            },
        },
{
    let roles = match member_roles {
        Some(roles) => roles,
        None => return CloseCheck::UnknownMember,
    };
    if !has_mod_role(roles, moderators) {
        return CloseCheck::NoPermission;
    }
    if channel == ticket_channel {
        return CloseCheck::ProtectedChannel;
    }
    match parent {
        None => CloseCheck::NoCategory,
        Some(p) => if p != ticket_category {
            CloseCheck::WrongCategory
        } else {
            CloseCheck::Allowed
        },
    }
}

} // verus!
