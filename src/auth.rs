//! Who may moderate: membership of the configured moderator role.
use vstd::prelude::*;

verus! {

/// Whether a member with these roles holds the moderator role.
pub fn has_auth(roles: &Vec<u64>, auth_role_id: u64) -> (r: bool)
    ensures
        r == roles@.contains(auth_role_id),
{
    let mut i: usize = 0;
    while i < roles.len()
        invariant
            i <= roles.len(),
            forall|j: int| 0 <= j < i ==> roles@[j] != auth_role_id,
        decreases roles.len() - i,
    {
        if roles[i] == auth_role_id {
            return true;
        }
        i = i + 1;
    }
    false
}

} // verus!
