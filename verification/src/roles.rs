//! The role model: an ordered, closed set of privilege levels with a
//! total integer mapping in both directions and an explicit invalid sentinel.

use vstd::prelude::*;

verus! {

/// A privilege level. `INVALID` is a dead-end sentinel for unmapped integers:
/// its ordinal is below every valid ordinal, so it can never satisfy a
/// minimum-role policy, and it is never assigned to a stored user.
#[derive(Clone, Copy, Debug, PartialEq, Eq, Structural)]
pub enum UserRole {
    READER,
    WRITER,
    EDITOR,
    ADMIN,
    INVALID,
}

/// The integer rank of a role, used for minimum-privilege comparisons.
/// Valid roles rank 1 through 4; the sentinel ranks far below them.
pub open spec fn role_ordinal(r: UserRole) -> int {
    match r {
        UserRole::READER => 1,
        UserRole::WRITER => 2,
        UserRole::EDITOR => 3,
        UserRole::ADMIN => 4,
        UserRole::INVALID => -666,
    }
}

pub open spec fn is_valid_role(r: UserRole) -> bool {
    r != UserRole::INVALID
}

/// The inverse mapping: total over all integers, with every integer outside
/// {1, 2, 3, 4} sent to the sentinel.
pub open spec fn spec_role_of_int(n: int) -> UserRole {
    if n == 1 {
        UserRole::READER
    } else if n == 2 {
        UserRole::WRITER
    } else if n == 3 {
        UserRole::EDITOR
    } else if n == 4 {
        UserRole::ADMIN
    } else {
        UserRole::INVALID
    }
}

/// A held role satisfies a required minimum iff its ordinal is at least the
/// requirement's ordinal; equality satisfies (the requirement is a minimum).
pub open spec fn policy_allows(held: UserRole, required: UserRole) -> bool {
    role_ordinal(held) >= role_ordinal(required)
}

impl UserRole {
    pub fn to_int(&self) -> (r: i32)
        ensures
            r as int == role_ordinal(*self),
    {
        match self {
            UserRole::READER => 1,
            UserRole::WRITER => 2,
            UserRole::EDITOR => 3,
            UserRole::ADMIN => 4,
            UserRole::INVALID => -666,
        }
    }

    /// The stable textual name of the role, used in logs and claims only,
    /// never for comparison.
    pub fn name(&self) -> (r: &'static str)
        ensures
            r@ == spec_role_name(*self),
    {
        match self {
            UserRole::READER => "READER",
            UserRole::WRITER => "WRITER",
            UserRole::EDITOR => "EDITOR",
            UserRole::ADMIN => "ADMIN",
            UserRole::INVALID => "INVALID",
        }
    }
}

pub open spec fn spec_role_name(r: UserRole) -> Seq<char> {
    match r {
        UserRole::READER => "READER"@,
        UserRole::WRITER => "WRITER"@,
        UserRole::EDITOR => "EDITOR"@,
        UserRole::ADMIN => "ADMIN"@,
        UserRole::INVALID => "INVALID"@,
    }
}

pub fn int_to_user_role(role_id: i32) -> (r: UserRole)
    ensures
        r == spec_role_of_int(role_id as int),
{
    match role_id {
        1 => UserRole::READER,
        2 => UserRole::WRITER,
        3 => UserRole::EDITOR,
        4 => UserRole::ADMIN,
        _ => UserRole::INVALID,
    }
}

/// Round trip law: every integer in {1, 2, 3, 4} survives the mapping to a
/// role and back to its ordinal; every other integer maps to the sentinel,
/// whose ordinal lies strictly below every valid ordinal.
pub proof fn lemma_role_int_round_trip(n: int)
    ensures
        1 <= n <= 4 ==> role_ordinal(spec_role_of_int(n)) == n,
        !(1 <= n <= 4) ==> spec_role_of_int(n) == UserRole::INVALID,
        role_ordinal(UserRole::INVALID) < 1,
{
}

/// Reflexivity of the policy: a role always satisfies itself as a minimum.
pub proof fn lemma_policy_reflexive(r: UserRole)
    ensures
        policy_allows(r, r),
{
}

/// The sentinel never satisfies any valid requirement.
pub proof fn lemma_invalid_never_authorized(required: UserRole)
    requires
        is_valid_role(required),
    ensures
        !policy_allows(UserRole::INVALID, required),
{
}

} // verus!
