//! The behavioural category of a unit.

use vstd::prelude::*;

verus! {

/// What a unit is for. Given once, when the unit is created, and never changed.
#[derive(Clone, Copy, Debug, PartialEq, Eq, Structural)]
pub enum Role {
    Builder,
    Worker,
}

/// The role owed to the unit created under sequence number `n`.
pub open spec fn role_of_sequence(n: nat) -> Role {
    if n % 2 == 0 {
        Role::Builder
    } else {
        Role::Worker
    }
}

/// Roles alternate with the sequence number: even numbers build, odd ones work.
pub fn role_for_sequence(n: u32) -> (role: Role)
    ensures
        role == role_of_sequence(n as nat),
        (role == Role::Builder) <==> n % 2 == 0,
        (role == Role::Worker) <==> n % 2 == 1,
{
    if n % 2 == 0 {
        Role::Builder
    } else {
        Role::Worker
    }
}

/// The text a unit of this role announces.
pub open spec fn role_label(role: Role) -> Seq<char> {
    match role {
        Role::Builder => "Builder"@,
        Role::Worker => "Worker"@,
    }
}

/// The one-line announcement of a role.
pub fn role_name(role: Role) -> (label: &'static str)
    ensures
        label@ == role_label(role),
{
    match role {
        Role::Builder => "Builder",
        Role::Worker => "Worker",
    }
}

} // verus!
