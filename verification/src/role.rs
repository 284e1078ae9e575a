//! The two roles an endpoint can play during one phase, and the rule that
//! assigns complementary role pairs to the two ends of a connection.

use vstd::prelude::*;

verus! {

/// Which half of the duplex exchange an endpoint performs during one phase:
/// it either transmits data or counts what arrives.
#[derive(Clone, Copy, Debug, PartialEq, Eq, Structural)]
pub enum Role {
    Sender,
    Receiver,
}

impl Role {
    /// The opposite role: when one end sends, the other must receive.
    pub open spec fn complement_spec(self) -> Role {
        match self {
            Role::Sender => Role::Receiver,
            Role::Receiver => Role::Sender,
        }
    }

    /// Returns the opposite role.
    pub fn complement(self) -> (r: Role)
        ensures
            r == self.complement_spec(),
    {
        match self {
            Role::Sender => Role::Receiver,
            Role::Receiver => Role::Sender,
        }
    }
}

/// The ordered role pair of the connection-accepting end: receive first,
/// then send.
pub open spec fn accepting_roles_spec() -> (Role, Role) {
    (Role::Receiver, Role::Sender)
}

/// The ordered role pair of the connection-initiating end: send first,
/// then receive.
pub open spec fn initiating_roles_spec() -> (Role, Role) {
    (Role::Sender, Role::Receiver)
}

/// Role pair for the end that accepted the connection.
pub fn roles_for_accepting_side() -> (r: (Role, Role))
    ensures
        r == accepting_roles_spec(),
{
    (Role::Receiver, Role::Sender)
}

/// Role pair for the end that initiated the connection.
pub fn roles_for_initiating_side() -> (r: (Role, Role))
    ensures
        r == initiating_roles_spec(),
{
    (Role::Sender, Role::Receiver)
}

/// Role complementarity: for two paired endpoints the accepting end's first
/// role is the initiating end's second and the other way round, so whenever
/// one side sends the other receives.
pub proof fn lemma_roles_complementary()
    ensures
        accepting_roles_spec().0 == initiating_roles_spec().1,
        accepting_roles_spec().1 == initiating_roles_spec().0,
        accepting_roles_spec().0 == initiating_roles_spec().0.complement_spec(),
        accepting_roles_spec().1 == initiating_roles_spec().1.complement_spec(),
{
}

} // verus!
