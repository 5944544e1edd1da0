use vstd::prelude::*;
use crate::state::InstanceState;

verus! {

/// One snapshot of an instance, as fetched by a single describe call.
#[derive(PartialEq, Eq, Clone, Debug)]
pub struct Instance {
    pub state: InstanceState,
    pub public_ipv4: Option<String>,
    pub private_ipv4: Option<String>,
    pub ipv6: Option<String>,
}

/// An optional owned address, borrowed as an optional string slice.
fn borrow_address(a: &Option<String>) -> (r: Option<&str>)
    ensures
        r is Some <==> a is Some,
        r is Some ==> r->0@ == a->0@,
{
    match a {
        Some(s) => Some(s.as_str()),
        None => None,
    }
}

impl Instance {
    pub fn state(&self) -> (r: &InstanceState)
        ensures
            *r == self.state,
    {
        &self.state
    }

    pub fn ipv6_address(&self) -> (r: Option<&str>)
        ensures
            r is Some <==> self.ipv6 is Some,
            r is Some ==> r->0@ == self.ipv6->0@,
    {
        borrow_address(&self.ipv6)
    }

    pub fn ipv4_address_public(&self) -> (r: Option<&str>)
        ensures
            r is Some <==> self.public_ipv4 is Some,
            r is Some ==> r->0@ == self.public_ipv4->0@,
    {
        borrow_address(&self.public_ipv4)
    }

    pub fn ipv4_address_private(&self) -> (r: Option<&str>)
        ensures
            r is Some <==> self.private_ipv4 is Some,
            r is Some ==> r->0@ == self.private_ipv4->0@,
    {
        borrow_address(&self.private_ipv4)
    }
}

} // verus!
