//! Identifiers of the operations that authorization is keyed by.

use vstd::prelude::*;

verus! {

/// The identifier of one operation: the service family and the method within
/// it.
#[derive(Clone, Copy, Debug, Eq, PartialEq)]
pub struct ServiceId {
    pub family: &'static str,
    pub method: &'static str,
}

/// The dotted name of an operation.
pub open spec fn dotted_name(id: ServiceId) -> Seq<char> {
    id.family@ + "."@ + id.method@
}

impl ServiceId {
    /// Returns the dotted name, such as `node.power.reboot`.
    pub fn name(&self) -> (name: String)
        ensures
            name@ == dotted_name(*self),
    {
        let mut name: String = self.family.to_owned();
        name.append(".");
        name.append(self.method);
        name
    }
}

} // verus!
