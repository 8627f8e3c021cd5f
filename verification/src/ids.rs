use vstd::prelude::*;

verus! {

/// Identifier of a toplevel window.
#[derive(Debug, Clone, Copy, PartialEq, Eq, Hash, Structural)]
pub struct WindowId(pub u64);

impl From<u64> for WindowId {
    fn from(raw: u64) -> (id: Self)
        ensures
            id.0 == raw,
    {
        WindowId(raw)
    }
}

impl vstd::std_specs::convert::FromSpecImpl<u64> for WindowId {
    open spec fn obeys_from_spec() -> bool {
        true
    }

    open spec fn from_spec(v: u64) -> WindowId {
        WindowId(v)
    }
}

} // verus!
