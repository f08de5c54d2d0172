//! The handle by which a caller refers to its sector builder.

use vstd::prelude::*;

verus! {

/// A reference to a sector builder that lives on the other side of this
/// layer. The layer stores the handle and hands it on; it never looks at
/// what the handle refers to, and never releases it.
///
/// The view of a handle is the address it carries; the null handle carries
/// zero.
#[derive(Clone, Copy, Debug, PartialEq, Eq, Structural)]
pub struct SectorBuilderHandle {
    addr: usize,
}

impl View for SectorBuilderHandle {
    type V = usize;

    closed spec fn view(&self) -> usize {
        self.addr
    }
}

impl SectorBuilderHandle {
    /// The handle that refers to nothing.
    pub fn null() -> (handle: SectorBuilderHandle)
        ensures
            handle@ == 0,
    {
        SectorBuilderHandle { addr: 0 }
    }

    /// The handle for the builder at `addr`.
    pub fn from_addr(addr: usize) -> (handle: SectorBuilderHandle)
        ensures
            handle@ == addr,
    {
        SectorBuilderHandle { addr }
    }

    /// The address that the handle carries.
    pub fn addr(&self) -> (addr: usize)
        ensures
            addr == self@,
    {
        self.addr
    }

    /// Whether the handle refers to nothing.
    pub fn is_null(&self) -> (null: bool)
        ensures
            null <==> self@ == 0,
    {
        self.addr == 0
    }
}

/// Two handles with one address are one handle.
pub proof fn lemma_handle_is_its_address(a: SectorBuilderHandle, b: SectorBuilderHandle)
    requires
        a@ == b@,
    ensures
        a == b,
{
}

} // verus!
