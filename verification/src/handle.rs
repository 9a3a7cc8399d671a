//! The two kinds of handle that meet at the boundary.

use vstd::prelude::*;

verus! {

/// Whether a reference to an object of the runtime belongs to its holder.
#[derive(Clone, Copy, Debug, PartialEq, Eq, Structural)]
pub enum Ownership {
    /// The reference is lent for the length of one call. The holder must not
    /// release it.
    Borrowed,
    /// The reference is a new one that the holder must hand on or release.
    Owned,
}

/// A reference to an object on the runtime's heap, known by its address.
#[derive(Clone, Copy, Debug, PartialEq, Eq, Structural)]
pub struct ForeignHandle {
    /// The address of the object.
    pub addr: usize,
    /// Whether the reference belongs to its holder.
    pub ownership: Ownership,
}

impl ForeignHandle {
    /// A reference lent by the runtime to the object at `addr`.
    pub fn borrowed(addr: usize) -> (handle: Self)
        ensures
            handle == (ForeignHandle { addr, ownership: Ownership::Borrowed }),
    {
        ForeignHandle { addr, ownership: Ownership::Borrowed }
    }

    /// A new reference to the object at `addr`, which the holder owns.
    pub fn owned(addr: usize) -> (handle: Self)
        ensures
            handle == (ForeignHandle { addr, ownership: Ownership::Owned }),
    {
        ForeignHandle { addr, ownership: Ownership::Owned }
    }
}

/// A tensor of the native engine, known by the address of the engine's
/// handle. Shape, element type, device and data stay inside the engine.
#[derive(Debug, PartialEq, Eq, Structural)]
pub struct Tensor {
    /// The address of the engine's handle.
    pub c_tensor: usize,
}

impl Tensor {
    /// The tensor behind the engine's handle at `c_tensor`.
    pub fn from_ptr(c_tensor: usize) -> (tensor: Self)
        ensures
            tensor.c_tensor == c_tensor,
    {
        Tensor { c_tensor }
    }

    /// The address of the engine's handle.
    pub fn as_ptr(&self) -> (addr: usize)
        ensures
            addr == self.c_tensor,
    {
        self.c_tensor
    }
}

} // verus!
