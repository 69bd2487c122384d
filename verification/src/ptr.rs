use core::marker::PhantomData;
use vstd::prelude::*;

verus! {

/// Address of a native object of type `T` in the game's memory.
///
/// A `NativePtr` is never null: a slot that may be empty holds an
/// `Option<NativePtr<T>>`, with `None` for a null pointer. Nothing in this
/// library reads or writes through the address; it is carried as a handle.
pub struct NativePtr<T> {
    addr: usize,
    pointee: PhantomData<T>,
}

impl<T> NativePtr<T> {
    #[verifier::type_invariant]
    spec fn non_null(self) -> bool {
        self.addr != 0
    }

    /// The address this pointer holds.
    pub closed spec fn addr(self) -> usize {
        self.addr
    }

    /// The pointer to `addr`, or `None` for the null address.
    pub fn new(addr: usize) -> (r: Option<Self>)
        ensures
            r is Some <==> addr != 0,
            r matches Some(p) ==> p.addr() == addr,
    {
        if addr == 0 {
            None
        } else {
            Some(NativePtr { addr, pointee: PhantomData })
        }
    }

    /// The address this pointer holds; never zero.
    pub fn address(&self) -> (r: usize)
        ensures
            r == self.addr(),
            r != 0,
    {
        proof {
            use_type_invariant(self);
        }
        self.addr
    }
}

impl<T> Clone for NativePtr<T> {
    /// A second handle to the same address.
    fn clone(&self) -> (r: Self)
        ensures
            r == *self,
    {
        *self
    }
}

impl<T> Copy for NativePtr<T> {
}

} // verus!
