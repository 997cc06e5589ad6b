//! Handles to objects that live on the native side.
use vstd::prelude::*;

verus! {

/// The address of a native object of kind `T`. It is never null.
///
/// A handle says nothing about whether the object is still alive: that is
/// the business of whoever owns the handle.
#[derive(Debug, PartialEq, Eq)]
pub struct Handle<T> {
    addr: usize,
    pointee: core::marker::PhantomData<T>,
}

impl<T> Clone for Handle<T> {
    fn clone(&self) -> (r: Self)
        ensures
            r == *self,
    {
        *self
    }
}

impl<T> Copy for Handle<T> {

}

impl<T> Handle<T> {
    #[verifier::type_invariant]
    spec fn non_null(&self) -> bool {
        self.addr != 0
    }

    /// The address this handle holds.
    pub closed spec fn addr(&self) -> usize {
        self.addr
    }

    /// A handle is well formed when its address is not null. Every handle
    /// that executable code can hold is.
    pub open spec fn wf(&self) -> bool {
        self.addr() != 0
    }

    /// The handle that holds `addr`.
    pub closed spec fn at(addr: usize) -> Self {
        Handle { addr, pointee: core::marker::PhantomData }
    }

    /// Makes a handle from a raw address, unless the address is null.
    pub fn new(ptr: usize) -> (r: Option<Self>)
        ensures
            r == (if ptr == 0 {
                None
            } else {
                Some(Self::at(ptr))
            }),
    {
        if ptr != 0 {
            Some(Handle { addr: ptr, pointee: core::marker::PhantomData })
        } else {
            None
        }
    }

    /// The raw address, to be handed to the native library.
    pub fn as_raw(&self) -> (r: usize)
        ensures
            r == self.addr(),
            self.wf(),
    {
        proof {
            use_type_invariant(self);
        }
        self.addr
    }
}

/// The handle at an address holds that address.
pub broadcast proof fn lemma_handle_at<T>(addr: usize)
    ensures
        (#[trigger] Handle::<T>::at(addr)).addr() == addr,
{
}

/// The native execution context.
#[derive(Debug, Clone, Copy, PartialEq, Eq)]
pub struct SunContextBlock {}

/// The memory block of one CVODE solver.
#[derive(Debug, Clone, Copy, PartialEq, Eq)]
pub struct CvodeMemoryBlock {}

/// A native dense matrix.
#[derive(Debug, Clone, Copy, PartialEq, Eq)]
pub struct SunMatrixBlock {}

/// A native linear solver.
#[derive(Debug, Clone, Copy, PartialEq, Eq)]
pub struct SunLinearSolverBlock {}

/// A native serial vector.
#[derive(Debug, Clone, Copy, PartialEq, Eq)]
pub struct NVectorBlock {}

/// Handle to the native execution context.
pub type SunContext = Handle<SunContextBlock>;

/// Handle to a native dense matrix.
pub type SunMatrix = Handle<SunMatrixBlock>;

/// Handle to a native linear solver.
pub type SunLinearSolver = Handle<SunLinearSolverBlock>;

/// Handle to a native serial vector.
pub type NVector = Handle<NVectorBlock>;

/// Handle to the memory block of a CVODE solver.
#[derive(Debug, Clone, Copy, PartialEq, Eq)]
pub struct CvodeMemoryBlockNonNullPtr {
    ptr: Handle<CvodeMemoryBlock>,
}

impl CvodeMemoryBlockNonNullPtr {
    /// The handle inside.
    pub closed spec fn ptr(&self) -> Handle<CvodeMemoryBlock> {
        self.ptr
    }

    /// The address of the memory block.
    pub open spec fn addr(&self) -> usize {
        self.ptr().addr()
    }

    /// Well formed when the handle inside is.
    pub open spec fn wf(&self) -> bool {
        self.ptr().wf()
    }

    /// The wrapper around `ptr`.
    pub closed spec fn wrapping(ptr: Handle<CvodeMemoryBlock>) -> Self {
        CvodeMemoryBlockNonNullPtr { ptr }
    }

    /// Wraps a handle to a solver's memory block.
    pub fn new(ptr: Handle<CvodeMemoryBlock>) -> (r: Self)
        ensures
            r == Self::wrapping(ptr),
    {
        Self { ptr }
    }

    /// The raw address of the memory block, to be handed to the native library.
    pub fn as_raw(self) -> (r: usize)
        ensures
            r == self.addr(),
            self.wf(),
    {
        self.ptr.as_raw()
    }
}

impl From<Handle<CvodeMemoryBlock>> for CvodeMemoryBlockNonNullPtr {
    fn from(x: Handle<CvodeMemoryBlock>) -> (r: Self) {
        Self::new(x)
    }
}

impl vstd::std_specs::convert::FromSpecImpl<Handle<CvodeMemoryBlock>> for CvodeMemoryBlockNonNullPtr {
    open spec fn obeys_from_spec() -> bool {
        true
    }

    open spec fn from_spec(x: Handle<CvodeMemoryBlock>) -> Self {
        CvodeMemoryBlockNonNullPtr::wrapping(x)
    }
}

/// A wrapper holds the handle it was made around.
pub broadcast proof fn lemma_wrapping(ptr: Handle<CvodeMemoryBlock>)
    ensures
        (#[trigger] CvodeMemoryBlockNonNullPtr::wrapping(ptr)).ptr() == ptr,
{
}

} // verus!
