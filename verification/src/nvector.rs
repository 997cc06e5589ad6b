//! Serial vectors of the native library, as this crate sees them.
use crate::handle::{NVector, SunContext};
use crate::native::NativeCall;
use crate::Realtype;
use std::ops::{Deref, DerefMut};
use vstd::prelude::*;

verus! {

/// A sundials `N_Vector_Serial` of `SIZE` components.
///
/// The buffer belongs to the native library. What is held here is the
/// handle by which the library knows the vector, and the components the
/// buffer holds, in order.
#[derive(Debug)]
pub struct NVectorSerial<const SIZE: usize> {
    raw: NVector,
    inner: [Realtype; SIZE],
}

impl<const SIZE: usize> View for NVectorSerial<SIZE> {
    type V = Seq<Realtype>;

    /// The components, in order.
    closed spec fn view(&self) -> Seq<Realtype> {
        self.inner@
    }
}

impl<const SIZE: usize> NVectorSerial<SIZE> {
    /// The handle by which the native library knows this vector.
    pub closed spec fn raw(&self) -> NVector {
        self.raw
    }

    /// A vector has as many components as its type says, and never another
    /// number.
    pub proof fn lemma_len(&self)
        ensures
            self@.len() == SIZE,
    {
    }

    /// The handle by which the native library knows this vector.
    pub fn as_raw(&self) -> (r: NVector)
        ensures
            r == self.raw(),
    {
        self.raw
    }

    /// Returns a reference to the inner slice of the vector.
    pub fn as_slice(&self) -> (r: &[Realtype; SIZE])
        ensures
            r@ == self@,
    {
        &self.inner
    }

    /// Returns a mutable reference to the inner slice of the vector.
    /// What is written through it becomes the vector's components; the
    /// handle stays.
    pub fn as_slice_mut(&mut self) -> (r: &mut [Realtype; SIZE])
        ensures
            r@ == old(self)@,
            final(self)@ == final(r)@,
            final(self).raw() == old(self).raw(),
    {
        &mut self.inner
    }
}

/// The array of `SIZE` components that are all zero.
pub open spec fn zeros<const SIZE: usize>() -> [Realtype; SIZE] {
    vstd::array::spec_array_fill_for_copy_type::<Realtype, SIZE>(0)
}

/// An owning pointer to a sundials [`NVectorSerial`] on the heap.
#[derive(Debug)]
pub struct NVectorSerialHeapAllocated<const SIZE: usize> {
    inner: Box<NVectorSerial<SIZE>>,
    context: SunContext,
}

impl<const SIZE: usize> View for NVectorSerialHeapAllocated<SIZE> {
    type V = Seq<Realtype>;

    /// The components, in order.
    open spec fn view(&self) -> Seq<Realtype> {
        self.vector()@
    }
}

impl<const SIZE: usize> Deref for NVectorSerialHeapAllocated<SIZE> {
    type Target = NVectorSerial<SIZE>;

    fn deref(&self) -> (r: &Self::Target)
        ensures
            *r == self.vector(),
    {
        &*self.inner
    }
}

impl<const SIZE: usize> DerefMut for NVectorSerialHeapAllocated<SIZE> {
    fn deref_mut(&mut self) -> (r: &mut Self::Target)
        ensures
            *r == old(self).vector(),
            final(self).vector() == *final(r),
            final(self).context() == old(self).context(),
    {
        &mut *self.inner
    }
}

impl<const SIZE: usize> NVectorSerialHeapAllocated<SIZE> {
    /// The vector that is owned.
    pub closed spec fn vector(&self) -> NVectorSerial<SIZE> {
        *self.inner
    }

    /// The context under which the vector was allocated.
    pub closed spec fn spec_context(&self) -> SunContext {
        self.context
    }

    /// The handle by which the native library knows the vector.
    pub open spec fn raw(&self) -> NVector {
        self.vector().raw()
    }

    /// The owned vector that the native library allocated under `context`
    /// and knows as `raw`, with the components `data`.
    pub closed spec fn from_parts(data: [Realtype; SIZE], context: SunContext, raw: NVector) -> Self {
        NVectorSerialHeapAllocated { inner: Box::new(NVectorSerial { raw, inner: data }), context }
    }

    /// The owned vector is made of its parts: it has the components, the
    /// context and the handle that it was made from, and as many components
    /// as its type says.
    pub broadcast proof fn lemma_from_parts(data: [Realtype; SIZE], context: SunContext, raw: NVector)
        ensures
            (#[trigger] Self::from_parts(data, context, raw))@ == data@,
            Self::from_parts(data, context, raw).raw() == raw,
            Self::from_parts(data, context, raw).context() == context,
            Self::from_parts(data, context, raw)@.len() == SIZE,
    {
    }

    /// Takes over the vector that the native library allocated under
    /// `context` and knows as `raw`. Creates a new vector, filled with 0.
    pub fn new(context: SunContext, raw: NVector) -> (r: Self)
        ensures
            r == Self::from_parts(zeros::<SIZE>(), context, raw),
            r@ == Seq::new(SIZE as nat, |i: int| 0u64),
            r.raw() == raw,
            r.context() == context,
    {
        let data: [Realtype; SIZE] = [0u64; SIZE];
        proof {
            broadcast use vstd::array::group_array_axioms;

        }
        let r = Self { inner: Box::new(NVectorSerial { raw, inner: data }), context };
        assert(r@ =~= Seq::new(SIZE as nat, |i: int| 0u64));
        r
    }

    /// Takes over the vector that the native library allocated under
    /// `context` and knows as `raw`. Creates a new vector, filled with data
    /// from `data`.
    pub fn new_from(data: &[Realtype; SIZE], context: SunContext, raw: NVector) -> (r: Self)
        ensures
            r == Self::from_parts(*data, context, raw),
            r@ == data@,
            r.raw() == raw,
            r.context() == context,
    {
        Self { inner: Box::new(NVectorSerial { raw, inner: *data }), context }
    }

    /// The context under which the vector was allocated.
    #[verifier::when_used_as_spec(spec_context)]
    pub fn context(&self) -> (r: SunContext)
        ensures
            r == self.spec_context(),
    {
        self.context
    }

    /// Gives the vector up. Returns the native call that frees it: the one
    /// call that is owed for a vector, which can be asked for once only.
    pub fn destroy(self) -> (call: NativeCall)
        ensures
            call == (NativeCall::DestroyVector { vector: self.raw() }),
    {
        NativeCall::DestroyVector { vector: self.inner.as_raw() }
    }
}

/// Reading back a vector made from `data` gives `data`, component for
/// component: the view of the vector that `new_from` makes is the view
/// that `as_slice` returns, and it holds the `SIZE` components of `data`.
pub proof fn lemma_round_trip<const SIZE: usize>(
    data: [Realtype; SIZE],
    context: SunContext,
    raw: NVector,
)
    ensures
        NVectorSerialHeapAllocated::from_parts(data, context, raw).vector()@ == data@,
        NVectorSerialHeapAllocated::from_parts(data, context, raw)@.len() == SIZE,
        forall|i: int|
            0 <= i < SIZE ==> NVectorSerialHeapAllocated::from_parts(data, context, raw)@[i]
                == #[trigger] data@[i],
{
}

} // verus!
