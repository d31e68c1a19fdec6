//! The callback capsule: what a timer is asked to call, and who owns it.
//!
//! A capsule is known here by addresses alone. A plain function is the address of
//! its code; a closure is the heap block it was moved to, described by a data
//! address and the address of its method table.

use vstd::prelude::*;

verus! {

/// The two words that describe a heap-allocated closure.
#[derive(Clone, Copy, PartialEq, Eq, Debug, Structural)]
pub struct FatPtr {
    pub ptr: usize,
    pub vtable: usize,
}

impl FatPtr {
    /// Whether both words are zero.
    pub open spec fn null_spec(&self) -> bool {
        self.ptr == 0 && self.vtable == 0
    }

    /// The description of no closure at all.
    pub fn null() -> (fat: Self)
        ensures
            fat == (FatPtr { ptr: 0, vtable: 0 }),
            fat.null_spec(),
    {
        FatPtr { ptr: 0, vtable: 0 }
    }

    /// Tells whether this describes no closure.
    #[verifier::when_used_as_spec(null_spec)]
    pub fn is_null(&self) -> (null: bool)
        ensures
            null == self.null_spec(),
    {
        self.ptr == 0 && self.vtable == 0
    }
}

/// The slot that owns a heap-allocated closure, or nothing when it is null.
#[derive(PartialEq, Eq, Debug)]
pub struct BoxFnPtr(pub FatPtr);

impl BoxFnPtr {
    /// Whether the slot owns nothing.
    pub open spec fn null_spec(&self) -> bool {
        self.0.null_spec()
    }

    /// The slot that owns nothing.
    pub fn null() -> (slot: Self)
        ensures
            slot.0 == (FatPtr { ptr: 0, vtable: 0 }),
            slot.null_spec(),
    {
        BoxFnPtr(FatPtr::null())
    }

    /// Tells whether the slot owns nothing.
    #[verifier::when_used_as_spec(null_spec)]
    pub fn is_null(&self) -> (null: bool)
        ensures
            null == self.null_spec(),
    {
        self.0.is_null()
    }
}

/// The fixed-signature function that the native timer is given to call. Each
/// recovers one kind of callback from the opaque context.
#[derive(Clone, Copy, PartialEq, Eq, Debug, Structural)]
pub enum Trampoline {
    /// Calls a plain function.
    Plain,
    /// Calls a plain function whose safety the caller vouches for.
    UnsafePlain,
    /// Calls a closure that lives on the heap.
    Closure,
}

/// A callback together with the ownership of whatever it captured.
#[derive(PartialEq, Eq, Debug)]
pub enum Callback {
    /// A plain function, by the address of its code.
    Plain(usize),
    /// A plain unsafe function, by the address of its code.
    UnsafePlain(usize),
    /// A closure on the heap, owned by this capsule.
    Closure(BoxFnPtr),
}

impl Callback {
    /// The trampoline that fits this kind of callback.
    pub open spec fn trampoline_spec(&self) -> Trampoline {
        match self {
            Callback::Plain(_) => Trampoline::Plain,
            Callback::UnsafePlain(_) => Trampoline::UnsafePlain,
            Callback::Closure(_) => Trampoline::Closure,
        }
    }

    /// The opaque context from which the trampoline recovers the callback: the
    /// address of the function, or the data address of the closure.
    pub open spec fn context_spec(&self) -> usize {
        match self {
            Callback::Plain(code) => *code,
            Callback::UnsafePlain(code) => *code,
            Callback::Closure(slot) => slot.0.ptr,
        }
    }

    /// The heap block that this capsule owns; null for a plain function.
    pub open spec fn storage(&self) -> FatPtr {
        match self {
            Callback::Plain(_) => FatPtr { ptr: 0, vtable: 0 },
            Callback::UnsafePlain(_) => FatPtr { ptr: 0, vtable: 0 },
            Callback::Closure(slot) => slot.0,
        }
    }

    /// Creates a callback from a plain function.
    pub fn plain(cb: usize) -> (capsule: Self)
        ensures
            capsule == Callback::Plain(cb),
    {
        Callback::Plain(cb)
    }

    /// Creates a callback from a plain unsafe function.
    pub fn unsafe_plain(cb: usize) -> (capsule: Self)
        ensures
            capsule == Callback::UnsafePlain(cb),
    {
        Callback::UnsafePlain(cb)
    }

    /// Creates a callback from a closure that was moved to the heap block `cb`.
    pub fn closure(cb: FatPtr) -> (capsule: Self)
        ensures
            capsule == Callback::Closure(BoxFnPtr(cb)),
    {
        Callback::Closure(BoxFnPtr(cb))
    }

    /// The trampoline to register for this callback.
    pub fn trampoline(&self) -> (t: Trampoline)
        ensures
            t == self.trampoline_spec(),
    {
        match self {
            Callback::Plain(_) => Trampoline::Plain,
            Callback::UnsafePlain(_) => Trampoline::UnsafePlain,
            Callback::Closure(_) => Trampoline::Closure,
        }
    }

    /// The opaque context to register for this callback.
    pub fn context(&self) -> (data: usize)
        ensures
            data == self.context_spec(),
    {
        match self {
            Callback::Plain(code) => *code,
            Callback::UnsafePlain(code) => *code,
            Callback::Closure(slot) => slot.0.ptr,
        }
    }

    /// Gives up the capsule and hands out the slot that owns its heap block.
    pub fn into_storage(self) -> (slot: BoxFnPtr)
        ensures
            slot.0 == self.storage(),
    {
        match self {
            Callback::Plain(_) => BoxFnPtr::null(),
            Callback::UnsafePlain(_) => BoxFnPtr::null(),
            Callback::Closure(slot) => slot,
        }
    }
}

} // verus!
