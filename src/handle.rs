//! Ownership of the engine's two kinds of native resource. A context holds a
//! loaded model; a run state holds the working memory of one transcription
//! and borrows the context it was made from, so the borrow checker refuses
//! any program in which a run state outlives its context.
use vstd::prelude::*;

use crate::error::WhisperError;

verus! {

/// A loaded model: the address of the engine's model memory, never null.
/// Not `Clone`: exactly one value owns a given model.
pub struct ContextHandle {
    addr: usize,
}

/// The working memory of one transcription session, tied to the context it
/// was derived from for as long as it lives. Not `Clone` either; the context
/// is only borrowed, never owned.
pub struct StateHandle<'a> {
    ctx: &'a ContextHandle,
    addr: usize,
}

impl ContextHandle {
    /// The address of the model memory.
    pub closed spec fn addr(&self) -> usize {
        self.addr
    }

    /// A handle holds a model, not a null pointer.
    #[verifier::type_invariant]
    spec fn inv(&self) -> bool {
        self.addr != 0
    }

    /// Takes ownership of what the engine's loader returned: a model, or the
    /// null address by which it reports that loading failed.
    pub fn from_native(addr: usize) -> (r: Result<ContextHandle, WhisperError>)
        ensures
            r is Err <==> addr == 0,
            r matches Err(e) ==> e == WhisperError::InitializationError,
            r matches Ok(c) ==> c.addr() == addr,
    {
        if addr == 0 {
            Err(WhisperError::InitializationError)
        } else {
            Ok(ContextHandle { addr })
        }
    }

    /// The address to hand to the engine's functions on this model.
    pub fn native(&self) -> (r: usize)
        ensures
            r == self.addr(),
            r != 0,
    {
        proof {
            use_type_invariant(self);
        }
        self.addr
    }

    /// Takes ownership of what the engine's state allocator returned for this
    /// context: a run state bound to it, or the null address by which it
    /// reports that allocation failed.
    pub fn create_state(&self, addr: usize) -> (r: Result<StateHandle<'_>, WhisperError>)
        ensures
            r is Err <==> addr == 0,
            r matches Err(e) ==> e == WhisperError::InitializationError,
            r matches Ok(s) ==> s.addr() == addr && s.context() == self,
    {
        if addr == 0 {
            Err(WhisperError::InitializationError)
        } else {
            Ok(StateHandle { ctx: self, addr })
        }
    }
}

impl<'a> StateHandle<'a> {
    /// The address of the session memory.
    pub closed spec fn addr(&self) -> usize {
        self.addr
    }

    /// The context this run state was derived from.
    pub closed spec fn context(&self) -> &'a ContextHandle {
        self.ctx
    }

    /// A run state holds session memory.
    #[verifier::type_invariant]
    spec fn inv(&self) -> bool {
        self.addr != 0
    }

    /// The address to hand to the engine's functions on this session.
    pub fn native(&self) -> (r: usize)
        ensures
            r == self.addr(),
            r != 0,
    {
        proof {
            use_type_invariant(self);
        }
        self.addr
    }

    /// The context this run state borrows.
    pub fn context_handle(&self) -> (r: &'a ContextHandle)
        ensures
            r == self.context(),
    {
        self.ctx
    }
}

} // verus!
