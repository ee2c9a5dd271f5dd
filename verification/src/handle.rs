//! Tokens for the engine's two kinds of native resource.
//!
//! A token holds the address that the engine handed out. A null address never
//! becomes a token, so whatever holds one holds a resource.
use vstd::prelude::*;

verus! {

/// A native broker resource.
#[derive(Debug, Clone, Copy, PartialEq, Eq)]
pub struct EnchantBroker {
    addr: usize,
}

/// A native dictionary resource.
#[derive(Debug, Clone, Copy, PartialEq, Eq)]
pub struct EnchantDict {
    addr: usize,
}

impl View for EnchantBroker {
    type V = usize;

    /// The address of the resource.
    closed spec fn view(&self) -> usize {
        self.addr
    }
}

impl View for EnchantDict {
    type V = usize;

    /// The address of the resource.
    closed spec fn view(&self) -> usize {
        self.addr
    }
}

impl EnchantBroker {
    #[verifier::type_invariant]
    spec fn non_null(self) -> bool {
        self.addr != 0
    }

    /// Wraps what the engine returned where a broker was expected: a token,
    /// unless the address is null.
    pub fn from_addr(addr: usize) -> (r: Option<EnchantBroker>)
        ensures
            addr == 0 <==> r is None,
            r matches Some(h) ==> h@ == addr,
    {
        if addr == 0 {
            None
        } else {
            Some(EnchantBroker { addr })
        }
    }

    /// The address to hand back to the engine; never null.
    pub fn addr(&self) -> (a: usize)
        ensures
            a == self@,
            a != 0,
    {
        proof {
            use_type_invariant(self);
        }
        self.addr
    }
}

impl EnchantDict {
    #[verifier::type_invariant]
    spec fn non_null(self) -> bool {
        self.addr != 0
    }

    /// Wraps what the engine returned where a dictionary was expected: a
    /// token, unless the address is null.
    pub fn from_addr(addr: usize) -> (r: Option<EnchantDict>)
        ensures
            addr == 0 <==> r is None,
            r matches Some(h) ==> h@ == addr,
    {
        if addr == 0 {
            None
        } else {
            Some(EnchantDict { addr })
        }
    }

    /// The address to hand back to the engine; never null.
    pub fn addr(&self) -> (a: usize)
        ensures
            a == self@,
            a != 0,
    {
        proof {
            use_type_invariant(self);
        }
        self.addr
    }
}

} // verus!
