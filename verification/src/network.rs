//! The example backend the dispatcher serves: a ping and a counter.

use vstd::prelude::*;

verus! {

/// A mock network backend holding a counter.
#[derive(Debug)]
pub struct ObjNetwork {
    c: u32,
}

impl ObjNetwork {
    /// The counter's current reading.
    pub closed spec fn counter(self) -> u32 {
        self.c
    }

    /// A fresh backend with the counter at zero.
    pub fn new() -> (r: Self)
        ensures
            r.counter() == 0,
    {
        Self { c: 0 }
    }

    /// Liveness probe; always answers `"pong"`.
    pub fn ping(&self) -> (r: String)
        ensures
            r@ == "pong"@,
    {
        "pong".to_owned()
    }

    /// The counter's value.
    pub fn get(&self) -> (r: u32)
        ensures
            r == self.counter(),
    {
        self.c
    }

    /// Advances the counter by one.
    pub fn inc(&mut self)
        requires
            old(self).counter() < u32::MAX,
        ensures
            final(self).counter() == old(self).counter() + 1,
    {
        self.c = self.c + 1;
    }
}

} // verus!
