//! Prompt cache breakpoints.
use vstd::prelude::*;

verus! {

/// How long a cached prompt lives.
#[derive(Debug, Clone, Copy, PartialEq, Eq, Structural)]
pub enum CacheTtl {
    /// Five minutes.
    Ephemeral5m,
    /// One hour.
    Ephemeral1h,
}

impl Default for CacheTtl {
    fn default() -> (r: Self)
        ensures
            r == CacheTtl::Ephemeral5m,
    {
        CacheTtl::Ephemeral5m
    }
}

/// A cache breakpoint behind a block.
#[derive(Debug, Clone, Copy, PartialEq, Eq, Structural)]
pub struct CacheControl {
    pub ttl: CacheTtl,
    /// The order in which several breakpoints are set: the lowest comes last.
    pub breakpoint_priority: u8,
}

impl Default for CacheControl {
    fn default() -> (r: Self)
        ensures
            r == (CacheControl { ttl: CacheTtl::Ephemeral5m, breakpoint_priority: 0 }),
    {
        CacheControl { ttl: CacheTtl::default(), breakpoint_priority: 0 }
    }
}

impl CacheControl {
    /// A breakpoint for five minutes.
    pub fn ephemeral() -> (r: Self)
        ensures
            r == (CacheControl { ttl: CacheTtl::Ephemeral5m, breakpoint_priority: 0 }),
    {
        CacheControl::default()
    }

    /// A breakpoint for one hour.
    pub fn ephemeral_1h() -> (r: Self)
        ensures
            r == (CacheControl { ttl: CacheTtl::Ephemeral1h, breakpoint_priority: 0 }),
    {
        CacheControl { ttl: CacheTtl::Ephemeral1h, breakpoint_priority: 0 }
    }
}

} // verus!
