//! Token counts.
use vstd::prelude::*;

use crate::protocol::types::ServerToolUsage;

verus! {

/// Token counts of a response.
#[derive(Debug, Clone, Copy, PartialEq, Eq, Structural)]
pub struct Usage {
    pub prompt_tokens: u32,
    pub completion_tokens: u32,
    pub total_tokens: u32,
    pub cache_read_tokens: Option<u32>,
    pub cache_creation_tokens: Option<u32>,
    pub server_tool_use: Option<ServerToolUsage>,
}

impl Usage {
    /// No tokens.
    pub open spec fn zero() -> Usage {
        Usage {
            prompt_tokens: 0,
            completion_tokens: 0,
            total_tokens: 0,
            cache_read_tokens: None,
            cache_creation_tokens: None,
            server_tool_use: None,
        }
    }

    /// The prompt and completion tokens together.
    pub open spec fn sum(self) -> u64 {
        (self.prompt_tokens + self.completion_tokens) as u64
    }

    /// The prompt and completion tokens together.
    pub fn total(&self) -> (r: u64)
        ensures
            r == self.sum(),
            r == self.prompt_tokens + self.completion_tokens,
    {
        self.prompt_tokens as u64 + self.completion_tokens as u64
    }
}

impl Default for Usage {
    fn default() -> (r: Self)
        ensures
            r == Usage::zero(),
    {
        Usage {
            prompt_tokens: 0,
            completion_tokens: 0,
            total_tokens: 0,
            cache_read_tokens: None,
            cache_creation_tokens: None,
            server_tool_use: None,
        }
    }
}

} // verus!
