//! Launch plans and protocol conversion for LLM coding tools.
use vstd::prelude::*;

pub mod text;
pub mod text_laws;
pub mod cli;
pub mod cli_laws;
pub mod config;
pub mod copilot_proxy;
pub mod fault;
pub mod fresh;
pub mod github_copilot;
pub mod json;
pub mod key_laws;
pub mod keys;
pub mod launch;
pub mod launch_laws;
pub mod model_laws;
pub mod models;
pub mod names;
pub mod order;
pub mod provider;
pub mod proxy_laws;
pub mod reader;
pub mod router;
pub mod slots;
pub mod table;
pub mod protocol;
pub mod views;

verus! {

} // verus!
