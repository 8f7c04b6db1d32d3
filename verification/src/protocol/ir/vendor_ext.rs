//! Fields without a home in the representation itself, in three bags.
//!
//! - `ingress`: what the client's body held besides.
//! - `egress`: what is added for the provider.
//! - `passthrough_safe`: what may be copied verbatim.
use vstd::prelude::*;

use crate::json::{Fields, JsonV};

verus! {

/// The three bags.
#[derive(Debug)]
pub struct VendorExtensions {
    pub ingress: Fields,
    pub egress: Fields,
    pub passthrough_safe: Fields,
}

pub struct VendorV {
    pub ingress: Seq<(Seq<char>, JsonV)>,
    pub egress: Seq<(Seq<char>, JsonV)>,
    pub passthrough_safe: Seq<(Seq<char>, JsonV)>,
}

impl VendorV {
    pub open spec fn none() -> VendorV {
        VendorV { ingress: Seq::empty(), egress: Seq::empty(), passthrough_safe: Seq::empty() }
    }
}

impl View for VendorExtensions {
    type V = VendorV;

    open spec fn view(&self) -> VendorV {
        VendorV {
            ingress: self.ingress@,
            egress: self.egress@,
            passthrough_safe: self.passthrough_safe@,
        }
    }
}

impl Default for VendorExtensions {
    fn default() -> (r: Self)
        ensures
            r@ == VendorV::none(),
    {
        VendorExtensions {
            ingress: Fields::new(),
            egress: Fields::new(),
            passthrough_safe: Fields::new(),
        }
    }
}

impl VendorExtensions {
    /// Whether all three bags are empty.
    pub fn is_empty(&self) -> (r: bool)
        ensures
            r == (self@.ingress.len() == 0 && self@.egress.len() == 0
                && self@.passthrough_safe.len() == 0),
    {
        self.ingress.is_empty() && self.egress.is_empty() && self.passthrough_safe.is_empty()
    }
}

} // verus!
