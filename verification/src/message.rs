//! Response payloads and the errors a dispatched call can report.

use vstd::prelude::*;

use crate::variant::{Variant, VariantView};

verus! {

/// The arguments of a response message, in order. The surrounding transport
/// marshals them onto the wire.
#[derive(Debug, PartialEq)]
pub struct Payload {
    pub args: Vec<Variant>,
}

/// The views of a sequence of values, in order.
pub open spec fn variants_view(s: Seq<Variant>) -> Seq<VariantView> {
    Seq::new(s.len(), |i: int| s[i]@)
}

impl View for Payload {
    type V = Seq<VariantView>;

    open spec fn view(&self) -> Seq<VariantView> {
        variants_view(self.args@)
    }
}

impl Payload {
    /// A response with no arguments.
    pub fn empty() -> (r: Self)
        ensures
            r@ == Seq::<VariantView>::empty(),
    {
        let r = Payload { args: Vec::new() };
        proof {
            assert(r@ =~= Seq::<VariantView>::empty());
        }
        r
    }
}

/// Why a dispatched call produced no response payload.
#[derive(Clone, Copy, Debug, PartialEq, Eq, Structural)]
pub enum DbusError {
    /// The call named an interface or member not registered on the object.
    NotFound,
    /// The call's arguments do not fit the member's signature.
    InvalidArgs,
    /// The member is registered but its behaviour is not implemented.
    Unimplemented,
    /// The inbound message was not a well-formed method call.
    NotSupported,
}

/// The mathematical value of a dispatch outcome: the payload's view on
/// success, the error unchanged.
pub open spec fn outcome_view(r: Result<Payload, DbusError>) -> Result<Seq<VariantView>, DbusError> {
    match r {
        Ok(p) => Ok(p@),
        Err(e) => Err(e),
    }
}

} // verus!
