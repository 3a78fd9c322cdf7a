//! Interface members: properties, methods and signals, and their
//! introspection XML fragments.

use vstd::prelude::*;
use vstd::string::StringExecFns;

use crate::variant::{spec_signature, Variant};

verus! {

/// What a registered method does when a call is dispatched to it.
///
/// The two standard methods a connection installs on every object are
/// introspection and property aggregation; any other registered method is a
/// declared capability whose behaviour is not implemented yet.
#[derive(Clone, Copy, Debug, PartialEq, Eq, Structural)]
pub enum MethodHandler {
    /// Render the owning object's introspection document and return it as the
    /// sole response argument.
    Introspect,
    /// Aggregate the named interface's properties. Not implemented: after
    /// checking its argument it reports an unimplemented capability.
    GetAllProperties,
    /// A declared method without behaviour; calls report an unimplemented
    /// capability.
    Unimplemented,
}

/// A single exposed member of an interface.
#[derive(Debug, PartialEq)]
pub enum Endpoint {
    /// A typed value. When `variant` is set the member is advertised under
    /// the generic "any" wire type `v` instead of the value's own signature.
    Property { name: String, val: Variant, variant: bool },
    /// A callable member with input and output type signatures.
    Method { name: String, input_sig: String, output_sig: String, method: MethodHandler },
    /// A placeholder for signal members; emission is not implemented.
    Signal,
}

/// The XML element for a property of the given name and advertised type
/// signature.
pub open spec fn spec_render_property(name: Seq<char>, sig: Seq<char>) -> Seq<char> {
    "<property name=\""@ + name + "\" type=\""@ + sig + "\" access=\"read\"></property>"@
}

/// The advertised type signature of a property: the generic `v` when it is
/// variant-typed, else its value's concrete signature.
pub open spec fn spec_property_sig(e: Endpoint) -> Seq<char>
    recommends
        e is Property,
{
    if e->variant {
        "v"@
    } else {
        spec_signature(e->val@)
    }
}

/// The introspection fragment of an endpoint: a property element for a
/// property; methods and signals are not yet emitted and render empty.
pub open spec fn spec_render_endpoint(e: Endpoint) -> Seq<char> {
    match e {
        Endpoint::Property { name, val, variant } => spec_render_property(
            name@,
            spec_property_sig(e),
        ),
        Endpoint::Method { .. } => Seq::empty(),
        Endpoint::Signal => Seq::empty(),
    }
}

impl Endpoint {
    /// The member's introspection XML fragment, per [`spec_render_endpoint`].
    pub fn render(&self) -> (r: String)
        ensures
            r@ == spec_render_endpoint(*self),
    {
        match self {
            Endpoint::Property { name, val, variant } => {
                let mut s = "<property name=\"".to_owned();
                s.append(name.as_str());
                s.append("\" type=\"");
                if *variant {
                    s.append("v");
                } else {
                    let sig = val.signature();
                    s.append(sig.as_str());
                }
                s.append("\" access=\"read\"></property>");
                proof {
                    assert(s@ =~= spec_render_endpoint(*self));
                }
                s
            },
            Endpoint::Method { .. } => String::new(),
            Endpoint::Signal => String::new(),
        }
    }
}

/// A property registered as variant-typed is advertised as `v` whatever its
/// current value holds; registered concrete-typed, it is advertised under its
/// value's own signature.
pub proof fn lemma_property_advertised_type(name: String, val: Variant)
    ensures
        spec_render_endpoint((Endpoint::Property { name, val, variant: true }))
            == spec_render_property(name@, "v"@),
        spec_render_endpoint((Endpoint::Property { name, val, variant: false }))
            == spec_render_property(name@, spec_signature(val@)),
{
}

} // verus!
