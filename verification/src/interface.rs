//! A named, insertion-ordered collection of endpoints, and its introspection
//! XML fragment.

use vstd::prelude::*;
use vstd::string::StringExecFns;

use crate::endpoint::{spec_render_endpoint, Endpoint, MethodHandler};
use crate::name_map::{inserted, lemma_inserted, map_get, map_put, unique_keys};
use crate::variant::Variant;

verus! {

/// A named interface: endpoints keyed by member name, unique within the
/// interface, kept in order of first registration.
#[derive(Debug)]
pub struct Interface {
    pub interface: String,
    pub dbus_map: Vec<(String, Endpoint)>,
}

/// The concatenation of the XML fragments of the given endpoints, in order.
pub open spec fn spec_render_endpoints(s: Seq<(String, Endpoint)>) -> Seq<char>
    decreases s.len(),
{
    if s.len() == 0 {
        Seq::empty()
    } else {
        spec_render_endpoints(s.drop_last()) + spec_render_endpoint(s.last().1)
    }
}

/// The introspection fragment of an interface: its opening element, each
/// endpoint's fragment in registration order, and the closing element.
pub open spec fn spec_render_interface(i: Interface) -> Seq<char> {
    "<interface name=\""@ + i.interface@ + "\">"@ + spec_render_endpoints(i.dbus_map@)
        + "</interface>"@
}

impl Interface {
    /// Member names are unique within the interface.
    pub open spec fn wf(&self) -> bool {
        unique_keys(self.dbus_map@)
    }

    /// An empty interface under the given name.
    pub fn new(interface: &String) -> (r: Self)
        ensures
            r.interface@ == interface@,
            r.dbus_map@.len() == 0,
            r.wf(),
    {
        Interface { interface: interface.clone(), dbus_map: Vec::new() }
    }

    /// Registers (or overwrites) the method `func_name` with the given input
    /// and output signatures and handler.
    pub fn add_method(
        &mut self,
        func_name: &String,
        input_sig: &String,
        output_sig: &String,
        func: MethodHandler,
    )
        requires
            old(self).wf(),
        ensures
            final(self).wf(),
            final(self).interface == old(self).interface,
            inserted(
                old(self).dbus_map@,
                final(self).dbus_map@,
                func_name@,
                (Endpoint::Method {
                    name: *func_name,
                    input_sig: *input_sig,
                    output_sig: *output_sig,
                    method: func,
                }),
            ),
            map_get(final(self).dbus_map@, func_name@) == Some(
                (Endpoint::Method {
                    name: *func_name,
                    input_sig: *input_sig,
                    output_sig: *output_sig,
                    method: func,
                }),
            ),
            forall|k: Seq<char>|
                k != func_name@ ==> map_get(final(self).dbus_map@, k) == map_get(
                    old(self).dbus_map@,
                    k,
                ),
    {
        let endpoint = Endpoint::Method {
            name: func_name.clone(),
            input_sig: input_sig.clone(),
            output_sig: output_sig.clone(),
            method: func,
        };
        map_put(&mut self.dbus_map, func_name.clone(), endpoint);
        proof {
            lemma_inserted(
                old(self).dbus_map@,
                self.dbus_map@,
                func_name@,
                (Endpoint::Method {
                    name: *func_name,
                    input_sig: *input_sig,
                    output_sig: *output_sig,
                    method: func,
                }),
            );
        }
    }

    /// Registers (or overwrites) the property `property` with the given
    /// default value, advertised under the generic "any" wire type `v`.
    pub fn add_property_variant(&mut self, property: &String, default_value: Variant)
        requires
            old(self).wf(),
        ensures
            final(self).wf(),
            final(self).interface == old(self).interface,
            inserted(
                old(self).dbus_map@,
                final(self).dbus_map@,
                property@,
                (Endpoint::Property { name: *property, val: default_value, variant: true }),
            ),
            map_get(final(self).dbus_map@, property@) == Some(
                (Endpoint::Property { name: *property, val: default_value, variant: true }),
            ),
            forall|k: Seq<char>|
                k != property@ ==> map_get(final(self).dbus_map@, k) == map_get(
                    old(self).dbus_map@,
                    k,
                ),
    {
        let ghost val = default_value;
        let endpoint = Endpoint::Property {
            name: property.clone(),
            val: default_value,
            variant: true,
        };
        map_put(&mut self.dbus_map, property.clone(), endpoint);
        proof {
            lemma_inserted(
                old(self).dbus_map@,
                self.dbus_map@,
                property@,
                (Endpoint::Property { name: *property, val: val, variant: true }),
            );
        }
    }

    /// Registers (or overwrites) the property `property` with the given
    /// default value, advertised under the value's own concrete signature.
    pub fn add_property(&mut self, property: &String, default_value: Variant)
        requires
            old(self).wf(),
        ensures
            final(self).wf(),
            final(self).interface == old(self).interface,
            inserted(
                old(self).dbus_map@,
                final(self).dbus_map@,
                property@,
                (Endpoint::Property { name: *property, val: default_value, variant: false }),
            ),
            map_get(final(self).dbus_map@, property@) == Some(
                (Endpoint::Property { name: *property, val: default_value, variant: false }),
            ),
            forall|k: Seq<char>|
                k != property@ ==> map_get(final(self).dbus_map@, k) == map_get(
                    old(self).dbus_map@,
                    k,
                ),
    {
        let ghost val = default_value;
        let endpoint = Endpoint::Property {
            name: property.clone(),
            val: default_value,
            variant: false,
        };
        map_put(&mut self.dbus_map, property.clone(), endpoint);
        proof {
            lemma_inserted(
                old(self).dbus_map@,
                self.dbus_map@,
                property@,
                (Endpoint::Property { name: *property, val: val, variant: false }),
            );
        }
    }

    /// The interface's introspection XML fragment, per
    /// [`spec_render_interface`].
    pub fn render(&self) -> (r: String)
        ensures
            r@ == spec_render_interface(*self),
    {
        let mut s = "<interface name=\"".to_owned();
        s.append(self.interface.as_str());
        s.append("\">");
        let ghost head = s@;
        proof {
            assert(head + spec_render_endpoints(self.dbus_map@.take(0)) =~= head);
        }
        let mut idx: usize = 0;
        while idx < self.dbus_map.len()
            invariant
                idx <= self.dbus_map@.len(),
                head == "<interface name=\""@ + self.interface@ + "\">"@,
                s@ == head + spec_render_endpoints(self.dbus_map@.take(idx as int)),
            decreases self.dbus_map@.len() - idx,
        {
            let piece = self.dbus_map[idx].1.render();
            s.append(piece.as_str());
            proof {
                let entries = self.dbus_map@;
                assert(entries.take(idx as int + 1).drop_last() =~= entries.take(idx as int));
                assert(entries.take(idx as int + 1).last() == entries[idx as int]);
                assert(s@ =~= head + spec_render_endpoints(entries.take(idx as int + 1)));
            }
            idx += 1;
        }
        s.append("</interface>");
        proof {
            assert(self.dbus_map@.take(self.dbus_map@.len() as int) =~= self.dbus_map@);
            assert(s@ =~= spec_render_interface(*self));
        }
        s
    }
}

} // verus!
