//! A bus object: a path exposing named interfaces, dispatching incoming calls
//! to the right endpoint and rendering its introspection document.

use vstd::prelude::*;
use vstd::string::StringExecFns;

use crate::endpoint::{Endpoint, MethodHandler};
use crate::interface::{spec_render_interface, Interface};
use crate::message::{outcome_view, variants_view, DbusError, Payload};
use crate::name_map::{
    inserted, lemma_inserted, map_find, map_get, map_has, map_index_of, map_put, unique_keys,
};
use crate::variant::{Variant, VariantView};

verus! {

/// An object: a bus path exposing interfaces keyed by name, unique within the
/// object, kept in order of first registration.
#[derive(Debug)]
pub struct Object {
    pub path: String,
    pub interfaces: Vec<(String, Interface)>,
}

/// The concatenation of the XML fragments of the given interfaces, in order.
pub open spec fn spec_render_interfaces(s: Seq<(String, Interface)>) -> Seq<char>
    decreases s.len(),
{
    if s.len() == 0 {
        Seq::empty()
    } else {
        spec_render_interfaces(s.drop_last()) + spec_render_interface(s.last().1)
    }
}

/// The fixed preamble of every introspection document.
pub open spec fn spec_doctype() -> Seq<char> {
    "<!DOCTYPE node PUBLIC \"-//freedesktop//DTD D-BUS Object Introspection 1.0//EN\" \"http://www.freedesktop.org/standards/dbus/1.0/introspect.dtd\"><node>"@
}

/// An object's introspection document: the fixed preamble, each interface's
/// fragment in registration order, and the closing node element.
pub open spec fn spec_render_object(o: Object) -> Seq<char> {
    spec_doctype() + spec_render_interfaces(o.interfaces@) + "</node>"@
}

/// The outcome of a registered method's handler on the given arguments,
/// against the owning object `o`.
pub open spec fn spec_handle(h: MethodHandler, args: Seq<VariantView>, o: Object) -> Result<
    Seq<VariantView>,
    DbusError,
> {
    match h {
        MethodHandler::Introspect => Ok(seq![VariantView::Str(spec_render_object(o))]),
        MethodHandler::GetAllProperties => if args.len() >= 1 && args[0] is Str {
            Err(DbusError::Unimplemented)
        } else {
            Err(DbusError::InvalidArgs)
        },
        MethodHandler::Unimplemented => Err(DbusError::Unimplemented),
    }
}

/// The outcome of invoking an endpoint: a method runs its handler; reads and
/// writes of properties through the generic dispatch path, and signals, are
/// not implemented.
pub open spec fn spec_endpoint_outcome(e: Endpoint, args: Seq<VariantView>, o: Object) -> Result<
    Seq<VariantView>,
    DbusError,
> {
    match e {
        Endpoint::Method { method, .. } => spec_handle(method, args, o),
        _ => Err(DbusError::Unimplemented),
    }
}

/// Dispatch: the interface name is looked up on the object, the member name
/// within that interface, and the matched endpoint is invoked; a miss at
/// either step reports `NotFound`.
pub open spec fn spec_process(
    o: Object,
    args: Seq<VariantView>,
    interface: Seq<char>,
    member: Seq<char>,
) -> Result<Seq<VariantView>, DbusError> {
    match map_get(o.interfaces@, interface) {
        Option::None => Err(DbusError::NotFound),
        Option::Some(intf) => match map_get(intf.dbus_map@, member) {
            Option::None => Err(DbusError::NotFound),
            Option::Some(e) => spec_endpoint_outcome(e, args, o),
        },
    }
}

impl Object {
    /// Interface names are unique within the object and every interface is
    /// well formed.
    pub open spec fn wf(&self) -> bool {
        &&& unique_keys(self.interfaces@)
        &&& forall|i: int|
            0 <= i < self.interfaces@.len() ==> (#[trigger] self.interfaces@[i].1).wf()
    }

    /// An object under the given path, exposing no interfaces yet.
    pub fn new(path: &String) -> (r: Self)
        ensures
            r.path@ == path@,
            r.interfaces@.len() == 0,
            r.wf(),
    {
        Object { path: path.clone(), interfaces: Vec::new() }
    }

    /// Creates (or resets to empty) the interface of the given name and
    /// returns it for further configuration. An interface already registered
    /// under that name is unconditionally replaced.
    pub fn register_interface(&mut self, interface: &String) -> (ret: &mut Interface)
        requires
            old(self).wf(),
        ensures
            ret.interface@ == interface@,
            ret.dbus_map@.len() == 0,
            ret.wf(),
            final(self).path == old(self).path,
            inserted(old(self).interfaces@, final(self).interfaces@, interface@, *final(ret)),
            final(ret).wf() ==> final(self).wf(),
    {
        let fresh = Interface::new(interface);
        let ghost gfresh = fresh;
        let i = map_put(&mut self.interfaces, interface.clone(), fresh);
        proof {
            let m0 = old(self).interfaces@;
            let m1 = self.interfaces@;
            lemma_inserted(m0, m1, interface@, gfresh);
            assert forall|j: int| 0 <= j < m1.len() implies (#[trigger] m1[j].1).wf() by {
                if map_has(m0, interface@) {
                    if j != map_index_of(m0, interface@) {
                        assert(m1[j] == m0[j]);
                    }
                } else {
                    if j < m0.len() {
                        assert(m1[j] == m0[j]);
                    }
                }
            }
        }
        &mut self.interfaces[i].1
    }

    /// The outcome of invoking `endpoint` with the given arguments, per
    /// [`spec_endpoint_outcome`].
    fn handler(&self, args: &Vec<Variant>, endpoint: &Endpoint) -> (r: Result<Payload, DbusError>)
        ensures
            outcome_view(r) == spec_endpoint_outcome(*endpoint, variants_view(args@), *self),
    {
        match endpoint {
            Endpoint::Property { .. } => Err(DbusError::Unimplemented),
            Endpoint::Signal => Err(DbusError::Unimplemented),
            Endpoint::Method { method, .. } => match method {
                MethodHandler::Introspect => {
                    let xml = self.render();
                    let mut out: Vec<Variant> = Vec::new();
                    out.push(Variant::Str(xml));
                    let r = Payload { args: out };
                    proof {
                        assert(r@ =~= seq![VariantView::Str(spec_render_object(*self))]);
                    }
                    Ok(r)
                },
                MethodHandler::GetAllProperties => {
                    if args.len() >= 1 {
                        let first_is_str = match &args[0] {
                            Variant::Str(_) => true,
                            _ => false,
                        };
                        if first_is_str {
                            Err(DbusError::Unimplemented)
                        } else {
                            proof {
                                assert(variants_view(args@)[0] == args@[0]@);
                            }
                            Err(DbusError::InvalidArgs)
                        }
                    } else {
                        Err(DbusError::InvalidArgs)
                    }
                },
                MethodHandler::Unimplemented => Err(DbusError::Unimplemented),
            },
        }
    }

    /// Dispatches a call to the endpoint registered under
    /// (`interface`, `member`), per [`spec_process`]: the matched method's
    /// handler decides the outcome; a miss at either lookup reports
    /// `NotFound`; matched properties and signals report `Unimplemented`.
    pub fn process(&mut self, args: &Vec<Variant>, interface: &str, member: &str) -> (r: Result<
        Payload,
        DbusError,
    >)
        requires
            old(self).wf(),
        ensures
            *final(self) == *old(self),
            outcome_view(r) == spec_process(
                *old(self),
                variants_view(args@),
                interface@,
                member@,
            ),
    {
        let iface_key = interface.to_owned();
        match map_find(&self.interfaces, &iface_key) {
            Option::None => Err(DbusError::NotFound),
            Option::Some(i) => {
                let member_key = member.to_owned();
                match map_find(&self.interfaces[i].1.dbus_map, &member_key) {
                    Option::None => Err(DbusError::NotFound),
                    Option::Some(j) => {
                        let ep = &self.interfaces[i].1.dbus_map[j].1;
                        self.handler(args, ep)
                    },
                }
            },
        }
    }

    /// Dispatch as [`Object::process`], except that a call naming an unknown
    /// interface or member resolves to an empty response payload instead of
    /// an error.
    pub fn process_lenient(&mut self, args: &Vec<Variant>, interface: &str, member: &str) -> (r:
        Result<Payload, DbusError>)
        requires
            old(self).wf(),
        ensures
            *final(self) == *old(self),
            outcome_view(r) == match spec_process(
                *old(self),
                variants_view(args@),
                interface@,
                member@,
            ) {
                Err(DbusError::NotFound) => Ok(Seq::<VariantView>::empty()),
                other => other,
            },
    {
        match self.process(args, interface, member) {
            Err(DbusError::NotFound) => Ok(Payload::empty()),
            r => r,
        }
    }

    /// The object's introspection document, per [`spec_render_object`].
    pub fn render(&self) -> (r: String)
        ensures
            r@ == spec_render_object(*self),
    {
        let mut s =
            "<!DOCTYPE node PUBLIC \"-//freedesktop//DTD D-BUS Object Introspection 1.0//EN\" \"http://www.freedesktop.org/standards/dbus/1.0/introspect.dtd\"><node>".to_owned();
        let ghost head = s@;
        proof {
            assert(head + spec_render_interfaces(self.interfaces@.take(0)) =~= head);
        }
        let mut idx: usize = 0;
        while idx < self.interfaces.len()
            invariant
                idx <= self.interfaces@.len(),
                head == spec_doctype(),
                s@ == head + spec_render_interfaces(self.interfaces@.take(idx as int)),
            decreases self.interfaces@.len() - idx,
        {
            let piece = self.interfaces[idx].1.render();
            s.append(piece.as_str());
            proof {
                let entries = self.interfaces@;
                assert(entries.take(idx as int + 1).drop_last() =~= entries.take(idx as int));
                assert(entries.take(idx as int + 1).last() == entries[idx as int]);
                assert(s@ =~= head + spec_render_interfaces(entries.take(idx as int + 1)));
            }
            idx += 1;
        }
        s.append("</node>");
        proof {
            assert(self.interfaces@.take(self.interfaces@.len() as int) =~= self.interfaces@);
            assert(s@ =~= spec_render_object(*self));
        }
        s
    }
}

/// Dispatch routes a call for a registered (interface, member) pair to
/// exactly that pair's endpoint: the outcome is that endpoint's outcome on
/// the call's arguments and the owning object, and nothing else decides it.
pub proof fn lemma_process_routes_to_endpoint(
    o: Object,
    args: Seq<VariantView>,
    interface: Seq<char>,
    member: Seq<char>,
    intf: Interface,
    e: Endpoint,
)
    requires
        map_get(o.interfaces@, interface) == Some(intf),
        map_get(intf.dbus_map@, member) == Some(e),
    ensures
        spec_process(o, args, interface, member) == spec_endpoint_outcome(e, args, o),
{
}

/// A call naming an interface the object does not expose, or a member the
/// addressed interface does not hold, reports `NotFound`.
pub proof fn lemma_process_not_found(
    o: Object,
    args: Seq<VariantView>,
    interface: Seq<char>,
    member: Seq<char>,
)
    requires
        match map_get(o.interfaces@, interface) {
            Option::None => true,
            Option::Some(intf) => !map_has(intf.dbus_map@, member),
        },
    ensures
        spec_process(o, args, interface, member) == Err::<Seq<VariantView>, DbusError>(
            DbusError::NotFound,
        ),
{
}

/// Rendering is a function of the registration state alone: with no
/// intervening changes, two renders of one object yield identical text.
pub proof fn lemma_render_deterministic(o: Object, r1: Seq<char>, r2: Seq<char>)
    requires
        r1 == spec_render_object(o),
        r2 == spec_render_object(o),
    ensures
        r1 == r2,
{
}

/// Re-registering an interface name resets it to empty: afterwards every
/// member lookup under that name reports `NotFound`.
pub proof fn lemma_reregister_resets(
    o0: Object,
    o1: Object,
    fresh: Interface,
    interface: Seq<char>,
    args: Seq<VariantView>,
    member: Seq<char>,
)
    requires
        unique_keys(o0.interfaces@),
        fresh.dbus_map@.len() == 0,
        inserted(o0.interfaces@, o1.interfaces@, interface, fresh),
    ensures
        spec_process(o1, args, interface, member) == Err::<Seq<VariantView>, DbusError>(
            DbusError::NotFound,
        ),
{
    lemma_inserted(o0.interfaces@, o1.interfaces@, interface, fresh);
    assert(!map_has(fresh.dbus_map@, member));
}

} // verus!
