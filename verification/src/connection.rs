//! The registration root: a bus name, the objects served under it, the two
//! standard interfaces every object exposes, and the per-message dispatch
//! decision of the serving loop.

use vstd::prelude::*;
use vstd::string::StringExecFns;

use crate::endpoint::{Endpoint, MethodHandler};
use crate::interface::Interface;
use crate::message::{outcome_view, variants_view, DbusError, Payload};
use crate::name_map::{inserted, lemma_inserted, map_get, map_has, map_index_of};
use crate::object::{spec_process, Object};
use crate::variant::{Variant, VariantView};

verus! {

/// A connection under configuration: the bus name to claim and the objects to
/// serve. Registration happens before the serving loop starts; the transport
/// around the library opens the session, claims the name and feeds inbound
/// messages to [`Connection::handle_message`].
pub struct Connection {
    pub connection: String,
    pub objects: Vec<Object>,
}

/// The interface under which every object answers introspection: its sole
/// member is the method `Introspect`, without arguments, returning one
/// string, handled by rendering the object.
pub open spec fn is_introspectable_interface(i: Interface) -> bool {
    &&& i.interface@ == "org.freedesktop.DBus.Introspectable"@
    &&& i.dbus_map@.len() == 1
    &&& i.dbus_map@[0].0@ == "Introspect"@
    &&& (i.dbus_map@[0].1 matches Endpoint::Method { name, input_sig, output_sig, method }
        && name@ == "Introspect"@ && input_sig@ == ""@ && output_sig@ == "s"@
        && method == MethodHandler::Introspect)
}

/// The interface under which every object answers property aggregation: its
/// sole member is the method `GetAll`, taking one string and returning a
/// dictionary of variants, handled by the (unimplemented) aggregation stub.
pub open spec fn is_properties_interface(i: Interface) -> bool {
    &&& i.interface@ == "org.freedesktop.DBus.Properties"@
    &&& i.dbus_map@.len() == 1
    &&& i.dbus_map@[0].0@ == "GetAll"@
    &&& (i.dbus_map@[0].1 matches Endpoint::Method { name, input_sig, output_sig, method }
        && name@ == "GetAll"@ && input_sig@ == "s"@ && output_sig@ == "a{sv}"@
        && method == MethodHandler::GetAllProperties)
}

/// How installing the standard interfaces turns the object `o0` into `o1`:
/// the two standard interfaces are present with exactly their standard
/// members, and every other interface name resolves as before.
pub open spec fn std_installed(o0: Object, o1: Object) -> bool {
    &&& o1.wf()
    &&& o1.path == o0.path
    &&& (map_get(o1.interfaces@, "org.freedesktop.DBus.Introspectable"@) matches Some(i)
        && is_introspectable_interface(i))
    &&& (map_get(o1.interfaces@, "org.freedesktop.DBus.Properties"@) matches Some(i)
        && is_properties_interface(i))
    &&& forall|k: Seq<char>|
        k != "org.freedesktop.DBus.Introspectable"@ && k != "org.freedesktop.DBus.Properties"@
            ==> map_get(o1.interfaces@, k) == map_get(o0.interfaces@, k)
}

/// The serving loop's decision on one inbound message addressed to object
/// `o`: anything but a call carrying both an interface and a member name is
/// not supported; a well-formed call is dispatched by [`spec_process`].
pub open spec fn spec_dispatch_event(
    o: Object,
    is_call: bool,
    interface: Option<Seq<char>>,
    member: Option<Seq<char>>,
    args: Seq<VariantView>,
) -> Result<Seq<VariantView>, DbusError> {
    if !is_call {
        Err(DbusError::NotSupported)
    } else {
        match (interface, member) {
            (Some(i), Some(m)) => spec_process(o, args, i, m),
            _ => Err(DbusError::NotSupported),
        }
    }
}

/// The view of an optional header field.
pub open spec fn opt_name_view(s: Option<&String>) -> Option<Seq<char>> {
    match s {
        Some(n) => Some(n@),
        None => None,
    }
}

impl Object {
    /// Injects the two standard interfaces, Introspectable and Properties,
    /// replacing any interfaces the object already exposed under their names.
    pub fn install_standard_interfaces(&mut self)
        requires
            old(self).wf(),
        ensures
            std_installed(*old(self), *final(self)),
            exists|mid: Seq<(String, Interface)>, v1: Interface, v2: Interface|
                #![trigger inserted(old(self).interfaces@, mid, "org.freedesktop.DBus.Introspectable"@, v1),
                    inserted(mid, final(self).interfaces@, "org.freedesktop.DBus.Properties"@, v2)]
                {
                    &&& inserted(old(self).interfaces@, mid, "org.freedesktop.DBus.Introspectable"@, v1)
                    &&& is_introspectable_interface(v1)
                    &&& inserted(mid, final(self).interfaces@, "org.freedesktop.DBus.Properties"@, v2)
                    &&& is_properties_interface(v2)
                },
    {
        let ghost m0 = old(self).interfaces@;
        let ghost intro_k = "org.freedesktop.DBus.Introspectable"@;
        let ghost props_k = "org.freedesktop.DBus.Properties"@;
        let intro_name: String = "org.freedesktop.DBus.Introspectable".to_owned();
        let intro = self.register_interface(&intro_name);
        intro.add_method(
            &"Introspect".to_owned(),
            &"".to_owned(),
            &"s".to_owned(),
            MethodHandler::Introspect,
        );
        let ghost mid = self.interfaces@;
        proof {
            let i1 = if map_has(m0, intro_k) {
                map_index_of(m0, intro_k)
            } else {
                m0.len() as int
            };
            let v1 = mid[i1].1;
            assert(inserted(m0, mid, intro_k, v1));
            lemma_inserted(m0, mid, intro_k, v1);
            assert(is_introspectable_interface(v1));
            assert(map_get(mid, intro_k) == Some(v1));
        }
        let props_name: String = "org.freedesktop.DBus.Properties".to_owned();
        let props = self.register_interface(&props_name);
        props.add_method(
            &"GetAll".to_owned(),
            &"s".to_owned(),
            &"a{sv}".to_owned(),
            MethodHandler::GetAllProperties,
        );
        let ghost m2 = self.interfaces@;
        proof {
            let i2 = if map_has(mid, props_k) {
                map_index_of(mid, props_k)
            } else {
                mid.len() as int
            };
            let v2 = m2[i2].1;
            assert(inserted(mid, m2, props_k, v2));
            lemma_inserted(mid, m2, props_k, v2);
            assert(is_properties_interface(v2));
            assert(map_get(m2, props_k) == Some(v2));
            reveal_strlit("org.freedesktop.DBus.Introspectable");
            reveal_strlit("org.freedesktop.DBus.Properties");
            assert(intro_k.len() == 35);
            assert(props_k.len() == 31);
            assert(intro_k != props_k);
            assert(map_get(m2, intro_k) == map_get(mid, intro_k));
            let i1 = if map_has(m0, intro_k) {
                map_index_of(m0, intro_k)
            } else {
                m0.len() as int
            };
            let v1 = mid[i1].1;
            assert(inserted(m0, mid, intro_k, v1) && is_introspectable_interface(v1)
                && inserted(mid, m2, props_k, v2) && is_properties_interface(v2));
        }
    }
}

impl Connection {
    /// Every object under the connection is well formed.
    pub open spec fn wf(&self) -> bool {
        forall|i: int| 0 <= i < self.objects@.len() ==> (#[trigger] self.objects@[i]).wf()
    }

    /// The bus name the connection will claim.
    pub open spec fn spec_bus_name(&self) -> Seq<char> {
        self.connection@
    }

    /// A connection that will claim the given bus name, serving no objects
    /// yet.
    pub fn new(connection: &String) -> (r: Self)
        ensures
            r.spec_bus_name() == connection@,
            r.objects@.len() == 0,
            r.wf(),
    {
        Connection { connection: connection.clone(), objects: Vec::new() }
    }

    /// The bus name the connection will claim.
    pub fn bus_name(&self) -> (r: &String)
        ensures
            r@ == self.spec_bus_name(),
    {
        &self.connection
    }

    /// Registers a new object under the given path and returns it for further
    /// configuration. Objects are served in registration order.
    pub fn register_object(&mut self, path: &String) -> (ret: &mut Object)
        ensures
            ret.path@ == path@,
            ret.interfaces@.len() == 0,
            ret.wf(),
            final(self).spec_bus_name() == old(self).spec_bus_name(),
            final(self).objects@.len() == old(self).objects@.len() + 1,
            forall|j: int|
                0 <= j < old(self).objects@.len() ==> final(self).objects@[j] == old(
                    self,
                ).objects@[j],
            final(self).objects@.last() == *final(ret),
    {
        let path_obj = Object::new(path);
        let i = self.objects.len();
        self.objects.push(path_obj);
        &mut self.objects[i]
    }

    /// Injects the two standard interfaces into every registered object, as
    /// the transition to serving does once.
    pub fn install_standard_interfaces(&mut self)
        requires
            old(self).wf(),
        ensures
            final(self).wf(),
            final(self).spec_bus_name() == old(self).spec_bus_name(),
            final(self).objects@.len() == old(self).objects@.len(),
            forall|j: int|
                0 <= j < old(self).objects@.len() ==> std_installed(
                    old(self).objects@[j],
                    #[trigger] final(self).objects@[j],
                ),
    {
        let mut idx: usize = 0;
        while idx < self.objects.len()
            invariant
                idx <= self.objects@.len(),
                self.connection == old(self).connection,
                self.objects@.len() == old(self).objects@.len(),
                forall|j: int|
                    0 <= j < idx ==> std_installed(
                        old(self).objects@[j],
                        #[trigger] self.objects@[j],
                    ),
                forall|j: int|
                    idx <= j < self.objects@.len() ==> self.objects@[j] == old(self).objects@[j],
                old(self).wf(),
            decreases self.objects@.len() - idx,
        {
            let obj = &mut self.objects[idx];
            obj.install_standard_interfaces();
            idx += 1;
        }
        proof {
            assert forall|j: int| 0 <= j < self.objects@.len() implies (
            #[trigger] self.objects@[j]).wf() by {
                assert(std_installed(old(self).objects@[j], self.objects@[j]));
            }
        }
    }

    /// The serving loop's decision on one inbound message addressed to the
    /// object at `object_index`, per [`spec_dispatch_event`]: a message that
    /// is not a call, or lacks an interface or member name, is not supported;
    /// a well-formed call is dispatched to the addressed object.
    pub fn handle_message(
        &mut self,
        object_index: usize,
        is_call: bool,
        interface: Option<&String>,
        member: Option<&String>,
        args: &Vec<Variant>,
    ) -> (r: Result<Payload, DbusError>)
        requires
            old(self).wf(),
            object_index < old(self).objects@.len(),
        ensures
            final(self).wf(),
            final(self).spec_bus_name() == old(self).spec_bus_name(),
            final(self).objects@ == old(self).objects@,
            outcome_view(r) == spec_dispatch_event(
                old(self).objects@[object_index as int],
                is_call,
                opt_name_view(interface),
                opt_name_view(member),
                variants_view(args@),
            ),
    {
        let r = if !is_call {
            Err(DbusError::NotSupported)
        } else {
            match (interface, member) {
                (Some(i), Some(m)) => {
                    let obj = &mut self.objects[object_index];
                    obj.process(args, i.as_str(), m.as_str())
                },
                _ => Err(DbusError::NotSupported),
            }
        };
        proof {
            assert(self.objects@ =~= old(self).objects@);
        }
        r
    }
}

} // verus!
