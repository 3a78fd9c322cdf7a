use busobj::connection::Connection;
use busobj::endpoint::MethodHandler;
use busobj::message::{DbusError, Payload};
use busobj::object::Object;
use busobj::variant::Variant;

fn s(text: &str) -> String {
    text.to_string()
}

#[test]
fn routes_to_registered_method() {
    let mut obj = Object::new(&s("/test/route"));
    let iface = obj.register_interface(&s("test.route.iface"));
    iface.add_method(&s("Echo"), &s(""), &s(""), MethodHandler::Unimplemented);
    let args: Vec<Variant> = Vec::new();
    let r = obj.process(&args, "test.route.iface", "Echo");
    assert_eq!(r, Err(DbusError::Unimplemented));
}

#[test]
fn routes_each_pair_to_its_own_endpoint() {
    let mut obj = Object::new(&s("/test/route"));
    let a = obj.register_interface(&s("test.a"));
    a.add_method(&s("M"), &s(""), &s(""), MethodHandler::Unimplemented);
    let b = obj.register_interface(&s("test.b"));
    b.add_method(&s("GetAll"), &s("s"), &s("a{sv}"), MethodHandler::GetAllProperties);
    let args = vec![Variant::Str(s("test.a"))];
    // test.a/M is the placeholder method, not the GetAll handler.
    assert_eq!(obj.process(&args, "test.a", "M"), Err(DbusError::Unimplemented));
    // test.b/GetAll checks its argument, so it is the stub that answers here.
    let bad_args = vec![Variant::UInt64(7)];
    assert_eq!(obj.process(&bad_args, "test.b", "GetAll"), Err(DbusError::InvalidArgs));
    // The member name M is only registered on test.a.
    assert_eq!(obj.process(&args, "test.b", "M"), Err(DbusError::NotFound));
}

#[test]
fn unknown_interface_is_not_found() {
    let mut obj = Object::new(&s("/test/missing"));
    let args: Vec<Variant> = Vec::new();
    assert_eq!(obj.process(&args, "no.such.iface", "M"), Err(DbusError::NotFound));
}

#[test]
fn unknown_member_is_not_found() {
    let mut obj = Object::new(&s("/test/missing"));
    obj.register_interface(&s("test.iface"));
    let args: Vec<Variant> = Vec::new();
    assert_eq!(obj.process(&args, "test.iface", "NoSuchMember"), Err(DbusError::NotFound));
}

#[test]
fn property_dispatch_is_unimplemented() {
    let mut obj = Object::new(&s("/test/prop"));
    let iface = obj.register_interface(&s("test.iface"));
    iface.add_property(&s("yes"), Variant::Str(s("no")));
    let args: Vec<Variant> = Vec::new();
    assert_eq!(obj.process(&args, "test.iface", "yes"), Err(DbusError::Unimplemented));
}

#[test]
fn reregistering_interface_resets_it() {
    let mut obj = Object::new(&s("/test/reset"));
    let iface = obj.register_interface(&s("I"));
    iface.add_method(&s("M"), &s(""), &s(""), MethodHandler::Unimplemented);
    let args: Vec<Variant> = Vec::new();
    assert_eq!(obj.process(&args, "I", "M"), Err(DbusError::Unimplemented));
    obj.register_interface(&s("I"));
    assert_eq!(obj.process(&args, "I", "M"), Err(DbusError::NotFound));
}

#[test]
fn reregistering_keeps_other_interfaces() {
    let mut obj = Object::new(&s("/test/reset"));
    let kept = obj.register_interface(&s("K"));
    kept.add_method(&s("M"), &s(""), &s(""), MethodHandler::Unimplemented);
    let reset = obj.register_interface(&s("I"));
    reset.add_method(&s("M"), &s(""), &s(""), MethodHandler::Unimplemented);
    obj.register_interface(&s("I"));
    let args: Vec<Variant> = Vec::new();
    assert_eq!(obj.process(&args, "K", "M"), Err(DbusError::Unimplemented));
    assert_eq!(obj.process(&args, "I", "M"), Err(DbusError::NotFound));
}

#[test]
fn readding_endpoint_overwrites_it() {
    let mut obj = Object::new(&s("/test/overwrite"));
    let iface = obj.register_interface(&s("I"));
    iface.add_method(&s("M"), &s(""), &s(""), MethodHandler::Unimplemented);
    iface.add_property(&s("M"), Variant::UInt64(1));
    assert_eq!(iface.dbus_map.len(), 1);
}

#[test]
fn get_all_checks_its_argument() {
    let mut obj = Object::new(&s("/test/getall"));
    let iface = obj.register_interface(&s("org.freedesktop.DBus.Properties"));
    iface.add_method(&s("GetAll"), &s("s"), &s("a{sv}"), MethodHandler::GetAllProperties);
    let good = vec![Variant::Str(s("test.iface"))];
    assert_eq!(
        obj.process(&good, "org.freedesktop.DBus.Properties", "GetAll"),
        Err(DbusError::Unimplemented)
    );
    let wrong_type = vec![Variant::UInt64(21)];
    assert_eq!(
        obj.process(&wrong_type, "org.freedesktop.DBus.Properties", "GetAll"),
        Err(DbusError::InvalidArgs)
    );
    let none: Vec<Variant> = Vec::new();
    assert_eq!(
        obj.process(&none, "org.freedesktop.DBus.Properties", "GetAll"),
        Err(DbusError::InvalidArgs)
    );
}

#[test]
fn lenient_dispatch_returns_empty_payload_on_miss() {
    // The gap this library closes: a miss used to resolve to an empty
    // response. The lenient entry point documents that behaviour...
    let mut obj = Object::new(&s("/test/wltu"));
    let args: Vec<Variant> = Vec::new();
    let r = obj.process_lenient(&args, "test.wltu.absent", "Test0");
    assert_eq!(r, Ok(Payload { args: Vec::new() }));
    // ...while the strict entry point reports the miss.
    assert_eq!(obj.process(&args, "test.wltu.absent", "Test0"), Err(DbusError::NotFound));
}

#[test]
fn lenient_dispatch_keeps_other_outcomes() {
    let mut obj = Object::new(&s("/test/lenient"));
    let iface = obj.register_interface(&s("I"));
    iface.add_method(&s("M"), &s(""), &s(""), MethodHandler::Unimplemented);
    let args: Vec<Variant> = Vec::new();
    assert_eq!(obj.process_lenient(&args, "I", "M"), Err(DbusError::Unimplemented));
}

#[test]
fn variant_same_compares_tags() {
    assert!(Variant::Str(s("a")).same(&Variant::Str(s("b"))));
    assert!(Variant::UInt64(1).same(&Variant::UInt64(2)));
    assert!(!Variant::Str(s("a")).same(&Variant::UInt64(1)));
    assert!(!Variant::UInt64(1).same(&Variant::Str(s("a"))));
    assert!(!Variant::Other { sig: s("d") }.same(&Variant::Other { sig: s("d") }));
}

#[test]
fn variant_signature_names_the_wire_type() {
    assert_eq!(Variant::Str(s("no")).signature(), "s");
    assert_eq!(Variant::UInt64(21).signature(), "t");
    assert_eq!(Variant::Other { sig: s("a{sv}") }.signature(), "a{sv}");
}

#[test]
fn variant_clone_drops_other_payload() {
    assert_eq!(Variant::Str(s("no")).clone(), Variant::Str(s("no")));
    assert_eq!(Variant::UInt64(21).clone(), Variant::UInt64(21));
    assert_eq!(Variant::Other { sig: s("d") }.clone(), Variant::UInt64(0));
}

#[test]
fn connection_rejects_non_calls() {
    let mut conn = Connection::new(&s("test.wltu"));
    conn.register_object(&s("/test/wltu"));
    let args: Vec<Variant> = Vec::new();
    let iface = s("test.wltu.interface0");
    let member = s("Test0");
    let r = conn.handle_message(0, false, Some(&iface), Some(&member), &args);
    assert_eq!(r, Err(DbusError::NotSupported));
    let r = conn.handle_message(0, true, None, Some(&member), &args);
    assert_eq!(r, Err(DbusError::NotSupported));
    let r = conn.handle_message(0, true, Some(&iface), None, &args);
    assert_eq!(r, Err(DbusError::NotSupported));
}

#[test]
fn connection_keeps_bus_name_and_object_order() {
    let mut conn = Connection::new(&s("test.wltu"));
    assert_eq!(conn.bus_name().as_str(), "test.wltu");
    conn.register_object(&s("/test/a"));
    conn.register_object(&s("/test/b"));
    assert_eq!(conn.objects.len(), 2);
    assert_eq!(conn.objects[0].path, "/test/a");
    assert_eq!(conn.objects[1].path, "/test/b");
}
