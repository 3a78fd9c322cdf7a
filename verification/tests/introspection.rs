use busobj::connection::Connection;
use busobj::endpoint::{Endpoint, MethodHandler};
use busobj::message::DbusError;
use busobj::object::Object;
use busobj::variant::Variant;

fn s(text: &str) -> String {
    text.to_string()
}

const DOCTYPE: &str = "<!DOCTYPE node PUBLIC \"-//freedesktop//DTD D-BUS Object Introspection 1.0//EN\" \"http://www.freedesktop.org/standards/dbus/1.0/introspect.dtd\"><node>";

#[test]
fn property_endpoint_renders_exactly() {
    let e = Endpoint::Property { name: s("yes"), val: Variant::Str(s("no")), variant: false };
    assert_eq!(e.render(), "<property name=\"yes\" type=\"s\" access=\"read\"></property>");
}

#[test]
fn uint_property_renders_its_signature() {
    let e = Endpoint::Property { name: s("maybe"), val: Variant::UInt64(21), variant: false };
    assert_eq!(e.render(), "<property name=\"maybe\" type=\"t\" access=\"read\"></property>");
}

#[test]
fn variant_property_always_renders_v() {
    let as_str = Endpoint::Property { name: s("p"), val: Variant::Str(s("x")), variant: true };
    let as_int = Endpoint::Property { name: s("p"), val: Variant::UInt64(9), variant: true };
    let expected = "<property name=\"p\" type=\"v\" access=\"read\"></property>";
    assert_eq!(as_str.render(), expected);
    assert_eq!(as_int.render(), expected);
}

#[test]
fn method_and_signal_render_empty() {
    let m = Endpoint::Method {
        name: s("M"),
        input_sig: s("s"),
        output_sig: s("s"),
        method: MethodHandler::Unimplemented,
    };
    assert_eq!(m.render(), "");
    assert_eq!(Endpoint::Signal.render(), "");
}

#[test]
fn empty_interface_renders_its_frame() {
    let mut obj = Object::new(&s("/test/frame"));
    let iface = obj.register_interface(&s("test.frame"));
    assert_eq!(iface.render(), "<interface name=\"test.frame\"></interface>");
}

#[test]
fn empty_object_renders_doctype_and_node() {
    let obj = Object::new(&s("/test/empty"));
    assert_eq!(obj.render(), format!("{}</node>", DOCTYPE));
}

#[test]
fn object_renders_interfaces_in_registration_order() {
    let mut obj = Object::new(&s("/test/order"));
    let first = obj.register_interface(&s("test.first"));
    first.add_property(&s("a"), Variant::Str(s("x")));
    obj.register_interface(&s("test.second"));
    let expected = format!(
        "{}<interface name=\"test.first\"><property name=\"a\" type=\"s\" access=\"read\"></property></interface><interface name=\"test.second\"></interface></node>",
        DOCTYPE
    );
    assert_eq!(obj.render(), expected);
}

#[test]
fn rendering_twice_is_identical() {
    let mut obj = Object::new(&s("/test/twice"));
    let iface = obj.register_interface(&s("test.twice"));
    iface.add_property(&s("yes"), Variant::Str(s("no")));
    iface.add_property_variant(&s("maybe"), Variant::UInt64(21));
    let once = obj.render();
    let again = obj.render();
    assert_eq!(once, again);
    assert_eq!(once.as_bytes(), again.as_bytes());
}

#[test]
fn introspect_call_end_to_end() {
    let mut conn = Connection::new(&s("test.wltu"));
    let object = conn.register_object(&s("/test/wltu"));
    let interface = object.register_interface(&s("test.wltu.interface0"));
    interface.add_property(&s("yes"), Variant::Str(s("no")));
    interface.add_property_variant(&s("maybe"), Variant::UInt64(21));
    conn.install_standard_interfaces();

    let iface_name = s("org.freedesktop.DBus.Introspectable");
    let member = s("Introspect");
    let args: Vec<Variant> = Vec::new();
    let r = conn.handle_message(0, true, Some(&iface_name), Some(&member), &args);
    let payload = r.expect("Introspect must answer");
    assert_eq!(payload.args.len(), 1);
    let xml = match &payload.args[0] {
        Variant::Str(xml) => xml,
        other => panic!("Introspect must return one string, got {:?}", other),
    };
    assert!(xml.starts_with(DOCTYPE));
    assert!(xml.ends_with("</node>"));
    assert!(xml.contains("<interface name=\"test.wltu.interface0\">"));
    assert!(xml.contains("<property name=\"yes\" type=\"s\" access=\"read\">"));
    assert!(xml.contains("<property name=\"maybe\" type=\"v\" access=\"read\">"));
    assert!(xml.contains("<interface name=\"org.freedesktop.DBus.Introspectable\">"));
    assert!(xml.contains("<interface name=\"org.freedesktop.DBus.Properties\">"));
}

#[test]
fn install_overwrites_stale_standard_interfaces() {
    let mut conn = Connection::new(&s("test.wltu"));
    let object = conn.register_object(&s("/test/wltu"));
    let stale = object.register_interface(&s("org.freedesktop.DBus.Introspectable"));
    stale.add_method(&s("Bogus"), &s(""), &s(""), MethodHandler::Unimplemented);
    conn.install_standard_interfaces();
    let iface_name = s("org.freedesktop.DBus.Introspectable");
    let args: Vec<Variant> = Vec::new();
    let bogus = s("Bogus");
    let r = conn.handle_message(0, true, Some(&iface_name), Some(&bogus), &args);
    assert_eq!(r, Err(DbusError::NotFound));
    let member = s("Introspect");
    let r = conn.handle_message(0, true, Some(&iface_name), Some(&member), &args);
    assert!(r.is_ok());
}
