use avahi_publish::avahi::{
    Avahi, EntryGroup, Server, AVAHI_BUS_NAME, DEFAULT_DOMAIN, DEFAULT_HOST, ENTRY_GROUP_INTERFACE,
    IF_UNSPEC, NO_TXT, PROTO_UNSPEC, PUBLISH_FLAGS, REPLY_TIMEOUT_MS, SERVER_INTERFACE,
    SERVICE_NAME, SERVICE_TYPE,
};
use avahi_publish::message::{Arg, MethodCall, ObjectPath};

#[test]
fn constants_of_the_wire_protocol() {
    assert_eq!(AVAHI_BUS_NAME, "org.freedesktop.Avahi");
    assert_eq!(SERVER_INTERFACE, "org.freedesktop.Avahi.Server");
    assert_eq!(ENTRY_GROUP_INTERFACE, "org.freedesktop.Avahi.EntryGroup");
    assert_eq!(REPLY_TIMEOUT_MS, 2000);
    assert_eq!(IF_UNSPEC, -1);
    assert_eq!(PROTO_UNSPEC, -1);
    assert_eq!(PUBLISH_FLAGS, 0);
    assert_eq!(SERVICE_NAME, "gps-share");
    assert_eq!(SERVICE_TYPE, "_nmea-0183._tcp");
    assert_eq!(DEFAULT_DOMAIN, "");
    assert_eq!(DEFAULT_HOST, "");
    assert_eq!(NO_TXT, "");
}

#[test]
fn entry_group_new_is_a_call_without_arguments_that_waits() {
    let server = Server::new("org.freedesktop.Avahi", ObjectPath::new("/"));
    let call = server.entry_group_new();
    assert_eq!(
        call,
        MethodCall {
            destination: String::from("org.freedesktop.Avahi"),
            path: ObjectPath::new("/"),
            interface: String::from("org.freedesktop.Avahi.Server"),
            member: String::from("EntryGroupNew"),
            args: Vec::new(),
            expect_reply: true,
        }
    );
}

#[test]
fn server_addresses_the_object_it_is_bound_to() {
    let server = Server::new("org.example.Other", ObjectPath::new("/some/object"));
    let call = server.entry_group_new();
    assert_eq!(call.destination, "org.example.Other");
    assert_eq!(call.path.as_str(), "/some/object");
    assert_eq!(call.interface, "org.freedesktop.Avahi.Server");
    assert_eq!(call.member, "EntryGroupNew");
    assert_eq!(server.clone(), server);
}

#[test]
fn server_builds_the_same_call_every_time() {
    let server = Server::new("org.freedesktop.Avahi", ObjectPath::root());
    assert_eq!(server.entry_group_new(), server.entry_group_new());
}

#[test]
fn add_service_carries_nine_arguments_in_order() {
    let group = EntryGroup::new("org.freedesktop.Avahi", ObjectPath::new("/Client1/EntryGroup1"));
    let call = group.add_service(
        2,
        0,
        16,
        "instance",
        "_http._tcp",
        "local",
        "host.local",
        443,
        "path=/",
    );
    assert_eq!(
        call,
        MethodCall {
            destination: String::from("org.freedesktop.Avahi"),
            path: ObjectPath::new("/Client1/EntryGroup1"),
            interface: String::from("org.freedesktop.Avahi.EntryGroup"),
            member: String::from("AddService"),
            args: vec![
                Arg::Int32(2),
                Arg::Int32(0),
                Arg::UInt32(16),
                Arg::Str(String::from("instance")),
                Arg::Str(String::from("_http._tcp")),
                Arg::Str(String::from("local")),
                Arg::Str(String::from("host.local")),
                Arg::UInt16(443),
                Arg::Str(String::from("path=/")),
            ],
            expect_reply: false,
        }
    );
}

#[test]
fn add_service_keeps_extreme_values_and_empty_strings() {
    let group = EntryGroup::new("x", ObjectPath::new("/g"));
    let call = group.add_service(i32::MIN, i32::MAX, u32::MAX, "", "", "", "", u16::MAX, "");
    assert_eq!(
        call.args,
        vec![
            Arg::Int32(i32::MIN),
            Arg::Int32(i32::MAX),
            Arg::UInt32(u32::MAX),
            Arg::Str(String::new()),
            Arg::Str(String::new()),
            Arg::Str(String::new()),
            Arg::Str(String::new()),
            Arg::UInt16(u16::MAX),
            Arg::Str(String::new()),
        ]
    );
    assert_eq!(call.destination, "x");
    assert!(!call.expect_reply);
    let zero = group.add_service(0, 0, 0, "n", "t", "d", "h", 0, "x");
    assert_eq!(zero.args[7], Arg::UInt16(0));
}

#[test]
fn commit_is_a_call_without_arguments_that_does_not_wait() {
    let group = EntryGroup::new("org.freedesktop.Avahi", ObjectPath::new("/Client1/EntryGroup1"));
    assert_eq!(
        group.commit(),
        MethodCall {
            destination: String::from("org.freedesktop.Avahi"),
            path: ObjectPath::new("/Client1/EntryGroup1"),
            interface: String::from("org.freedesktop.Avahi.EntryGroup"),
            member: String::from("Commit"),
            args: Vec::new(),
            expect_reply: false,
        }
    );
}

#[test]
fn avahi_holds_the_proxy_of_the_root_object() {
    let avahi = Avahi::new();
    assert_eq!(
        avahi.server(),
        &Server::new("org.freedesktop.Avahi", ObjectPath::new("/"))
    );
    assert_eq!(avahi, Avahi::new());
}
