//! The two remote objects of the Avahi daemon that a publication needs, and
//! the client that starts publications.
//!
//! A [`Server`] and an [`EntryGroup`] are proxies: each stands for one remote
//! object and builds the method calls that are addressed to it. [`Avahi`]
//! holds the proxy of the daemon's server object and starts publications of
//! the NMEA-0183 service. Nothing here sends a call: whoever owns the bus
//! connection does.

use vstd::prelude::*;
use crate::message::{args_view, Arg, ArgView, MethodCall, MethodCallView, ObjectPath, ROOT_PATH};
use crate::naming::{
    camel, capitalize_all, is_snake_segment, join, lemma_camel_of_snake_case,
};
use crate::publication::{Publication, PublicationView, PublishStateView};

verus! {

/// Well-known bus name of the Avahi daemon.
pub const AVAHI_BUS_NAME: &'static str = "org.freedesktop.Avahi";

/// Interface of the daemon's server object.
pub const SERVER_INTERFACE: &'static str = "org.freedesktop.Avahi.Server";

/// Interface of an entry group.
pub const ENTRY_GROUP_INTERFACE: &'static str = "org.freedesktop.Avahi.EntryGroup";

/// How long a call that waits for its reply may wait, in milliseconds.
pub const REPLY_TIMEOUT_MS: i32 = 2000;

/// Network interface index that stands for every interface.
pub const IF_UNSPEC: i32 = -1;

/// Protocol number that stands for every address family.
pub const PROTO_UNSPEC: i32 = -1;

/// Flags of the published service record.
pub const PUBLISH_FLAGS: u32 = 0;

/// Instance name under which the service is published.
pub const SERVICE_NAME: &'static str = "gps-share";

/// Service type of NMEA-0183 over TCP.
pub const SERVICE_TYPE: &'static str = "_nmea-0183._tcp";

/// Domain of the published record: empty, for the daemon's default domain.
pub const DEFAULT_DOMAIN: &'static str = "";

/// Host of the published record: empty, for the daemon's own host name.
pub const DEFAULT_HOST: &'static str = "";

/// TXT text of the published record: empty, for no TXT record.
pub const NO_TXT: &'static str = "";

/// What a proxy is bound to: a service on the bus and one of its objects.
pub struct ProxyView {
    pub bus_name: Seq<char>,
    pub path: Seq<char>,
}

/// The `EntryGroupNew` call on the server object `server`: no arguments, and
/// the caller waits for the reply.
pub open spec fn entry_group_new_call(server: ProxyView) -> MethodCallView {
    MethodCallView {
        destination: server.bus_name,
        path: server.path,
        interface: SERVER_INTERFACE@,
        member: "EntryGroupNew"@,
        args: Seq::empty(),
        expect_reply: true,
    }
}

/// The `AddService` call on the entry group `group`: the nine fields of the
/// service record in their fixed order, and no reply awaited.
pub open spec fn add_service_call(
    group: ProxyView,
    ifindex: i32,
    protocol: i32,
    flags: u32,
    name: Seq<char>,
    service_type: Seq<char>,
    domain: Seq<char>,
    host: Seq<char>,
    port: u16,
    text: Seq<char>,
) -> MethodCallView {
    MethodCallView {
        destination: group.bus_name,
        path: group.path,
        interface: ENTRY_GROUP_INTERFACE@,
        member: "AddService"@,
        args: seq![
            ArgView::Int32(ifindex),
            ArgView::Int32(protocol),
            ArgView::UInt32(flags),
            ArgView::Str(name),
            ArgView::Str(service_type),
            ArgView::Str(domain),
            ArgView::Str(host),
            ArgView::UInt16(port),
            ArgView::Str(text),
        ],
        expect_reply: false,
    }
}

/// The `Commit` call on the entry group `group`: no arguments, and no reply
/// awaited.
pub open spec fn commit_call(group: ProxyView) -> MethodCallView {
    MethodCallView {
        destination: group.bus_name,
        path: group.path,
        interface: ENTRY_GROUP_INTERFACE@,
        member: "Commit"@,
        args: Seq::empty(),
        expect_reply: false,
    }
}

/// The three member names are the camel-case names of the methods'
/// snake-case identifiers.
pub proof fn lemma_member_names()
    ensures
        camel("entry_group_new"@) == "EntryGroupNew"@,
        camel("add_service"@) == "AddService"@,
        camel("commit"@) == "Commit"@,
{
    reveal_with_fuel(join, 4);
    reveal_with_fuel(Seq::flatten, 4);
    assert(camel("entry_group_new"@) == "EntryGroupNew"@) by {
        reveal_strlit("entry_group_new");
        reveal_strlit("EntryGroupNew");
        reveal_strlit("entry");
        reveal_strlit("group");
        reveal_strlit("new");
        let segments = seq!["entry"@, "group"@, "new"@];
        assert(join(segments) =~= "entry_group_new"@);
        assert forall|i: int| 0 <= i < segments.len() implies is_snake_segment(
            #[trigger] segments[i],
        ) by {}
        lemma_camel_of_snake_case(segments);
        assert(capitalize_all(segments).flatten() =~= "EntryGroupNew"@);
    }
    assert(camel("add_service"@) == "AddService"@) by {
        reveal_strlit("add_service");
        reveal_strlit("AddService");
        reveal_strlit("add");
        reveal_strlit("service");
        let segments = seq!["add"@, "service"@];
        assert(join(segments) =~= "add_service"@);
        assert forall|i: int| 0 <= i < segments.len() implies is_snake_segment(
            #[trigger] segments[i],
        ) by {}
        lemma_camel_of_snake_case(segments);
        assert(capitalize_all(segments).flatten() =~= "AddService"@);
    }
    assert(camel("commit"@) == "Commit"@) by {
        reveal_strlit("commit");
        reveal_strlit("Commit");
        let segments = seq!["commit"@];
        assert(join(segments) =~= "commit"@);
        assert forall|i: int| 0 <= i < segments.len() implies is_snake_segment(
            #[trigger] segments[i],
        ) by {}
        lemma_camel_of_snake_case(segments);
        assert(capitalize_all(segments).flatten() =~= "Commit"@);
    }
}

/// Proxy of the daemon's server object.
#[derive(Debug, PartialEq, Eq)]
pub struct Server {
    bus_name: String,
    path: ObjectPath,
}

impl View for Server {
    type V = ProxyView;

    closed spec fn view(&self) -> ProxyView {
        ProxyView { bus_name: self.bus_name@, path: self.path@ }
    }
}

impl Clone for Server {
    fn clone(&self) -> (copy: Self)
        ensures
            copy@ == self@,
    {
        proof {
            use_type_invariant(self);
        }
        Server { bus_name: self.bus_name.clone(), path: self.path.clone() }
    }
}

impl Server {
    #[verifier::type_invariant]
    spec fn named(&self) -> bool {
        self.bus_name@.len() > 0
    }

    /// The proxy of the object `path` of the service `dbus_name`.
    ///
    /// The name of the service is not empty.
    pub fn new(dbus_name: &str, path: ObjectPath) -> (server: Server)
        requires
            dbus_name@.len() > 0,
        ensures
            server@ == (ProxyView { bus_name: dbus_name@, path: path@ }),
    {
        Server { bus_name: dbus_name.to_owned(), path }
    }

    /// The call that asks the daemon for a new entry group.
    ///
    /// The call is addressed to this proxy's object, carries no argument,
    /// and its reply is awaited: a method return whose first argument is the
    /// object path of the new group (see [`Reply::object_path`]).
    pub fn entry_group_new(&self) -> (call: MethodCall)
        ensures
            call@ == entry_group_new_call(self@),
            call@.destination.len() > 0,
    {
        proof {
            use_type_invariant(self);
            lemma_member_names();
        }
        let args: Vec<Arg> = Vec::new();
        assert(args_view(args@) =~= Seq::<ArgView>::empty());
        MethodCall::new(
            self.bus_name.as_str(),
            &self.path,
            SERVER_INTERFACE,
            "entry_group_new",
            args,
            true,
        )
    }
}

/// Proxy of one entry group of the daemon.
#[derive(Debug, PartialEq, Eq)]
pub struct EntryGroup {
    bus_name: String,
    path: ObjectPath,
}

impl View for EntryGroup {
    type V = ProxyView;

    closed spec fn view(&self) -> ProxyView {
        ProxyView { bus_name: self.bus_name@, path: self.path@ }
    }
}

impl EntryGroup {
    #[verifier::type_invariant]
    spec fn named(&self) -> bool {
        self.bus_name@.len() > 0
    }

    /// The proxy of the entry group `path` of the service `dbus_name`.
    ///
    /// The name of the service is not empty.
    pub fn new(dbus_name: &str, path: ObjectPath) -> (group: EntryGroup)
        requires
            dbus_name@.len() > 0,
        ensures
            group@ == (ProxyView { bus_name: dbus_name@, path: path@ }),
    {
        EntryGroup { bus_name: dbus_name.to_owned(), path }
    }

    /// The call that adds a service record to the group.
    ///
    /// The nine fields of the record are the call's arguments, in the order
    /// of the parameters and each with its wire type. No reply is awaited:
    /// whether the daemon accepts the record is not known to the caller.
    pub fn add_service(
        &self,
        ifindex: i32,
        protocol: i32,
        flags: u32,
        name: &str,
        service_type: &str,
        domain: &str,
        host: &str,
        port: u16,
        text: &str,
    ) -> (call: MethodCall)
        ensures
            call@ == add_service_call(
                self@,
                ifindex,
                protocol,
                flags,
                name@,
                service_type@,
                domain@,
                host@,
                port,
                text@,
            ),
            call@.destination.len() > 0,
    {
        proof {
            use_type_invariant(self);
            lemma_member_names();
        }
        let mut args: Vec<Arg> = Vec::new();
        args.push(Arg::Int32(ifindex));
        args.push(Arg::Int32(protocol));
        args.push(Arg::UInt32(flags));
        args.push(Arg::Str(name.to_owned()));
        args.push(Arg::Str(service_type.to_owned()));
        args.push(Arg::Str(domain.to_owned()));
        args.push(Arg::Str(host.to_owned()));
        args.push(Arg::UInt16(port));
        args.push(Arg::Str(text.to_owned()));
        assert(args_view(args@) =~= seq![
            ArgView::Int32(ifindex),
            ArgView::Int32(protocol),
            ArgView::UInt32(flags),
            ArgView::Str(name@),
            ArgView::Str(service_type@),
            ArgView::Str(domain@),
            ArgView::Str(host@),
            ArgView::UInt16(port),
            ArgView::Str(text@),
        ]);
        MethodCall::new(
            self.bus_name.as_str(),
            &self.path,
            ENTRY_GROUP_INTERFACE,
            "add_service",
            args,
            false,
        )
    }

    /// The call that commits the group, which makes its records visible on
    /// the network.
    ///
    /// The call carries no argument and no reply is awaited.
    pub fn commit(&self) -> (call: MethodCall)
        ensures
            call@ == commit_call(self@),
            call@.destination.len() > 0,
    {
        proof {
            use_type_invariant(self);
            lemma_member_names();
        }
        let args: Vec<Arg> = Vec::new();
        assert(args_view(args@) =~= Seq::<ArgView>::empty());
        MethodCall::new(
            self.bus_name.as_str(),
            &self.path,
            ENTRY_GROUP_INTERFACE,
            "commit",
            args,
            false,
        )
    }
}

/// The server object of the Avahi daemon: the root object of the service
/// with the well-known name.
pub open spec fn avahi_server() -> ProxyView {
    ProxyView { bus_name: AVAHI_BUS_NAME@, path: ROOT_PATH@ }
}

/// The entry group `path` of the Avahi daemon.
pub open spec fn avahi_group(path: Seq<char>) -> ProxyView {
    ProxyView { bus_name: AVAHI_BUS_NAME@, path }
}

/// The `AddService` call that publishes the NMEA-0183 service on `port` in
/// the entry group `path`: every field of the record but the port is fixed.
pub open spec fn publish_service_call(path: Seq<char>, port: u16) -> MethodCallView {
    add_service_call(
        avahi_group(path),
        IF_UNSPEC,
        PROTO_UNSPEC,
        PUBLISH_FLAGS,
        SERVICE_NAME@,
        SERVICE_TYPE@,
        DEFAULT_DOMAIN@,
        DEFAULT_HOST@,
        port,
        NO_TXT@,
    )
}

/// Client of the Avahi daemon that publishes the NMEA-0183 service.
#[derive(Debug, PartialEq, Eq)]
pub struct Avahi {
    server: Server,
}

impl View for Avahi {
    type V = ProxyView;

    closed spec fn view(&self) -> ProxyView {
        self.server@
    }
}

impl Avahi {
    #[verifier::type_invariant]
    spec fn bound(&self) -> bool {
        self.server@ == avahi_server()
    }

    /// The client, with its proxy of the daemon's server object: the root
    /// object of the service `org.freedesktop.Avahi`.
    pub fn new() -> (avahi: Avahi)
        ensures
            avahi@ == avahi_server(),
    {
        proof {
            reveal_strlit("org.freedesktop.Avahi");
        }
        Avahi { server: Server::new(AVAHI_BUS_NAME, ObjectPath::root()) }
    }

    /// The proxy of the daemon's server object.
    pub fn server(&self) -> (server: &Server)
        ensures
            server@ == self@,
            server@ == avahi_server(),
    {
        proof {
            use_type_invariant(self);
        }
        &self.server
    }

    /// Starts a publication of the service that listens on `port`.
    ///
    /// Every publication starts from the beginning, whatever went before:
    /// no entry group is kept from one publication to the next.
    pub fn publish(&self, port: u16) -> (publication: Publication)
        ensures
            publication@ == (PublicationView { port, state: PublishStateView::Start }),
    {
        proof {
            use_type_invariant(self);
        }
        Publication::start(self.server.clone(), port)
    }
}

} // verus!
