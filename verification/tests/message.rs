use avahi_publish::message::{
    clone_args, Arg, Error, MethodCall, ObjectPath, Reply, NO_REPLY, ROOT_PATH,
};

#[test]
fn object_path_keeps_its_text() {
    let path = ObjectPath::new("/Client1/EntryGroup1");
    assert_eq!(path.as_str(), "/Client1/EntryGroup1");
    assert_eq!(path, ObjectPath::new("/Client1/EntryGroup1"));
    assert_ne!(path, ObjectPath::new("/Client1/EntryGroup2"));
}

#[test]
fn root_path_is_a_slash() {
    assert_eq!(ROOT_PATH, "/");
    assert_eq!(ObjectPath::root().as_str(), "/");
    assert_eq!(ObjectPath::root(), ObjectPath::new("/"));
}

#[test]
fn object_path_clone_is_equal() {
    let path = ObjectPath::new("/a/b");
    assert_eq!(path.clone(), path);
}

#[test]
fn arg_clone_is_equal() {
    let args = vec![
        Arg::Int32(-1),
        Arg::UInt32(7),
        Arg::UInt16(8080),
        Arg::Str(String::from("text")),
        Arg::Path(ObjectPath::new("/p")),
        Arg::Other,
    ];
    for arg in &args {
        assert_eq!(&arg.clone(), arg);
    }
    assert_eq!(clone_args(&args), args);
    assert_eq!(clone_args(&Vec::new()), Vec::new());
}

#[test]
fn method_call_carries_the_camel_case_name() {
    let call = MethodCall::new(
        "org.example.Service",
        &ObjectPath::new("/org/example"),
        "org.example.Interface",
        "do_some_thing",
        vec![Arg::UInt16(1), Arg::Str(String::from("x"))],
        true,
    );
    assert_eq!(call.destination, "org.example.Service");
    assert_eq!(call.path, ObjectPath::new("/org/example"));
    assert_eq!(call.interface, "org.example.Interface");
    assert_eq!(call.member, "DoSomeThing");
    assert_eq!(call.args, vec![Arg::UInt16(1), Arg::Str(String::from("x"))]);
    assert!(call.expect_reply);
}

#[test]
fn method_call_without_reply_and_without_arguments() {
    let call = MethodCall::new("a.b", &ObjectPath::root(), "a.b.C", "ping", Vec::new(), false);
    assert_eq!(call.member, "Ping");
    assert!(call.args.is_empty());
    assert!(!call.expect_reply);
    assert_eq!(call.clone(), call);
}

#[test]
fn reply_with_object_path_decodes_to_the_path() {
    let reply = Reply::Return(vec![Arg::Path(ObjectPath::new("/Client7/EntryGroup3"))]);
    assert_eq!(reply.object_path(), Ok(ObjectPath::new("/Client7/EntryGroup3")));
}

#[test]
fn reply_decodes_its_first_argument_only() {
    let reply = Reply::Return(vec![
        Arg::Path(ObjectPath::new("/first")),
        Arg::Path(ObjectPath::new("/second")),
        Arg::Int32(3),
    ]);
    assert_eq!(reply.object_path(), Ok(ObjectPath::new("/first")));
}

#[test]
fn reply_without_arguments_is_malformed() {
    assert_eq!(Reply::Return(Vec::new()).object_path(), Err(Error::MalformedReply));
}

#[test]
fn reply_with_another_first_argument_is_malformed() {
    let firsts = vec![
        Arg::Int32(1),
        Arg::UInt32(1),
        Arg::UInt16(1),
        Arg::Str(String::from("/looks/like/a/path")),
        Arg::Other,
    ];
    for first in firsts {
        let reply = Reply::Return(vec![first, Arg::Path(ObjectPath::new("/late"))]);
        assert_eq!(reply.object_path(), Err(Error::MalformedReply));
    }
}

#[test]
fn timeout_decodes_to_timeout() {
    assert_eq!(Reply::Timeout.object_path(), Err(Error::Timeout));
}

#[test]
fn error_reply_decodes_to_remote_with_its_name_and_text() {
    let reply = Reply::Error {
        name: String::from("org.freedesktop.Avahi.TooManyObjectsError"),
        message: String::from("Too many objects"),
    };
    assert_eq!(
        reply.object_path(),
        Err(Error::Remote {
            name: String::from("org.freedesktop.Avahi.TooManyObjectsError"),
            message: String::from("Too many objects"),
        })
    );
}

#[test]
fn missing_reply_is_reported_as_timeout() {
    assert_eq!(NO_REPLY, "org.freedesktop.DBus.Error.NoReply");
    assert_eq!(
        Reply::from_error("org.freedesktop.DBus.Error.NoReply", "Did not receive a reply."),
        Reply::Timeout
    );
    assert_eq!(Reply::from_error(NO_REPLY, ""), Reply::Timeout);
}

#[test]
fn other_failures_are_reported_as_error_replies() {
    assert_eq!(
        Reply::from_error("org.freedesktop.DBus.Error.ServiceUnknown", "no such service"),
        Reply::Error {
            name: String::from("org.freedesktop.DBus.Error.ServiceUnknown"),
            message: String::from("no such service"),
        }
    );
    assert_eq!(
        Reply::from_error("org.freedesktop.DBus.Error.Timeout", "socket timed out"),
        Reply::Error {
            name: String::from("org.freedesktop.DBus.Error.Timeout"),
            message: String::from("socket timed out"),
        }
    );
    assert_eq!(
        Reply::from_error("org.freedesktop.DBus.Error.NoReply2", "x"),
        Reply::Error { name: String::from("org.freedesktop.DBus.Error.NoReply2"), message: String::from("x") }
    );
    assert_eq!(
        Reply::from_error("", ""),
        Reply::Error { name: String::new(), message: String::new() }
    );
}

#[test]
fn error_clone_is_equal() {
    let errors = vec![
        Error::Timeout,
        Error::Remote { name: String::from("n"), message: String::from("m") },
        Error::MalformedReply,
    ];
    for error in &errors {
        assert_eq!(&error.clone(), error);
    }
}
