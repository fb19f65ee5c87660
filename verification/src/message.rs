//! The values that travel between this client and the message bus: object
//! paths, typed arguments, method calls, and what comes back for a call that
//! waits for its reply.
//!
//! Nothing here touches the bus. A [`MethodCall`] describes a message to send;
//! a [`Reply`] describes what the transport got back.

use vstd::prelude::*;
use crate::naming::{camel, to_camel};

verus! {

/// Path of the root object of a service.
pub const ROOT_PATH: &'static str = "/";

/// Error name under which the bus reports that no reply came in time.
pub const NO_REPLY: &'static str = "org.freedesktop.DBus.Error.NoReply";

/// The name of a remote object that a service on the bus exposes.
#[derive(Debug, PartialEq, Eq)]
pub struct ObjectPath {
    text: String,
}

impl View for ObjectPath {
    type V = Seq<char>;

    closed spec fn view(&self) -> Seq<char> {
        self.text@
    }
}

impl Clone for ObjectPath {
    fn clone(&self) -> (copy: Self)
        ensures
            copy@ == self@,
    {
        ObjectPath { text: self.text.clone() }
    }
}

impl ObjectPath {
    /// The object path with the given text.
    pub fn new(text: &str) -> (path: ObjectPath)
        ensures
            path@ == text@,
    {
        ObjectPath { text: text.to_owned() }
    }

    /// The path of a service's root object, `/`.
    pub fn root() -> (path: ObjectPath)
        ensures
            path@ == ROOT_PATH@,
    {
        ObjectPath::new(ROOT_PATH)
    }

    /// The text of the path.
    pub fn as_str(&self) -> (text: &str)
        ensures
            text@ == self@,
    {
        self.text.as_str()
    }
}

/// One argument of a message, with its wire type.
#[derive(Debug, PartialEq, Eq)]
pub enum Arg {
    /// A signed 32-bit integer.
    Int32(i32),
    /// An unsigned 32-bit integer.
    UInt32(u32),
    /// An unsigned 16-bit integer.
    UInt16(u16),
    /// A string.
    Str(String),
    /// An object path.
    Path(ObjectPath),
    /// An argument of a wire type that this client never reads.
    Other,
}

/// What an [`Arg`] holds, as a mathematical value.
pub enum ArgView {
    Int32(i32),
    UInt32(u32),
    UInt16(u16),
    Str(Seq<char>),
    Path(Seq<char>),
    Other,
}

impl View for Arg {
    type V = ArgView;

    open spec fn view(&self) -> ArgView {
        match self {
            Arg::Int32(value) => ArgView::Int32(*value),
            Arg::UInt32(value) => ArgView::UInt32(*value),
            Arg::UInt16(value) => ArgView::UInt16(*value),
            Arg::Str(text) => ArgView::Str(text@),
            Arg::Path(path) => ArgView::Path(path@),
            Arg::Other => ArgView::Other,
        }
    }
}

impl Clone for Arg {
    fn clone(&self) -> (copy: Self)
        ensures
            copy@ == self@,
    {
        match self {
            Arg::Int32(value) => Arg::Int32(*value),
            Arg::UInt32(value) => Arg::UInt32(*value),
            Arg::UInt16(value) => Arg::UInt16(*value),
            Arg::Str(text) => Arg::Str(text.clone()),
            Arg::Path(path) => Arg::Path(path.clone()),
            Arg::Other => Arg::Other,
        }
    }
}

/// The views of a list of arguments, in the same order.
pub open spec fn args_view(args: Seq<Arg>) -> Seq<ArgView> {
    args.map_values(|arg: Arg| arg@)
}

/// A copy of a list of arguments.
pub fn clone_args(args: &Vec<Arg>) -> (copy: Vec<Arg>)
    ensures
        args_view(copy@) == args_view(args@),
{
    let mut copy: Vec<Arg> = Vec::new();
    let mut i: usize = 0;
    while i < args.len()
        invariant
            i <= args.len(),
            copy.len() == i,
            forall|k: int| 0 <= k < i ==> (#[trigger] copy[k])@ == args[k]@,
        decreases args.len() - i,
    {
        copy.push(args[i].clone());
        i += 1;
    }
    assert(args_view(copy@) =~= args_view(args@));
    copy
}

/// A method invocation addressed to one remote object.
#[derive(Debug, PartialEq, Eq)]
pub struct MethodCall {
    /// Bus name of the service that owns the object.
    pub destination: String,
    /// The object on which the method is invoked.
    pub path: ObjectPath,
    /// The interface that declares the method.
    pub interface: String,
    /// The method's name in the wire convention.
    pub member: String,
    /// The arguments, in the order of the method's parameters.
    pub args: Vec<Arg>,
    /// Whether the caller waits for the reply to this call.
    pub expect_reply: bool,
}

/// What a [`MethodCall`] holds, as a mathematical value.
pub struct MethodCallView {
    pub destination: Seq<char>,
    pub path: Seq<char>,
    pub interface: Seq<char>,
    pub member: Seq<char>,
    pub args: Seq<ArgView>,
    pub expect_reply: bool,
}

impl View for MethodCall {
    type V = MethodCallView;

    open spec fn view(&self) -> MethodCallView {
        MethodCallView {
            destination: self.destination@,
            path: self.path@,
            interface: self.interface@,
            member: self.member@,
            args: args_view(self.args@),
            expect_reply: self.expect_reply,
        }
    }
}

impl Clone for MethodCall {
    fn clone(&self) -> (copy: Self)
        ensures
            copy@ == self@,
    {
        MethodCall {
            destination: self.destination.clone(),
            path: self.path.clone(),
            interface: self.interface.clone(),
            member: self.member.clone(),
            args: clone_args(&self.args),
            expect_reply: self.expect_reply,
        }
    }
}

/// The views of a list of method calls, in the same order.
pub open spec fn calls_view(calls: Seq<MethodCall>) -> Seq<MethodCallView> {
    calls.map_values(|call: MethodCall| call@)
}

impl MethodCall {
    /// The invocation of `method` on the object `path` of the service
    /// `destination`.
    ///
    /// `method` is the method's snake-case identifier; the call carries its
    /// camel-case name. The arguments are carried as they are given, in the
    /// same order and with the same wire types.
    pub fn new(
        destination: &str,
        path: &ObjectPath,
        interface: &str,
        method: &str,
        args: Vec<Arg>,
        expect_reply: bool,
    ) -> (call: MethodCall)
        ensures
            call@ == (MethodCallView {
                destination: destination@,
                path: path@,
                interface: interface@,
                member: camel(method@),
                args: args_view(args@),
                expect_reply,
            }),
    {
        MethodCall {
            destination: destination.to_owned(),
            path: path.clone(),
            interface: interface.to_owned(),
            member: to_camel(method),
            args,
            expect_reply,
        }
    }
}

/// Why a call that waited for its reply failed.
#[derive(Debug, PartialEq, Eq)]
pub enum Error {
    /// No reply came within the time allowed.
    Timeout,
    /// The remote side answered with an error reply.
    Remote {
        /// The error's name.
        name: String,
        /// The text that came with it.
        message: String,
    },
    /// A reply came, but its first argument is missing or of the wrong type.
    MalformedReply,
}

/// What an [`Error`] holds, as a mathematical value.
pub enum ErrorView {
    Timeout,
    Remote { name: Seq<char>, message: Seq<char> },
    MalformedReply,
}

impl View for Error {
    type V = ErrorView;

    open spec fn view(&self) -> ErrorView {
        match self {
            Error::Timeout => ErrorView::Timeout,
            Error::Remote { name, message } => ErrorView::Remote { name: name@, message: message@ },
            Error::MalformedReply => ErrorView::MalformedReply,
        }
    }
}

impl Clone for Error {
    fn clone(&self) -> (copy: Self)
        ensures
            copy@ == self@,
    {
        match self {
            Error::Timeout => Error::Timeout,
            Error::Remote { name, message } => Error::Remote {
                name: name.clone(),
                message: message.clone(),
            },
            Error::MalformedReply => Error::MalformedReply,
        }
    }
}

/// What the transport reports for a call that waited for its reply.
#[derive(Debug, PartialEq, Eq)]
pub enum Reply {
    /// The time allowed ran out before a reply came.
    Timeout,
    /// The remote side answered with an error reply.
    Error {
        /// The error's name.
        name: String,
        /// The text that came with it.
        message: String,
    },
    /// The remote side answered with a method return that carries these
    /// arguments.
    Return(Vec<Arg>),
}

/// What a [`Reply`] holds, as a mathematical value.
pub enum ReplyView {
    Timeout,
    Error { name: Seq<char>, message: Seq<char> },
    Return(Seq<ArgView>),
}

impl View for Reply {
    type V = ReplyView;

    open spec fn view(&self) -> ReplyView {
        match self {
            Reply::Timeout => ReplyView::Timeout,
            Reply::Error { name, message } => ReplyView::Error { name: name@, message: message@ },
            Reply::Return(args) => ReplyView::Return(args_view(args@)),
        }
    }
}

/// The reply that stands for a failure which the bus reported under `name`:
/// a timeout where the name is [`NO_REPLY`], an error reply otherwise.
pub open spec fn reply_of_error(name: Seq<char>, message: Seq<char>) -> ReplyView {
    if name == NO_REPLY@ {
        ReplyView::Timeout
    } else {
        ReplyView::Error { name, message }
    }
}

/// The object path that a reply yields: its first argument, where the call
/// was answered by a method return whose first argument is an object path.
pub open spec fn decode_object_path(reply: ReplyView) -> Result<Seq<char>, ErrorView> {
    match reply {
        ReplyView::Timeout => Err(ErrorView::Timeout),
        ReplyView::Error { name, message } => Err(ErrorView::Remote { name, message }),
        ReplyView::Return(args) => {
            if args.len() > 0 && args[0] is Path {
                Ok(args[0]->Path_0)
            } else {
                Err(ErrorView::MalformedReply)
            }
        },
    }
}

/// The view of a decoded object path or of the error that took its place.
pub open spec fn decoded_view(decoded: Result<ObjectPath, Error>) -> Result<
    Seq<char>,
    ErrorView,
> {
    match decoded {
        Ok(path) => Ok(path@),
        Err(error) => Err(error@),
    }
}

/// Whether two strings hold the same text.
fn same_text(a: &str, b: &str) -> (same: bool)
    ensures
        same == (a@ == b@),
{
    let left = a.to_owned();
    let right = b.to_owned();
    left == right
}

impl Reply {
    /// The reply that stands for a failure of the call, as the bus reports
    /// it: by an error name and a text.
    ///
    /// The bus reports a reply that did not come in time under the name
    /// [`NO_REPLY`]; every other name is an error reply of the remote side.
    pub fn from_error(name: &str, message: &str) -> (reply: Reply)
        ensures
            reply@ == reply_of_error(name@, message@),
    {
        if same_text(name, NO_REPLY) {
            Reply::Timeout
        } else {
            Reply::Error { name: name.to_owned(), message: message.to_owned() }
        }
    }

    /// Decodes the first argument of the reply as an object path.
    ///
    /// A timeout gives [`Error::Timeout`], an error reply gives
    /// [`Error::Remote`] with the name and text of the reply, and a method
    /// return without arguments, or whose first argument is no object path,
    /// gives [`Error::MalformedReply`].
    pub fn object_path(&self) -> (decoded: Result<ObjectPath, Error>)
        ensures
            decoded_view(decoded) == decode_object_path(self@),
    {
        match self {
            Reply::Timeout => Err(Error::Timeout),
            Reply::Error { name, message } => Err(
                Error::Remote { name: name.clone(), message: message.clone() },
            ),
            Reply::Return(args) => {
                if args.len() == 0 {
                    Err(Error::MalformedReply)
                } else {
                    match &args[0] {
                        Arg::Path(path) => Ok(path.clone()),
                        _ => Err(Error::MalformedReply),
                    }
                }
            },
        }
    }
}

} // verus!
