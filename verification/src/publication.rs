//! One run of the publication protocol, as a state machine.
//!
//! A publication goes from `Start` over `GroupCreated` to `Published`, or
//! fails for good. A [`Publication`] says which [`Action`] is due and takes
//! the [`Event`] that answers it; whoever owns the bus connection performs
//! the actions. The machine never tries a step again.

use vstd::prelude::*;
use crate::avahi::{
    avahi_group, avahi_server, commit_call, entry_group_new_call, publish_service_call, EntryGroup,
    Server, AVAHI_BUS_NAME, IF_UNSPEC, PROTO_UNSPEC, PUBLISH_FLAGS, REPLY_TIMEOUT_MS,
    DEFAULT_DOMAIN, DEFAULT_HOST, NO_TXT, SERVICE_NAME, SERVICE_TYPE,
};
use crate::message::{
    decode_object_path, ArgView, Error, ErrorView, MethodCall, MethodCallView, ObjectPath, Reply,
    ReplyView,
};

verus! {

/// How far a publication has come.
#[derive(Debug, PartialEq, Eq)]
pub enum PublishState {
    /// No entry group exists yet.
    Start,
    /// The daemon has created the entry group with this object path.
    GroupCreated(ObjectPath),
    /// The service record was added to the group and the group committed.
    Published,
    /// The publication was given up with this error.
    Failed(Error),
}

/// What a [`PublishState`] holds, as a mathematical value.
pub enum PublishStateView {
    Start,
    GroupCreated(Seq<char>),
    Published,
    Failed(ErrorView),
}

impl View for PublishState {
    type V = PublishStateView;

    open spec fn view(&self) -> PublishStateView {
        match self {
            PublishState::Start => PublishStateView::Start,
            PublishState::GroupCreated(path) => PublishStateView::GroupCreated(path@),
            PublishState::Published => PublishStateView::Published,
            PublishState::Failed(error) => PublishStateView::Failed(error@),
        }
    }
}

/// What the owner of the bus connection is to do for a publication.
#[derive(Debug, PartialEq, Eq)]
pub enum Action {
    /// Send the call, wait for its reply for at most `timeout_ms`
    /// milliseconds, and report what came back as [`Event::Reply`].
    Call {
        /// The call to send.
        call: MethodCall,
        /// The longest time to wait for the reply, in milliseconds.
        timeout_ms: i32,
    },
    /// Send the calls in this order without waiting for any reply, and
    /// report [`Event::Sent`].
    Send(Vec<MethodCall>),
    /// Nothing more is to be done: the publication has ended with this
    /// result.
    Finish(Result<(), Error>),
}

/// What an [`Action`] holds, as a mathematical value.
pub enum ActionView {
    Call { call: MethodCallView, timeout_ms: i32 },
    Send(Seq<MethodCallView>),
    Finish(Result<(), ErrorView>),
}

/// The view of the result that ends a publication.
pub open spec fn result_view(result: Result<(), Error>) -> Result<(), ErrorView> {
    match result {
        Ok(()) => Ok(()),
        Err(error) => Err(error@),
    }
}

impl View for Action {
    type V = ActionView;

    open spec fn view(&self) -> ActionView {
        match self {
            Action::Call { call, timeout_ms } => ActionView::Call {
                call: call@,
                timeout_ms: *timeout_ms,
            },
            Action::Send(calls) => ActionView::Send(calls@.map_values(|call: MethodCall| call@)),
            Action::Finish(result) => ActionView::Finish(result_view(*result)),
        }
    }
}

/// What the owner of the bus connection reports back.
#[derive(Debug, PartialEq, Eq)]
pub enum Event {
    /// What came back for the call that waited for its reply.
    Reply(Reply),
    /// The calls that wait for no reply were handed to the transport.
    Sent,
}

/// What an [`Event`] holds, as a mathematical value.
pub enum EventView {
    Reply(ReplyView),
    Sent,
}

impl View for Event {
    type V = EventView;

    open spec fn view(&self) -> EventView {
        match self {
            Event::Reply(reply) => EventView::Reply(reply@),
            Event::Sent => EventView::Sent,
        }
    }
}

/// The state that follows `state` on `event`.
///
/// At the start, the reply to `EntryGroupNew` decides: an object path as its
/// first argument creates the group, anything else fails the publication
/// for good. Once the group exists, the record and the commit are sent
/// without waiting, after which the service counts as published. An event
/// that the state does not wait for changes nothing.
pub open spec fn next_state(state: PublishStateView, event: EventView) -> PublishStateView {
    match (state, event) {
        (PublishStateView::Start, EventView::Reply(reply)) => match decode_object_path(reply) {
            Ok(path) => PublishStateView::GroupCreated(path),
            Err(error) => PublishStateView::Failed(error),
        },
        (PublishStateView::GroupCreated(_), EventView::Sent) => PublishStateView::Published,
        _ => state,
    }
}

/// The action that is due in `state` for a publication on `port`.
pub open spec fn pending_action(port: u16, state: PublishStateView) -> ActionView {
    match state {
        PublishStateView::Start => ActionView::Call {
            call: entry_group_new_call(avahi_server()),
            timeout_ms: REPLY_TIMEOUT_MS,
        },
        PublishStateView::GroupCreated(path) => ActionView::Send(
            seq![publish_service_call(path, port), commit_call(avahi_group(path))],
        ),
        PublishStateView::Published => ActionView::Finish(Ok(())),
        PublishStateView::Failed(error) => ActionView::Finish(Err(error)),
    }
}

/// What a [`Publication`] holds, as a mathematical value.
pub struct PublicationView {
    pub port: u16,
    pub state: PublishStateView,
}

/// One run of the publication protocol for the service on one port.
#[derive(Debug, PartialEq, Eq)]
pub struct Publication {
    server: Server,
    port: u16,
    state: PublishState,
}

impl View for Publication {
    type V = PublicationView;

    closed spec fn view(&self) -> PublicationView {
        PublicationView { port: self.port, state: self.state@ }
    }
}

impl Publication {
    #[verifier::type_invariant]
    spec fn bound(&self) -> bool {
        self.server@ == avahi_server()
    }

    /// A publication at its start, for the service on `port`, that speaks
    /// to the daemon's server object through `server`.
    pub(crate) fn start(server: Server, port: u16) -> (publication: Publication)
        requires
            server@ == avahi_server(),
        ensures
            publication@ == (PublicationView { port, state: PublishStateView::Start }),
    {
        Publication { server, port, state: PublishState::Start }
    }

    /// The port on which the published service listens.
    pub fn port(&self) -> (port: u16)
        ensures
            port == self@.port,
    {
        self.port
    }

    /// How far the publication has come.
    pub fn state(&self) -> (state: &PublishState)
        ensures
            state@ == self@.state,
    {
        &self.state
    }

    /// The action that is due now.
    ///
    /// At the start it is the `EntryGroupNew` call on the daemon's server
    /// object, whose reply is awaited for two seconds at most. Once the
    /// group exists it is the pair of `AddService`, with the fixed record
    /// and this publication's port, and `Commit`, both on the new group and
    /// neither waiting for a reply. After that nothing is left but to
    /// return the result.
    pub fn action(&self) -> (action: Action)
        ensures
            action@ == pending_action(self@.port, self@.state),
    {
        proof {
            use_type_invariant(self);
        }
        match &self.state {
            PublishState::Start => Action::Call {
                call: self.server.entry_group_new(),
                timeout_ms: REPLY_TIMEOUT_MS,
            },
            PublishState::GroupCreated(path) => {
                proof {
                    reveal_strlit("org.freedesktop.Avahi");
                }
                let group = EntryGroup::new(AVAHI_BUS_NAME, path.clone());
                let mut calls: Vec<MethodCall> = Vec::new();
                calls.push(
                    group.add_service(
                        IF_UNSPEC,
                        PROTO_UNSPEC,
                        PUBLISH_FLAGS,
                        SERVICE_NAME,
                        SERVICE_TYPE,
                        DEFAULT_DOMAIN,
                        DEFAULT_HOST,
                        self.port,
                        NO_TXT,
                    ),
                );
                calls.push(group.commit());
                assert(calls@.map_values(|call: MethodCall| call@) =~= seq![
                    publish_service_call(path@, self.port),
                    commit_call(avahi_group(path@)),
                ]);
                Action::Send(calls)
            },
            PublishState::Published => Action::Finish(Ok(())),
            PublishState::Failed(error) => Action::Finish(Err(error.clone())),
        }
    }

    /// Takes the event that answers the action and moves on.
    ///
    /// No step is tried again, and a publication that has failed or is
    /// published stays as it is.
    pub fn advance(self, event: Event) -> (next: Publication)
        ensures
            next@ == (PublicationView {
                port: self@.port,
                state: next_state(self@.state, event@),
            }),
    {
        proof {
            use_type_invariant(&self);
        }
        let Publication { server, port, state } = self;
        let state = match (state, event) {
            (PublishState::Start, Event::Reply(reply)) => match reply.object_path() {
                Ok(path) => PublishState::GroupCreated(path),
                Err(error) => PublishState::Failed(error),
            },
            (PublishState::GroupCreated(_), Event::Sent) => PublishState::Published,
            (state, _) => state,
        };
        Publication { server, port, state }
    }
}

/// The calls that a complete publication issues, in order, and the result
/// with which it ends.
pub struct Transcript {
    pub calls: Seq<MethodCallView>,
    pub result: Result<(), ErrorView>,
}

/// The calls that performing `action` puts on the bus, in order.
pub open spec fn issued(action: ActionView) -> Seq<MethodCallView> {
    match action {
        ActionView::Call { call, timeout_ms } => seq![call],
        ActionView::Send(calls) => calls,
        ActionView::Finish(result) => Seq::empty(),
    }
}

/// The event that answers `action`, where the daemon's answer to a call
/// that waits for its reply is `reply`.
pub open spec fn answer(action: ActionView, reply: ReplyView) -> EventView {
    match action {
        ActionView::Call { call, timeout_ms } => EventView::Reply(reply),
        _ => EventView::Sent,
    }
}

/// The number of actions that come before the end, at most.
pub open spec fn steps_left(state: PublishStateView) -> nat {
    match state {
        PublishStateView::Start => 2,
        PublishStateView::GroupCreated(_) => 1,
        PublishStateView::Published => 0,
        PublishStateView::Failed(_) => 0,
    }
}

/// What happens from `state` on, when each action that is due is performed
/// and answered until the publication ends.
pub open spec fn drive(port: u16, state: PublishStateView, reply: ReplyView) -> Transcript
    decreases steps_left(state),
{
    let action = pending_action(port, state);
    match action {
        ActionView::Finish(result) => Transcript { calls: Seq::empty(), result },
        _ => {
            let rest = drive(port, next_state(state, answer(action, reply)), reply);
            Transcript { calls: issued(action) + rest.calls, result: rest.result }
        },
    }
}

/// One complete publication of the service on `port`, against a daemon
/// that answers `EntryGroupNew` with `reply`.
pub open spec fn run(port: u16, reply: ReplyView) -> Transcript {
    drive(port, PublishStateView::Start, reply)
}

/// Against a daemon that accepts every call, a publication issues exactly
/// three calls, in this order: `EntryGroupNew` on the server object, whose
/// reply is awaited; `AddService` on the group that the reply names, with
/// the fixed record and the given port, no reply awaited; and `Commit` on
/// the same group, no reply awaited. It ends with success.
pub proof fn lemma_publish_accepted(port: u16, args: Seq<ArgView>)
    requires
        args.len() > 0,
        args[0] is Path,
    ensures
        run(port, ReplyView::Return(args)) == (Transcript {
            calls: seq![
                entry_group_new_call(avahi_server()),
                publish_service_call(args[0]->Path_0, port),
                commit_call(avahi_group(args[0]->Path_0)),
            ],
            result: Ok(()),
        }),
{
    reveal_with_fuel(drive, 3);
    let group = args[0]->Path_0;
    assert(run(port, ReplyView::Return(args)).calls =~= seq![
        entry_group_new_call(avahi_server()),
        publish_service_call(group, port),
        commit_call(avahi_group(group)),
    ]);
}

/// Where no reply to `EntryGroupNew` comes in time, the publication ends
/// with `Timeout` and has issued no call but `EntryGroupNew`.
pub proof fn lemma_publish_timeout(port: u16)
    ensures
        run(port, ReplyView::Timeout) == (Transcript {
            calls: seq![entry_group_new_call(avahi_server())],
            result: Err(ErrorView::Timeout),
        }),
{
    reveal_with_fuel(drive, 2);
    assert(run(port, ReplyView::Timeout).calls =~= seq![entry_group_new_call(avahi_server())]);
}

/// Where the daemon answers `EntryGroupNew` with an error reply, the
/// publication ends with `Remote`, which carries the reply's name and text,
/// and has issued no call but `EntryGroupNew`.
pub proof fn lemma_publish_rejected(port: u16, name: Seq<char>, message: Seq<char>)
    ensures
        run(port, ReplyView::Error { name, message }) == (Transcript {
            calls: seq![entry_group_new_call(avahi_server())],
            result: Err(ErrorView::Remote { name, message }),
        }),
{
    reveal_with_fuel(drive, 2);
    assert(run(port, ReplyView::Error { name, message }).calls =~= seq![
        entry_group_new_call(avahi_server()),
    ]);
}

/// Where the reply to `EntryGroupNew` holds no argument, or a first
/// argument that is no object path, the publication ends with
/// `MalformedReply` and has issued no call but `EntryGroupNew`.
pub proof fn lemma_publish_malformed(port: u16, args: Seq<ArgView>)
    requires
        args.len() == 0 || !(args[0] is Path),
    ensures
        run(port, ReplyView::Return(args)) == (Transcript {
            calls: seq![entry_group_new_call(avahi_server())],
            result: Err(ErrorView::MalformedReply),
        }),
{
    reveal_with_fuel(drive, 2);
    assert(run(port, ReplyView::Return(args)).calls =~= seq![
        entry_group_new_call(avahi_server()),
    ]);
}

/// Two publications against a daemon that accepts every call issue six
/// calls: each publication asks for an entry group of its own, and adds its
/// record to, and commits, the group that its own reply names. No group is
/// kept from the first publication for the second.
pub proof fn lemma_publish_twice(
    first_port: u16,
    first_group: Seq<char>,
    second_port: u16,
    second_group: Seq<char>,
)
    ensures
        run(first_port, ReplyView::Return(seq![ArgView::Path(first_group)])).calls + run(
            second_port,
            ReplyView::Return(seq![ArgView::Path(second_group)]),
        ).calls == seq![
            entry_group_new_call(avahi_server()),
            publish_service_call(first_group, first_port),
            commit_call(avahi_group(first_group)),
            entry_group_new_call(avahi_server()),
            publish_service_call(second_group, second_port),
            commit_call(avahi_group(second_group)),
        ],
{
    lemma_publish_accepted(first_port, seq![ArgView::Path(first_group)]);
    lemma_publish_accepted(second_port, seq![ArgView::Path(second_group)]);
}

/// A publication that has ended stays as it is, whatever event comes, and
/// nothing is left for it to send.
pub proof fn lemma_end_is_final(port: u16, state: PublishStateView, event: EventView)
    requires
        state is Published || state is Failed,
    ensures
        next_state(state, event) == state,
        pending_action(port, state) is Finish,
        issued(pending_action(port, state)) == Seq::<MethodCallView>::empty(),
{
}

} // verus!
