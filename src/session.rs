//! Per-connection state and the routing decision for each inbound frame.
use vstd::prelude::*;
use vstd::string::StringExecFns;
use crate::command::{decoded, Command, CommandView};
use crate::frame::{Action, ActionView, Frame, FrameView};
use crate::registry::{no_binding_to, without_handle, Registry};

verus! {

/// Choices the relay leaves open.
#[derive(Clone, Copy, Debug, PartialEq, Eq)]
pub struct Policy {
    /// On a `register` command, keep the identifiers the connection already
    /// had; otherwise the new identifier replaces them.
    pub keep_auto_id: bool,
    /// Answer a binary frame sent before any relay target with an error.
    pub report_untargeted_binary: bool,
}

/// One connection: its first identifier, its handle in the registry, the
/// last target it relayed text to, and its policy.
#[derive(Debug)]
pub struct Session {
    id: String,
    handle: u64,
    last_target: Option<String>,
    policy: Policy,
}

pub struct SessionView {
    pub id: Seq<char>,
    pub handle: u64,
    pub last_target: Option<Seq<char>>,
    pub policy: Policy,
}

impl View for Session {
    type V = SessionView;

    closed spec fn view(&self) -> SessionView {
        SessionView {
            id: self.id@,
            handle: self.handle,
            last_target: match self.last_target {
                Some(t) => Some(t@),
                None => None,
            },
            policy: self.policy,
        }
    }
}

/// The registry, session and action after routing one frame.
pub struct Step {
    pub registry: Map<Seq<char>, u64>,
    pub session: SessionView,
    pub action: ActionView,
}

pub open spec fn registered_reply(id: Seq<char>) -> Seq<char> {
    "{\"type\":\"registered\",\"id\":\""@ + id + "\"}"@
}

pub open spec fn target_not_found_reply(target: Seq<char>) -> Seq<char> {
    "{\"type\":\"error\",\"message\":\"Target "@ + target + " not found\"}"@
}

pub open spec fn no_target_reply() -> Seq<char> {
    "{\"type\":\"error\",\"message\":\"No target set for binary transfer\"}"@
}

/// The bindings after session `s` registers under `id`.
pub open spec fn after_register(reg: Map<Seq<char>, u64>, s: SessionView, id: Seq<char>) -> Map<
    Seq<char>,
    u64,
> {
    if s.policy.keep_auto_id {
        reg.insert(id, s.handle)
    } else {
        without_handle(reg, s.handle).insert(id, s.handle)
    }
}

/// Relay `frame` to whatever `target` is bound to, if anything.
pub open spec fn deliver_to(reg: Map<Seq<char>, u64>, target: Seq<char>, frame: FrameView) -> ActionView {
    if reg.contains_key(target) {
        ActionView::Deliver(reg[target], frame)
    } else {
        ActionView::Ignore
    }
}

/// Routing of the text frame `text` from session `s`, which carries `cmd`.
pub open spec fn command_step(
    reg: Map<Seq<char>, u64>,
    s: SessionView,
    text: Seq<char>,
    cmd: CommandView,
) -> Step {
    match cmd {
        CommandView::Register(id) => Step {
            registry: after_register(reg, s, id),
            session: s,
            action: ActionView::Reply(FrameView::Text(registered_reply(id))),
        },
        CommandView::CheckRecipient(_) => Step { registry: reg, session: s, action: ActionView::Ignore },
        CommandView::ReceiverReady(sender) => Step {
            registry: reg,
            session: s,
            action: deliver_to(reg, sender, FrameView::Text(text)),
        },
        CommandView::Relay(target) => Step {
            registry: reg,
            session: SessionView { last_target: Some(target), ..s },
            action: if reg.contains_key(target) {
                ActionView::Deliver(reg[target], FrameView::Text(text))
            } else {
                ActionView::Reply(FrameView::Text(target_not_found_reply(target)))
            },
        },
        CommandView::Unrecognized => Step { registry: reg, session: s, action: ActionView::Ignore },
    }
}

/// Routing of any inbound frame from session `s`.
pub open spec fn frame_step(reg: Map<Seq<char>, u64>, s: SessionView, f: FrameView) -> Step {
    match f {
        FrameView::Text(text) => command_step(reg, s, text, decoded(text)),
        FrameView::Binary(b) => Step {
            registry: reg,
            session: s,
            action: match s.last_target {
                Some(target) => deliver_to(reg, target, FrameView::Binary(b)),
                None => if s.policy.report_untargeted_binary {
                    ActionView::Reply(FrameView::Text(no_target_reply()))
                } else {
                    ActionView::Ignore
                },
            },
        },
        FrameView::Close => Step { registry: reg, session: s, action: ActionView::Close },
        other => Step { registry: reg, session: s, action: ActionView::Reply(other) },
    }
}

/// Relies on uuid's `Uuid::new_v4` and its `Display`: a random identifier
/// in the 36-character hyphenated form.
#[verifier::external_body]
fn random_identifier() -> (r: String)
    ensures
        r@.len() == 36,
{
    uuid::Uuid::new_v4().to_string()
}

fn registered_text(id: &String) -> (r: String)
    ensures
        r@ == registered_reply(id@),
{
    let mut r = String::from_str("{\"type\":\"registered\",\"id\":\"");
    r.append(id.as_str());
    r.append("\"}");
    r
}

fn target_not_found_text(target: &String) -> (r: String)
    ensures
        r@ == target_not_found_reply(target@),
{
    let mut r = String::from_str("{\"type\":\"error\",\"message\":\"Target ");
    r.append(target.as_str());
    r.append(" not found\"}");
    r
}

impl Session {
    /// The identifier the session was opened under.
    pub fn id(&self) -> (r: &String)
        ensures
            r@ == self@.id,
    {
        &self.id
    }

    /// The session's handle in the registry.
    pub fn handle(&self) -> (r: u64)
        ensures
            r == self@.handle,
    {
        self.handle
    }

    /// The target of the session's last text relay, if any.
    pub fn last_target(&self) -> (r: &Option<String>)
        ensures
            crate::command::opt_view(*r) == self@.last_target,
    {
        &self.last_target
    }

    /// Opens a session under `id`: issues it a fresh handle and binds `id`
    /// to it. `None`, with the registry unchanged, once the registry has no
    /// handle left to issue.
    pub fn open_with_id(registry: &mut Registry, id: String, policy: Policy) -> (r: Option<Session>)
        requires
            old(registry).wf(),
        ensures
            final(registry).wf(),
            r.is_none() <==> old(registry).next() == u64::MAX,
            r.is_none() ==> final(registry)@ == old(registry)@ && final(registry).next() == old(registry).next(),
            r matches Some(s) ==> {
                &&& s@.id == id@
                &&& s@.handle == old(registry).next()
                &&& s@.last_target.is_none()
                &&& s@.policy == policy
                &&& no_binding_to(old(registry)@, s@.handle)
                &&& final(registry)@ == old(registry)@.insert(id@, s@.handle)
                &&& final(registry).issued(s@.handle)
                &&& final(registry).next() == s@.handle + 1
            },
    {
        match registry.issue_handle() {
            None => None,
            Some(handle) => {
                registry.register(id.clone(), handle);
                Some(Session { id, handle, last_target: None, policy })
            },
        }
    }

    /// Opens a session under a fresh random identifier.
    pub fn open(registry: &mut Registry, policy: Policy) -> (r: Option<Session>)
        requires
            old(registry).wf(),
        ensures
            final(registry).wf(),
            r.is_none() <==> old(registry).next() == u64::MAX,
            r.is_none() ==> final(registry)@ == old(registry)@ && final(registry).next() == old(registry).next(),
            r matches Some(s) ==> {
                &&& s@.id.len() == 36
                &&& s@.handle == old(registry).next()
                &&& s@.last_target.is_none()
                &&& s@.policy == policy
                &&& no_binding_to(old(registry)@, s@.handle)
                &&& final(registry)@ == old(registry)@.insert(s@.id, s@.handle)
                &&& final(registry).issued(s@.handle)
                &&& final(registry).next() == s@.handle + 1
            },
    {
        let id = random_identifier();
        Session::open_with_id(registry, id, policy)
    }

    /// Routes the text frame `text`, which carries `cmd`.
    pub fn route_command(&mut self, registry: &mut Registry, text: String, cmd: Command) -> (r: Action)
        requires
            old(registry).wf(),
            old(registry).issued(old(self)@.handle),
        ensures
            final(registry).wf(),
            final(registry).next() == old(registry).next(),
            final(registry)@ == command_step(old(registry)@, old(self)@, text@, cmd@).registry,
            final(self)@ == command_step(old(registry)@, old(self)@, text@, cmd@).session,
            r@ == command_step(old(registry)@, old(self)@, text@, cmd@).action,
    {
        match cmd {
            Command::Register(id) => {
                let reply = registered_text(&id);
                if !self.policy.keep_auto_id {
                    registry.unregister_connection(self.handle);
                }
                registry.register(id, self.handle);
                Action::Reply(Frame::Text(reply))
            },
            Command::CheckRecipient(_) => Action::Ignore,
            Command::ReceiverReady(sender) => match registry.lookup(&sender) {
                Some(to) => Action::Deliver { to, frame: Frame::Text(text) },
                None => Action::Ignore,
            },
            Command::Relay(target) => {
                let action = match registry.lookup(&target) {
                    Some(to) => Action::Deliver { to, frame: Frame::Text(text) },
                    None => Action::Reply(Frame::Text(target_not_found_text(&target))),
                };
                self.last_target = Some(target);
                action
            },
            Command::Unrecognized => Action::Ignore,
        }
    }

    /// Routes one inbound frame.
    pub fn route(&mut self, registry: &mut Registry, frame: Frame) -> (r: Action)
        requires
            old(registry).wf(),
            old(registry).issued(old(self)@.handle),
        ensures
            final(registry).wf(),
            final(registry).next() == old(registry).next(),
            final(registry)@ == frame_step(old(registry)@, old(self)@, frame@).registry,
            final(self)@ == frame_step(old(registry)@, old(self)@, frame@).session,
            r@ == frame_step(old(registry)@, old(self)@, frame@).action,
    {
        match frame {
            Frame::Text(text) => {
                let cmd = Command::decode(text.as_str());
                self.route_command(registry, text, cmd)
            },
            Frame::Binary(b) => match &self.last_target {
                Some(target) => match registry.lookup(target) {
                    Some(to) => Action::Deliver { to, frame: Frame::Binary(b) },
                    None => Action::Ignore,
                },
                None => if self.policy.report_untargeted_binary {
                    Action::Reply(Frame::Text(String::from_str("{\"type\":\"error\",\"message\":\"No target set for binary transfer\"}")))
                } else {
                    Action::Ignore
                },
            },
            Frame::Close => Action::Close,
            Frame::Ping(p) => Action::Reply(Frame::Ping(p)),
            Frame::Pong(p) => Action::Reply(Frame::Pong(p)),
        }
    }

    /// Ends the session: no identifier reaches its handle any more, and the
    /// bindings of other connections stay as they were.
    pub fn close(&self, registry: &mut Registry)
        requires
            old(registry).wf(),
        ensures
            final(registry).wf(),
            final(registry).next() == old(registry).next(),
            final(registry)@ == without_handle(old(registry)@, self@.handle),
            no_binding_to(final(registry)@, self@.handle),
    {
        registry.unregister_connection(self.handle);
    }
}

} // verus!
