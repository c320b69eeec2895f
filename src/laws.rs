//! Laws of the relay, stated over the routing model and proved.
use vstd::prelude::*;
use crate::command::{decoded, CommandView};
use crate::frame::{ActionView, FrameView};
use crate::registry::{no_binding_to, without_handle};
use crate::session::{
    command_step, frame_step, no_target_reply, target_not_found_reply, SessionView,
};
use crate::supervisor::teardowns;

verus! {

/// A text relay addressed to a bound identifier `b` goes, unchanged, to the
/// one connection bound to `b` and nowhere else, and leaves the bindings as
/// they were.
pub proof fn relay_reaches_only_target(
    reg: Map<Seq<char>, u64>,
    s: SessionView,
    text: Seq<char>,
    b: Seq<char>,
)
    requires
        reg.contains_key(b),
        decoded(text) == CommandView::Relay(b),
    ensures
        frame_step(reg, s, FrameView::Text(text)).action == ActionView::Deliver(reg[b], FrameView::Text(text)),
        frame_step(reg, s, FrameView::Text(text)).registry == reg,
{
}

/// After a connection registers under `id`, a relay addressed to `id` from
/// any connection reaches it; with the policy that keeps earlier
/// identifiers, the identifier it had before stays bound to it too.
pub proof fn register_then_relay(
    reg: Map<Seq<char>, u64>,
    s: SessionView,
    register_text: Seq<char>,
    id: Seq<char>,
    other: SessionView,
    relay_text: Seq<char>,
)
    requires
        decoded(register_text) == CommandView::Register(id),
        decoded(relay_text) == CommandView::Relay(id),
    ensures
        ({
            let first = frame_step(reg, s, FrameView::Text(register_text));
            &&& frame_step(first.registry, other, FrameView::Text(relay_text)).action
                == ActionView::Deliver(s.handle, FrameView::Text(relay_text))
            &&& s.policy.keep_auto_id && reg.contains_key(s.id) && reg[s.id] == s.handle ==> {
                &&& first.registry.contains_key(s.id)
                &&& first.registry[s.id] == s.handle
            }
        }),
{
}

/// After a text relay to `t`, a binary frame from the same connection goes
/// to whatever `t` is bound to, without naming a target again.
pub proof fn binary_follows_last_relay(
    reg: Map<Seq<char>, u64>,
    s: SessionView,
    text: Seq<char>,
    t: Seq<char>,
    payload: Seq<u8>,
)
    requires
        decoded(text) == CommandView::Relay(t),
        reg.contains_key(t),
    ensures
        ({
            let first = frame_step(reg, s, FrameView::Text(text));
            frame_step(first.registry, first.session, FrameView::Binary(payload)).action
                == ActionView::Deliver(reg[t], FrameView::Binary(payload))
        }),
{
}

/// A text relay to an unbound identifier yields one error envelope to the
/// sender and no delivery.
pub proof fn relay_to_unknown_target(
    reg: Map<Seq<char>, u64>,
    s: SessionView,
    text: Seq<char>,
    t: Seq<char>,
)
    requires
        decoded(text) == CommandView::Relay(t),
        !reg.contains_key(t),
    ensures
        frame_step(reg, s, FrameView::Text(text)).action == ActionView::Reply(
            FrameView::Text(target_not_found_reply(t)),
        ),
        frame_step(reg, s, FrameView::Text(text)).registry == reg,
{
}

/// A binary frame before any text relay is delivered nowhere: it is
/// answered with one local error where the policy asks for it, and dropped
/// otherwise.
pub proof fn binary_without_target(reg: Map<Seq<char>, u64>, s: SessionView, payload: Seq<u8>)
    requires
        s.last_target.is_none(),
    ensures
        frame_step(reg, s, FrameView::Binary(payload)).action == (if s.policy.report_untargeted_binary {
            ActionView::Reply(FrameView::Text(no_target_reply()))
        } else {
            ActionView::Ignore
        }),
        frame_step(reg, s, FrameView::Binary(payload)).registry == reg,
{
}

/// Once no identifier is bound to a closed connection's handle `h`, no
/// frame routed by another connection is delivered to it, and it stays
/// unbound.
pub proof fn closed_connection_unreachable(
    reg: Map<Seq<char>, u64>,
    h: u64,
    s: SessionView,
    f: FrameView,
)
    requires
        no_binding_to(reg, h),
        s.handle != h,
    ensures
        !(frame_step(reg, s, f).action matches ActionView::Deliver(to, _) && to == h),
        no_binding_to(frame_step(reg, s, f).registry, h),
{
    let st = frame_step(reg, s, f);
    assert forall|k: Seq<char>| #[trigger] st.registry.contains_key(k) implies st.registry[k] != h by {
        if let FrameView::Text(text) = f {
            if let CommandView::Register(id) = decoded(text) {
                if k != id && !s.policy.keep_auto_id {
                    assert(without_handle(reg, s.handle).contains_key(k));
                }
            }
        }
    }
}

/// Whatever the order in which a connection's duties finish, the session is
/// torn down exactly once.
pub proof fn torn_down_once(n: nat)
    requires
        n > 0,
    ensures
        teardowns(false, n) == 1,
{
    lemma_no_teardown_after(n);
    assert(teardowns(false, n) == 1 + teardowns(true, (n - 1) as nat));
}

proof fn lemma_no_teardown_after(n: nat)
    ensures
        teardowns(true, n) == 0,
    decreases n,
{
    if n > 0 {
        lemma_no_teardown_after((n - 1) as nat);
    }
}

} // verus!
