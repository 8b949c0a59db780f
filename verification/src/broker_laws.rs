//! What holds of every decision the broker makes.

use vstd::prelude::*;

use crate::broker::{
    dispatch_of, matrix_call, notify_summary, route_of, service_perm, stop_reason,
    url_allowed, ActionView, ArgsView, MatrixCallView, RequestView, VerdictView,
};
use crate::manifest::{declares, ManifestView};
use crate::permission::{perm_id, Permission};
use crate::registry::{find_id, split_tag};
use crate::store::{effective_at, state_of, Effective, GrantState, StoreView};

verus! {

/// The manifest of the app a request comes from, once routed.
pub open spec fn sender(reg: Seq<ManifestView>, rq: RequestView) -> ManifestView {
    reg[find_id(reg, split_tag(rq.app_tag).0).unwrap()]
}

/// Whether an action makes the host do work on the app's behalf (anything
/// but answering, dropping, stopping or prompting).
pub open spec fn performs(a: ActionView) -> bool {
    !(a is Answer || a is Drop || a is Stop || a is Prompt)
}

/// A request of a restricted app is dropped unanswered, whatever else holds.
pub proof fn law_restricted_requests_are_dropped(
    reg: Seq<ManifestView>,
    s: StoreView,
    rq: RequestView,
    a: ArgsView,
    v: VerdictView,
    now: u64,
)
    requires
        route_of(reg, s, rq.app_tag) is Restricted,
    ensures
        dispatch_of(reg, s, rq, a, v, now).action == ActionView::Drop,
        dispatch_of(reg, s, rq, a, v, now).used is None,
{
}

/// When the limiter stops an app, its request is answered with the
/// limiter's message and the app is stopped, nothing else.
pub proof fn law_stop_verdict_stops_the_app(
    reg: Seq<ManifestView>,
    s: StoreView,
    rq: RequestView,
    a: ArgsView,
    msg: Seq<char>,
    now: u64,
)
    requires
        route_of(reg, s, rq.app_tag) is App,
    ensures
        dispatch_of(reg, s, rq, a, VerdictView::Stop(msg), now).action == (ActionView::Stop {
            message: msg,
            reason: stop_reason(),
        }),
        dispatch_of(reg, s, rq, a, VerdictView::Stop(msg), now).used is None,
{
}

/// A use is recorded only for the group the service needs, and only when
/// that group nets out to granted for the app at that time.
pub proof fn law_uses_are_recorded_only_when_granted(
    reg: Seq<ManifestView>,
    s: StoreView,
    rq: RequestView,
    a: ArgsView,
    v: VerdictView,
    now: u64,
)
    ensures
        dispatch_of(reg, s, rq, a, v, now).used is Some ==> {
            let p = dispatch_of(reg, s, rq, a, v, now).used.unwrap();
            &&& route_of(reg, s, rq.app_tag) is App
            &&& service_perm(rq.service) == Some(p)
            &&& effective_at(s, sender(reg, rq), p, now) == Effective::Granted
        },
{
}

/// The host works for an app only on a service that needs no group or
/// whose group nets out to granted, and then it records the use.
pub proof fn law_work_needs_a_granted_group(
    reg: Seq<ManifestView>,
    s: StoreView,
    rq: RequestView,
    a: ArgsView,
    v: VerdictView,
    now: u64,
)
    requires
        performs(dispatch_of(reg, s, rq, a, v, now).action),
    ensures
        route_of(reg, s, rq.app_tag) is App,
        v is Allow,
        crate::broker::free_service(sender(reg, rq), rq.service, a) || ({
            let p = service_perm(rq.service).unwrap();
            &&& service_perm(rq.service) is Some
            &&& dispatch_of(reg, s, rq, a, v, now).used == Some(p)
            &&& effective_at(s, sender(reg, rq), p, now) == Effective::Granted
        }),
{
}

/// A group the app does not declare is refused outright: never a prompt,
/// never work.
pub proof fn law_undeclared_is_refused_without_prompt(
    reg: Seq<ManifestView>,
    s: StoreView,
    rq: RequestView,
    a: ArgsView,
    now: u64,
    p: Permission,
)
    requires
        route_of(reg, s, rq.app_tag) is App,
        !crate::broker::free_service(sender(reg, rq), rq.service, a),
        service_perm(rq.service) == Some(p),
        !declares(sender(reg, rq), p),
    ensures
        dispatch_of(reg, s, rq, a, VerdictView::Allow, now).action == ActionView::Answer(
            Err("permission not declared: "@ + perm_id(p)),
        ),
{
}

/// Surfaces that may not prompt never get a prompt.
pub proof fn law_no_prompt_where_prompts_are_not_allowed(
    reg: Seq<ManifestView>,
    s: StoreView,
    rq: RequestView,
    a: ArgsView,
    v: VerdictView,
    now: u64,
)
    requires
        !rq.may_prompt,
    ensures
        !(dispatch_of(reg, s, rq, a, v, now).action is Prompt),
{
}

/// Only an allowed link (http, https or mailto, at most 2048 bytes) is ever
/// opened.
pub proof fn law_only_allowed_links_open(
    reg: Seq<ManifestView>,
    s: StoreView,
    rq: RequestView,
    a: ArgsView,
    v: VerdictView,
    now: u64,
)
    ensures
        dispatch_of(reg, s, rq, a, v, now).action matches ActionView::OpenUrl { url } ==> url_allowed(url),
{
}

/// A popup's text is one line of at most 200 characters.
pub proof fn law_popup_text_is_one_short_line(title: Option<Seq<char>>, body: Option<Seq<char>>, count: Option<u64>)
    ensures
        notify_summary(title, body, count).len() <= 200,
        forall|i: int|
            0 <= i < notify_summary(title, body, count).len() ==> #[trigger] notify_summary(title, body, count)[i]
                != '\n' && notify_summary(title, body, count)[i] != '\r',
{
}

/// Matrix calls stay within their limits: a bounded number of messages,
/// members or threads, and a message body that is non-blank and at most
/// 4096 characters; a room-scoped call always has a room.
pub proof fn law_matrix_calls_are_bounded(
    reg: Seq<ManifestView>,
    s: StoreView,
    rq: RequestView,
    a: ArgsView,
    v: VerdictView,
    now: u64,
)
    ensures
        dispatch_of(reg, s, rq, a, v, now).action matches ActionView::Matrix { room, call } ==> {
            &&& (!(call is Profile) ==> room is Some)
            &&& (call matches MatrixCallView::ReadMessages { limit } ==> 1 <= limit <= 30)
            &&& (call matches MatrixCallView::Members { limit } ==> 1 <= limit <= 200)
            &&& (call matches MatrixCallView::Threads { limit } ==> 1 <= limit <= 50)
            &&& (call matches MatrixCallView::SendMessage { body } ==> 0 < body.len() <= 4096)
        },
{
    let d = dispatch_of(reg, s, rq, a, v, now);
    if d.action is Matrix {
        let svc = rq.service;
        if svc == "matrix.profile"@ {
            reveal_strlit("matrix.profile");
            reveal_strlit("matrix.room_info");
            reveal_strlit("matrix.read_messages");
            reveal_strlit("matrix.room_members");
            reveal_strlit("matrix.pinned_events");
            reveal_strlit("matrix.room_threads");
            assert(matrix_call(svc, a) == Ok::<MatrixCallView, Seq<char>>(MatrixCallView::Profile));
        }
    }
}


/// Messages between apps need consent on both sides: the sender's `ipc`
/// group nets out to granted (and the use is recorded), and the receiver
/// is installed, declares `ipc`, and has not had it denied.
pub proof fn law_ipc_needs_consent_on_both_sides(
    reg: Seq<ManifestView>,
    s: StoreView,
    rq: RequestView,
    a: ArgsView,
    v: VerdictView,
    now: u64,
)
    ensures
        dispatch_of(reg, s, rq, a, v, now).action matches ActionView::IpcDeliver { to, .. } ==> (to != sender(
            reg,
            rq,
        ).id ==> {
            &&& find_id(reg, to) is Some
            &&& declares(reg[find_id(reg, to).unwrap()], Permission::Ipc)
            &&& state_of(s, to, Permission::Ipc) != GrantState::Denied
            &&& dispatch_of(reg, s, rq, a, v, now).used == Some(Permission::Ipc)
            &&& effective_at(s, sender(reg, rq), Permission::Ipc, now) == Effective::Granted
        }),
{
    reveal_strlit("ipc.send");
    reveal_strlit("env");
    reveal_strlit("permissions.query");
    reveal_strlit("permissions.request");
}

/// A group the user denied is refused with the denial, on any surface: the
/// user is never prompted again for it and no use is recorded.
pub proof fn law_denied_group_is_refused_without_prompt(
    reg: Seq<ManifestView>,
    s: StoreView,
    rq: RequestView,
    a: ArgsView,
    now: u64,
    p: Permission,
)
    requires
        route_of(reg, s, rq.app_tag) is App,
        !crate::broker::free_service(sender(reg, rq), rq.service, a),
        service_perm(rq.service) == Some(p),
        effective_at(s, sender(reg, rq), p, now) == Effective::Denied,
    ensures
        dispatch_of(reg, s, rq, a, VerdictView::Allow, now).action == ActionView::Answer(
            Err("permission denied: "@ + perm_id(p)),
        ),
        dispatch_of(reg, s, rq, a, VerdictView::Allow, now).used is None,
        dispatch_of(reg, s, RequestView { may_prompt: !rq.may_prompt, ..rq }, a, VerdictView::Allow, now)
            == dispatch_of(reg, s, rq, a, VerdictView::Allow, now),
{
}

/// A group that still needs the user's answer is asked about where the
/// surface may prompt, with nothing done meanwhile; where it may not, the
/// request gets the denial, as if the user had said no.
pub proof fn law_open_group_prompts_where_allowed(
    reg: Seq<ManifestView>,
    s: StoreView,
    rq: RequestView,
    a: ArgsView,
    now: u64,
    p: Permission,
)
    requires
        route_of(reg, s, rq.app_tag) is App,
        !crate::broker::free_service(sender(reg, rq), rq.service, a),
        service_perm(rq.service) == Some(p),
        effective_at(s, sender(reg, rq), p, now) == Effective::NeedsPrompt,
    ensures
        rq.may_prompt ==> dispatch_of(reg, s, rq, a, VerdictView::Allow, now).action == (ActionView::Prompt { perm: p }),
        !rq.may_prompt ==> dispatch_of(reg, s, rq, a, VerdictView::Allow, now).action == ActionView::Answer(
            Err("permission denied: "@ + perm_id(p)),
        ),
        dispatch_of(reg, s, rq, a, VerdictView::Allow, now).used is None,
{
}

} // verus!
