//! The catalog of everything a mini-app and Robrix can do to each other,
//! tagged so the user can allow or deny each single ability per app.
//!
//! A capability is one concrete action: an outgoing request the app makes of
//! the host (a broker service), or an incoming event or hook the host delivers
//! into the app. Each belongs to a coarse permission group (the thing the
//! user is prompted about); the group is the default answer and the user can
//! override any single capability underneath it.

use vstd::prelude::*;

use crate::permission::Permission;
use crate::text::{chars_eq, chars_of, owned, push_text};

verus! {

/// Whether the ability only observes, changes something durable, does both
/// in one call, or just triggers a transient host or OS side effect.
#[derive(Clone, Copy, Debug, PartialEq, Eq, Structural, Hash)]
pub enum Access {
    Read,
    Write,
    ReadWrite,
    /// A transient effect that neither reveals nor persists user data.
    Act,
}

/// Who initiates: the app asking the host, or the host telling the app.
#[derive(Clone, Copy, Debug, PartialEq, Eq, Structural, Hash)]
pub enum Direction {
    /// mini-app to host (a `host.request` service).
    Outgoing,
    /// host to mini-app (a top-level `fn on_...` hook or subscription).
    Incoming,
}

/// How much of the user's world the ability touches.
#[derive(Clone, Copy, Debug, PartialEq, Eq, Structural, Hash)]
pub enum Scope {
    /// This one running isolate.
    Instance,
    /// The user's own account.
    Account,
    /// Another Matrix user addressed by id.
    User,
    /// The one room the instance is bound to.
    Room,
    /// Several rooms at once.
    MultiRoom,
    /// A space and its hierarchy.
    Space,
    /// The device and OS.
    Device,
    /// The app's own sandbox and host plumbing.
    App,
    /// Other installed mini-apps on this device.
    Apps,
    /// The host's own UI state on this device.
    Client,
}

/// Whether the host implements it in this build.
#[derive(Clone, Copy, Debug, PartialEq, Eq, Structural, Hash)]
pub enum Status {
    Available,
    /// Shipped, but refused without prompting while its global switch is off.
    RefusedBySwitch,
    /// The host already has the underlying call; needs a service or hook.
    PlannedMachinery,
    /// Needs new plumbing below the host first.
    PlannedNewPlumbing,
    /// Deliberately never offered, whatever a manifest says.
    Never,
}

/// How much harm a misuse could do.
#[derive(Clone, Copy, Debug, PartialEq, Eq, Structural, PartialOrd, Ord, Hash)]
pub enum Risk {
    Low,
    Medium,
    High,
    Critical,
}

/// One single ability.
#[derive(Clone, Copy, Debug)]
pub struct Capability {
    /// Stable id, `family.noun.verb` for outgoing and `on_family_event` for
    /// incoming. What manifests, grants and `host.has()` refer to.
    pub id: &'static str,
    pub title: &'static str,
    pub blurb: &'static str,
    pub access: Access,
    pub direction: Direction,
    pub scope: Scope,
    /// The permission group gating it. `None` is plumbing every app gets.
    pub group: Option<Permission>,
    pub status: Status,
    pub risk: Risk,
    /// Broker service ids (outgoing) or the script hook name (incoming) that
    /// carry it on the wire.
    pub wire: &'static [&'static str],
}

/// The mathematical content of a [`Capability`].
pub struct CapabilityView {
    pub id: Seq<char>,
    pub title: Seq<char>,
    pub blurb: Seq<char>,
    pub access: Access,
    pub direction: Direction,
    pub scope: Scope,
    pub group: Option<Permission>,
    pub status: Status,
    pub risk: Risk,
    pub wire: Seq<Seq<char>>,
}

impl View for Capability {
    type V = CapabilityView;

    open spec fn view(&self) -> CapabilityView {
        CapabilityView {
            id: self.id@,
            title: self.title@,
            blurb: self.blurb@,
            access: self.access,
            direction: self.direction,
            scope: self.scope,
            group: self.group,
            status: self.status,
            risk: self.risk,
            wire: self.wire@.map_values(|s: &'static str| s@),
        }
    }
}

pub open spec fn access_text(a: Access) -> Seq<char> {
    match a {
        Access::Read => "read"@,
        Access::Write => "write"@,
        Access::ReadWrite => "read+write"@,
        Access::Act => "act"@,
    }
}

pub open spec fn direction_text(d: Direction) -> Seq<char> {
    match d {
        Direction::Outgoing => "app → Robrix"@,
        Direction::Incoming => "Robrix → app"@,
    }
}

pub open spec fn scope_text(s: Scope) -> Seq<char> {
    match s {
        Scope::Instance => "this instance"@,
        Scope::Account => "account"@,
        Scope::User => "a user"@,
        Scope::Room => "this room"@,
        Scope::MultiRoom => "many rooms"@,
        Scope::Space => "space"@,
        Scope::Device => "device"@,
        Scope::App => "app-local"@,
        Scope::Apps => "other apps"@,
        Scope::Client => "Robrix UI"@,
    }
}

pub open spec fn status_text(s: Status) -> Seq<char> {
    match s {
        Status::Available => "available"@,
        Status::RefusedBySwitch => "off by switch"@,
        Status::PlannedMachinery => "planned"@,
        Status::PlannedNewPlumbing => "planned"@,
        Status::Never => "never"@,
    }
}

pub open spec fn risk_text(r: Risk) -> Seq<char> {
    match r {
        Risk::Low => "low"@,
        Risk::Medium => "medium"@,
        Risk::High => "high"@,
        Risk::Critical => "critical"@,
    }
}

/// The position of a risk level, lowest first.
pub open spec fn risk_rank(r: Risk) -> int {
    match r {
        Risk::Low => 0,
        Risk::Medium => 1,
        Risk::High => 2,
        Risk::Critical => 3,
    }
}

impl Access {
    pub fn as_str(self) -> (s: &'static str)
        ensures
            s@ == access_text(self),
    {
        match self {
            Access::Read => "read",
            Access::Write => "write",
            Access::ReadWrite => "read+write",
            Access::Act => "act",
        }
    }
}

impl Direction {
    pub fn as_str(self) -> (s: &'static str)
        ensures
            s@ == direction_text(self),
    {
        match self {
            Direction::Outgoing => "app → Robrix",
            Direction::Incoming => "Robrix → app",
        }
    }
}

impl Scope {
    pub fn as_str(self) -> (s: &'static str)
        ensures
            s@ == scope_text(self),
    {
        match self {
            Scope::Instance => "this instance",
            Scope::Account => "account",
            Scope::User => "a user",
            Scope::Room => "this room",
            Scope::MultiRoom => "many rooms",
            Scope::Space => "space",
            Scope::Device => "device",
            Scope::App => "app-local",
            Scope::Apps => "other apps",
            Scope::Client => "Robrix UI",
        }
    }
}

impl Status {
    pub fn as_str(self) -> (s: &'static str)
        ensures
            s@ == status_text(self),
    {
        match self {
            Status::Available => "available",
            Status::RefusedBySwitch => "off by switch",
            Status::PlannedMachinery | Status::PlannedNewPlumbing => "planned",
            Status::Never => "never",
        }
    }
}

impl Risk {
    pub fn as_str(self) -> (s: &'static str)
        ensures
            s@ == risk_text(self),
    {
        match self {
            Risk::Low => "low",
            Risk::Medium => "medium",
            Risk::High => "high",
            Risk::Critical => "critical",
        }
    }
}

/// Reachable in this build (a switch may still refuse it).
pub open spec fn status_available(s: Status) -> bool {
    s == Status::Available || s == Status::RefusedBySwitch
}

/// The tag line under a capability row: access, direction and scope, plus
/// the risk when it is high or critical.
pub open spec fn tags_text(c: CapabilityView) -> Seq<char> {
    let base = access_text(c.access) + " · "@ + direction_text(c.direction) + " · "@ + scope_text(
        c.scope,
    );
    if risk_rank(c.risk) >= 2 {
        base + " · "@ + risk_text(c.risk) + " risk"@
    } else {
        base
    }
}

impl Capability {
    /// Reachable in this build (a switch may still refuse it).
    pub fn is_available(&self) -> (r: bool)
        ensures
            r == status_available(self.status),
    {
        match self.status {
            Status::Available | Status::RefusedBySwitch => true,
            _ => false,
        }
    }

    /// The compact tag line shown under a capability row; risk is only
    /// called out when it is worth a second look.
    pub fn tags(&self) -> (t: String)
        ensures
            t@ == tags_text(self@),
    {
        let mut tags = owned(self.access.as_str());
        push_text(&mut tags, " · ");
        push_text(&mut tags, self.direction.as_str());
        push_text(&mut tags, " · ");
        push_text(&mut tags, self.scope.as_str());
        let high = match self.risk {
            Risk::High | Risk::Critical => true,
            _ => false,
        };
        if high {
            push_text(&mut tags, " · ");
            push_text(&mut tags, self.risk.as_str());
            push_text(&mut tags, " risk");
        }
        tags
    }
}

/// How many capabilities the catalog holds.
pub const CATALOG_LEN: usize = 179;

/// The catalog entry at position `i`: every capability, grouped by
/// permission in display order.
pub open spec fn catalog_view(i: int) -> CapabilityView {
    if i == 0 {
        CapabilityView { id: "host.env.read"@, title: "App environment"@, blurb: "Its app id, whether a room is attached, and (planned) instance tag, surface, platform."@, access: Access::Read, direction: Direction::Outgoing, scope: Scope::Instance, group: None, status: Status::Available, risk: Risk::Low, wire: seq!["env"@] }
    } else
    if i == 1 {
        CapabilityView { id: "permissions.query"@, title: "Check its grants"@, blurb: "State of every declared group (and, with detail, every capability)."@, access: Access::Read, direction: Direction::Outgoing, scope: Scope::App, group: None, status: Status::Available, risk: Risk::Low, wire: seq!["permissions.query"@] }
    } else
    if i == 2 {
        CapabilityView { id: "permissions.request"@, title: "Ask for a permission"@, blurb: "Raise the prompt for one declared GROUP ahead of first use; never a single capability, so the prompt unit stays the group."@, access: Access::Act, direction: Direction::Outgoing, scope: Scope::App, group: None, status: Status::Available, risk: Risk::Low, wire: seq!["permissions.request"@] }
    } else
    if i == 3 {
        CapabilityView { id: "storage.file.read"@, title: "Read private storage"@, blurb: "fs.read / fs.exists / fs.list inside the app's own jail, which is per APP and shared by all its instances."@, access: Access::Read, direction: Direction::Outgoing, scope: Scope::App, group: None, status: Status::Available, risk: Risk::Low, wire: Seq::empty() }
    } else
    if i == 4 {
        CapabilityView { id: "storage.file.write"@, title: "Write private storage"@, blurb: "fs.write / append / remove / mkdir in the app's jail, which is per app and shared by all its instances."@, access: Access::Write, direction: Direction::Outgoing, scope: Scope::App, group: None, status: Status::Available, risk: Risk::Low, wire: Seq::empty() }
    } else
    if i == 5 {
        CapabilityView { id: "storage.instance.write"@, title: "Per-instance storage"@, blurb: "A reserved /instance/ prefix private to this app@room pair, ending the cross-instance clobber."@, access: Access::ReadWrite, direction: Direction::Outgoing, scope: Scope::Instance, group: None, status: Status::PlannedNewPlumbing, risk: Risk::Low, wire: Seq::empty() }
    } else
    if i == 6 {
        CapabilityView { id: "storage.quota.read"@, title: "Storage usage"@, blurb: "Bytes used and the cap, so an app can trim before writes fail."@, access: Access::Read, direction: Direction::Outgoing, scope: Scope::App, group: None, status: Status::PlannedMachinery, risk: Risk::Low, wire: Seq::empty() }
    } else
    if i == 7 {
        CapabilityView { id: "timer.schedule"@, title: "Timers"@, blurb: "start_timeout / start_interval inside the isolate; runs on the UI thread under the per-call instruction limit."@, access: Access::Write, direction: Direction::Outgoing, scope: Scope::App, group: None, status: Status::Available, risk: Risk::Low, wire: Seq::empty() }
    } else
    if i == 8 {
        CapabilityView { id: "ipc.self.send"@, title: "Message its other instances"@, blurb: "ipc.send with to:'self' broadcasts to this app's OTHER isolates (never echoes). Inside one sandbox, so no grant."@, access: Access::Write, direction: Direction::Outgoing, scope: Scope::App, group: None, status: Status::Available, risk: Risk::Low, wire: Seq::empty() }
    } else
    if i == 9 {
        CapabilityView { id: "events.subscribe"@, title: "Subscribe to an event family"@, blurb: "Turn on one gated incoming family with a filter. Checked against that family's capability, charged, records Used, per instance, dies with the isolate."@, access: Access::Act, direction: Direction::Outgoing, scope: Scope::Instance, group: None, status: Status::PlannedNewPlumbing, risk: Risk::Low, wire: Seq::empty() }
    } else
    if i == 10 {
        CapabilityView { id: "events.unsubscribe"@, title: "Unsubscribe"@, blurb: "Stop one family, or all with event:'*'; queued deliveries are dropped."@, access: Access::Act, direction: Direction::Outgoing, scope: Scope::Instance, group: None, status: Status::PlannedNewPlumbing, risk: Risk::Low, wire: Seq::empty() }
    } else
    if i == 11 {
        CapabilityView { id: "ui.pane.read"@, title: "Its pane state"@, blurb: "Surface (dock/tab/modal), dock side, content size, minimized, foreground."@, access: Access::Read, direction: Direction::Outgoing, scope: Scope::Instance, group: None, status: Status::PlannedMachinery, risk: Risk::Low, wire: Seq::empty() }
    } else
    if i == 12 {
        CapabilityView { id: "ui.pane.close"@, title: "Quit itself"@, blurb: "Tear down this instance, same as the Close button. Runs after the broker drain, never mid-dispatch."@, access: Access::Act, direction: Direction::Outgoing, scope: Scope::Instance, group: None, status: Status::PlannedMachinery, risk: Risk::Low, wire: Seq::empty() }
    } else
    if i == 13 {
        CapabilityView { id: "ui.dialog.confirm"@, title: "Host confirm dialog"@, blurb: "A Robrix-drawn yes/no with the app's text, attributed to the app in chrome it cannot fake. Foreground-only, one at a time."@, access: Access::Act, direction: Direction::Outgoing, scope: Scope::Client, group: None, status: Status::PlannedMachinery, risk: Risk::Low, wire: Seq::empty() }
    } else
    if i == 14 {
        CapabilityView { id: "on_app_resize"@, title: "Pane resized"@, blurb: "Called with the new content box whenever it changes by more than 0.5pt; queued during draw, delivered at the next event."@, access: Access::Read, direction: Direction::Incoming, scope: Scope::Instance, group: None, status: Status::Available, risk: Risk::Low, wire: seq!["on_app_resize"@] }
    } else
    if i == 15 {
        CapabilityView { id: "on_permissions_changed"@, title: "Grants changed"@, blurb: "Called with the current caps list after any grant, revoke, expiry or restriction; caps also re-pushed via set_host_caps. A network change restarts the app instead."@, access: Access::Read, direction: Direction::Incoming, scope: Scope::App, group: None, status: Status::Available, risk: Risk::Low, wire: seq!["on_permissions_changed"@] }
    } else
    if i == 16 {
        CapabilityView { id: "on_focus_changed"@, title: "Foreground changed"@, blurb: "Called when this instance becomes, or stops being, the pane the user is looking at."@, access: Access::Read, direction: Direction::Incoming, scope: Scope::Instance, group: None, status: Status::PlannedMachinery, risk: Risk::Low, wire: Seq::empty() }
    } else
    if i == 17 {
        CapabilityView { id: "on_visibility_changed"@, title: "Visibility changed"@, blurb: "visible / minimized / hidden-tab / offscreen-room; the cue to pause timers and network."@, access: Access::Read, direction: Direction::Incoming, scope: Scope::Instance, group: None, status: Status::PlannedNewPlumbing, risk: Risk::Low, wire: Seq::empty() }
    } else
    if i == 18 {
        CapabilityView { id: "on_surface_changed"@, title: "Moved between surfaces"@, blurb: "Called after break-out, return-to-room, or a dock side change."@, access: Access::Read, direction: Direction::Incoming, scope: Scope::Instance, group: None, status: Status::PlannedMachinery, risk: Risk::Low, wire: Seq::empty() }
    } else
    if i == 19 {
        CapabilityView { id: "on_suspend"@, title: "Suspend"@, blurb: "Called when minimized, tab hidden, or Robrix backgrounded; the host pauses its timers after the call returns. One event-pass budget."@, access: Access::Read, direction: Direction::Incoming, scope: Scope::Instance, group: None, status: Status::PlannedNewPlumbing, risk: Risk::Low, wire: Seq::empty() }
    } else
    if i == 20 {
        CapabilityView { id: "on_resume"@, title: "Resume"@, blurb: "Called after suspend with the count of subscribed events dropped meanwhile (no replay)."@, access: Access::Read, direction: Direction::Incoming, scope: Scope::Instance, group: None, status: Status::PlannedNewPlumbing, risk: Risk::Low, wire: Seq::empty() }
    } else
    if i == 21 {
        CapabilityView { id: "on_quit"@, title: "Quit"@, blurb: "Best-effort before teardown (close, restart on caps change); skipped on force stop and Restrict; capped to one event pass; fs writes are the only sane use."@, access: Access::Read, direction: Direction::Incoming, scope: Scope::Instance, group: None, status: Status::PlannedNewPlumbing, risk: Risk::Low, wire: Seq::empty() }
    } else
    if i == 22 {
        CapabilityView { id: "on_low_memory"@, title: "Memory pressure"@, blurb: "Called when the host is about to collect harder; drop caches or be stopped."@, access: Access::Read, direction: Direction::Incoming, scope: Scope::Instance, group: None, status: Status::PlannedNewPlumbing, risk: Risk::Low, wire: Seq::empty() }
    } else
    if i == 23 {
        CapabilityView { id: "network.http"@, title: "HTTP requests"@, blurb: "mod.net.http_request from the isolate; traps in a netless isolate, which is why a grant change restarts the app."@, access: Access::ReadWrite, direction: Direction::Outgoing, scope: Scope::Device, group: Some(Permission::Network), status: Status::Available, risk: Risk::High, wire: Seq::empty() }
    } else
    if i == 24 {
        CapabilityView { id: "device.location.read"@, title: "Current location"@, blurb: "One fix: CoreLocation first, city-level IP geolocation on failure; waiting requests share one fix."@, access: Access::Read, direction: Direction::Outgoing, scope: Scope::Device, group: Some(Permission::Location), status: Status::Available, risk: Risk::High, wire: seq!["location.get"@] }
    } else
    if i == 25 {
        CapabilityView { id: "on_location"@, title: "Location updates"@, blurb: "A fix stream after events.subscribe('on_location', {min_interval_secs}); stops while suspended."@, access: Access::Read, direction: Direction::Incoming, scope: Scope::Device, group: Some(Permission::Location), status: Status::PlannedNewPlumbing, risk: Risk::High, wire: Seq::empty() }
    } else
    if i == 26 {
        CapabilityView { id: "notifications.post"@, title: "Show a popup"@, blurb: "A popup in Robrix's chrome prefixed with the app name; text flattened and clamped to 200 chars."@, access: Access::Act, direction: Direction::Outgoing, scope: Scope::Client, group: Some(Permission::Notifications), status: Status::Available, risk: Risk::Low, wire: seq!["notify.post"@] }
    } else
    if i == 27 {
        CapabilityView { id: "notifications.clear"@, title: "Clear its popups"@, blurb: "Accepted for compatibility; a shown popup cannot be recalled today."@, access: Access::Act, direction: Direction::Outgoing, scope: Scope::Client, group: Some(Permission::Notifications), status: Status::Available, risk: Risk::Low, wire: seq!["notify.clear"@] }
    } else
    if i == 28 {
        CapabilityView { id: "notifications.system.post"@, title: "System notification"@, blurb: "A real OS notification when Robrix is backgrounded; tapping it reopens the app in its room."@, access: Access::Act, direction: Direction::Outgoing, scope: Scope::Device, group: Some(Permission::Notifications), status: Status::PlannedNewPlumbing, risk: Risk::Medium, wire: Seq::empty() }
    } else
    if i == 29 {
        CapabilityView { id: "on_notification_activated"@, title: "Popup tapped"@, blurb: "Called when the user taps this app's popup or notification; the host also foregrounds the app."@, access: Access::Read, direction: Direction::Incoming, scope: Scope::Client, group: Some(Permission::Notifications), status: Status::PlannedNewPlumbing, risk: Risk::Low, wire: Seq::empty() }
    } else
    if i == 30 {
        CapabilityView { id: "device.clipboard.read"@, title: "Read clipboard"@, blurb: "Clipboard text, 64KB cap; macOS only today (pbpaste off-thread), other platforms answer an error."@, access: Access::Read, direction: Direction::Outgoing, scope: Scope::Device, group: Some(Permission::ClipboardRead), status: Status::Available, risk: Risk::High, wire: seq!["clipboard.read"@] }
    } else
    if i == 31 {
        CapabilityView { id: "ipc.send"@, title: "Message another app"@, blurb: "Fire-and-forget JSON to another installed app's running isolates; refused unless the target declares ipc and is not denied."@, access: Access::Write, direction: Direction::Outgoing, scope: Scope::Apps, group: Some(Permission::Ipc), status: Status::Available, risk: Risk::Medium, wire: seq!["ipc.send"@] }
    } else
    if i == 32 {
        CapabilityView { id: "on_ipc_message"@, title: "Receive app messages"@, blurb: "Called when another app or a sibling instance sends to this one. Opted into by declaring ipc and defining the hook; a Denied ipc shuts the inbox. No queue bound today."@, access: Access::Read, direction: Direction::Incoming, scope: Scope::Apps, group: Some(Permission::Ipc), status: Status::Available, risk: Risk::Low, wire: seq!["on_ipc_message"@] }
    } else
    if i == 33 {
        CapabilityView { id: "ipc.request"@, title: "Ask another app"@, blurb: "Send and await one reply with a timeout; the target's on_ipc_request returns the answer. A pending table keyed (heap, req_id) means a dead target cannot hang the caller."@, access: Access::ReadWrite, direction: Direction::Outgoing, scope: Scope::Apps, group: Some(Permission::Ipc), status: Status::PlannedNewPlumbing, risk: Risk::Medium, wire: Seq::empty() }
    } else
    if i == 34 {
        CapabilityView { id: "on_ipc_request"@, title: "Answer another app"@, blurb: "Called with a request from another app; the return value is the reply."@, access: Access::Read, direction: Direction::Incoming, scope: Scope::Apps, group: Some(Permission::Ipc), status: Status::PlannedNewPlumbing, risk: Risk::Low, wire: Seq::empty() }
    } else
    if i == 35 {
        CapabilityView { id: "ipc.apps.list"@, title: "Apps that accept messages"@, blurb: "Ids, names and running flag of installed apps that declare ipc. Gated by ipc because it leaks the installed-app list."@, access: Access::Read, direction: Direction::Outgoing, scope: Scope::Apps, group: Some(Permission::Ipc), status: Status::PlannedMachinery, risk: Risk::Medium, wire: Seq::empty() }
    } else
    if i == 36 {
        CapabilityView { id: "matrix.room.messages.read"@, title: "Recent messages"@, blurb: "Latest text messages, oldest first, bodies cut at 500 chars; event cache first, pagination fallback."@, access: Access::Read, direction: Direction::Outgoing, scope: Scope::Room, group: Some(Permission::MatrixRoomRead), status: Status::Available, risk: Risk::High, wire: seq!["matrix.read_messages"@] }
    } else
    if i == 37 {
        CapabilityView { id: "matrix.room.members.read"@, title: "Member list"@, blurb: "Joined members with power level; store first, /members sync only when sparse."@, access: Access::Read, direction: Direction::Outgoing, scope: Scope::Room, group: Some(Permission::MatrixRoomRead), status: Status::Available, risk: Risk::Medium, wire: seq!["matrix.room_members"@] }
    } else
    if i == 38 {
        CapabilityView { id: "matrix.room.pins.read"@, title: "Pinned messages"@, blurb: "The attached room's pinned messages."@, access: Access::Read, direction: Direction::Outgoing, scope: Scope::Room, group: Some(Permission::MatrixRoomRead), status: Status::Available, risk: Risk::Medium, wire: seq!["matrix.pinned_events"@] }
    } else
    if i == 39 {
        CapabilityView { id: "matrix.room.threads.read"@, title: "Thread list"@, blurb: "Thread root messages, newest first."@, access: Access::Read, direction: Direction::Outgoing, scope: Scope::Room, group: Some(Permission::MatrixRoomRead), status: Status::Available, risk: Risk::High, wire: seq!["matrix.room_threads"@] }
    } else
    if i == 40 {
        CapabilityView { id: "matrix.room.thread.read"@, title: "Thread replies"@, blurb: "Replies inside one thread, oldest first."@, access: Access::Read, direction: Direction::Outgoing, scope: Scope::Room, group: Some(Permission::MatrixRoomRead), status: Status::PlannedMachinery, risk: Risk::High, wire: Seq::empty() }
    } else
    if i == 41 {
        CapabilityView { id: "matrix.room.messages.paginate"@, title: "Older history"@, blurb: "One page further back than the recent window."@, access: Access::Read, direction: Direction::Outgoing, scope: Scope::Room, group: Some(Permission::MatrixRoomRead), status: Status::PlannedMachinery, risk: Risk::High, wire: Seq::empty() }
    } else
    if i == 42 {
        CapabilityView { id: "matrix.room.event.read"@, title: "One message"@, blurb: "A single event by id with sender, body, timestamp, reactions and edit state."@, access: Access::Read, direction: Direction::Outgoing, scope: Scope::Room, group: Some(Permission::MatrixRoomRead), status: Status::PlannedMachinery, risk: Risk::High, wire: Seq::empty() }
    } else
    if i == 43 {
        CapabilityView { id: "matrix.room.events.read"@, title: "Events by type"@, blurb: "Recent events of declared types (custom app types, m.sticker, ...); type-qualified declaration matched by prefix."@, access: Access::Read, direction: Direction::Outgoing, scope: Scope::Room, group: Some(Permission::MatrixRoomRead), status: Status::PlannedNewPlumbing, risk: Risk::High, wire: Seq::empty() }
    } else
    if i == 44 {
        CapabilityView { id: "matrix.room.relations.read"@, title: "Reactions, edits, replies"@, blurb: "Relations of one event: reaction counts, edit history, thread replies."@, access: Access::Read, direction: Direction::Outgoing, scope: Scope::Room, group: Some(Permission::MatrixRoomRead), status: Status::PlannedNewPlumbing, risk: Risk::Medium, wire: Seq::empty() }
    } else
    if i == 45 {
        CapabilityView { id: "matrix.room.state.read"@, title: "Room state"@, blurb: "One state event by type and key, from declared `type#key` patterns (m.room.member reveals people, so medium)."@, access: Access::Read, direction: Direction::Outgoing, scope: Scope::Room, group: Some(Permission::MatrixRoomRead), status: Status::PlannedNewPlumbing, risk: Risk::Medium, wire: Seq::empty() }
    } else
    if i == 46 {
        CapabilityView { id: "matrix.room.receipts.read"@, title: "Read positions"@, blurb: "How far a given person has read, honoring show_read_receipts."@, access: Access::Read, direction: Direction::Outgoing, scope: Scope::Room, group: Some(Permission::MatrixRoomRead), status: Status::PlannedMachinery, risk: Risk::Medium, wire: Seq::empty() }
    } else
    if i == 47 {
        CapabilityView { id: "matrix.room.message.send"@, title: "Send a message"@, blurb: "Post text to the attached room as you; one per user action; format beyond plain is planned via the slash-command content builders."@, access: Access::Write, direction: Direction::Outgoing, scope: Scope::Room, group: Some(Permission::MatrixRoomSend), status: Status::RefusedBySwitch, risk: Risk::High, wire: seq!["matrix.send_message"@] }
    } else
    if i == 48 {
        CapabilityView { id: "matrix.room.message.reply"@, title: "Reply to a message"@, blurb: "Post a reply to a specific event."@, access: Access::Write, direction: Direction::Outgoing, scope: Scope::Room, group: Some(Permission::MatrixRoomSend), status: Status::PlannedMachinery, risk: Risk::High, wire: Seq::empty() }
    } else
    if i == 49 {
        CapabilityView { id: "matrix.room.thread.reply"@, title: "Reply in a thread"@, blurb: "Post into a thread."@, access: Access::Write, direction: Direction::Outgoing, scope: Scope::Room, group: Some(Permission::MatrixRoomSend), status: Status::PlannedMachinery, risk: Risk::High, wire: Seq::empty() }
    } else
    if i == 50 {
        CapabilityView { id: "matrix.room.message.edit"@, title: "Edit its own message"@, blurb: "Change the text of an event THIS APP sent; the host keeps a per-instance sent-event set and refuses everything else."@, access: Access::Write, direction: Direction::Outgoing, scope: Scope::Room, group: Some(Permission::MatrixRoomSend), status: Status::PlannedNewPlumbing, risk: Risk::High, wire: Seq::empty() }
    } else
    if i == 51 {
        CapabilityView { id: "matrix.room.message.redact"@, title: "Delete its own message"@, blurb: "Redact an event THIS APP sent; never the user's other messages, never others'."@, access: Access::Write, direction: Direction::Outgoing, scope: Scope::Room, group: Some(Permission::MatrixRoomSend), status: Status::PlannedNewPlumbing, risk: Risk::Critical, wire: Seq::empty() }
    } else
    if i == 52 {
        CapabilityView { id: "matrix.room.attachment.send"@, title: "Send a file"@, blurb: "Upload a jail file or pick_binary handle into the room; file name shown on the prompt, host progress UI."@, access: Access::Write, direction: Direction::Outgoing, scope: Scope::Room, group: Some(Permission::MatrixRoomSend), status: Status::PlannedMachinery, risk: Risk::High, wire: Seq::empty() }
    } else
    if i == 53 {
        CapabilityView { id: "matrix.room.event.send"@, title: "Send a custom event"@, blurb: "A non-message event of a declared type (matrix.room.event.send:<type>); m.room.* types refused."@, access: Access::Write, direction: Direction::Outgoing, scope: Scope::Room, group: Some(Permission::MatrixRoomSend), status: Status::PlannedNewPlumbing, risk: Risk::High, wire: Seq::empty() }
    } else
    if i == 54 {
        CapabilityView { id: "device.clipboard.write"@, title: "Write clipboard"@, blurb: "Replace the clipboard with app text."@, access: Access::Write, direction: Direction::Outgoing, scope: Scope::Device, group: Some(Permission::ClipboardWrite), status: Status::Available, risk: Risk::Low, wire: seq!["clipboard.write"@] }
    } else
    if i == 55 {
        CapabilityView { id: "device.url.open"@, title: "Open a link"@, blurb: "http(s)/mailto in the system handler; scheme allowlist, 2048 chars, foreground-only. matrix.to links route to host.nav.link instead."@, access: Access::Act, direction: Direction::Outgoing, scope: Scope::Device, group: Some(Permission::OpenUrl), status: Status::Available, risk: Risk::Medium, wire: seq!["url.open"@] }
    } else
    if i == 56 {
        CapabilityView { id: "device.files.pick"@, title: "Pick a text file"@, blurb: "OS open dialog returning UTF-8 text up to 1MB. Modal, one at a time, foreground-only."@, access: Access::Read, direction: Direction::Outgoing, scope: Scope::Device, group: Some(Permission::Files), status: Status::Available, risk: Risk::Medium, wire: seq!["files.pick"@] }
    } else
    if i == 57 {
        CapabilityView { id: "device.files.save"@, title: "Save a file"@, blurb: "OS save dialog with a suggested name for app text."@, access: Access::Write, direction: Direction::Outgoing, scope: Scope::Device, group: Some(Permission::Files), status: Status::Available, risk: Risk::Low, wire: seq!["files.save"@] }
    } else
    if i == 58 {
        CapabilityView { id: "device.files.pick_binary"@, title: "Pick a binary file"@, blurb: "Open dialog returning an opaque handle the app can pass to share.file or attachment.send, so bytes never enter the script heap; base64 only on request."@, access: Access::Read, direction: Direction::Outgoing, scope: Scope::Device, group: Some(Permission::Files), status: Status::PlannedNewPlumbing, risk: Risk::Medium, wire: Seq::empty() }
    } else
    if i == 59 {
        CapabilityView { id: "device.share"@, title: "Share text"@, blurb: "System share sheet with text."@, access: Access::Act, direction: Direction::Outgoing, scope: Scope::Device, group: Some(Permission::Share), status: Status::Available, risk: Risk::Low, wire: seq!["share"@] }
    } else
    if i == 60 {
        CapabilityView { id: "device.share.file"@, title: "Share a file"@, blurb: "Share sheet with a file from the jail or a pick_binary handle; the path is resolved inside the jail host-side."@, access: Access::Act, direction: Direction::Outgoing, scope: Scope::Device, group: Some(Permission::Share), status: Status::PlannedNewPlumbing, risk: Risk::Low, wire: Seq::empty() }
    } else
    if i == 61 {
        CapabilityView { id: "device.auth.check"@, title: "Confirm it's you"@, blurb: "Biometric/password prompt with the app's reason; the app learns only pass/fail. Modal, one at a time."@, access: Access::Act, direction: Direction::Outgoing, scope: Scope::Device, group: Some(Permission::Auth), status: Status::Available, risk: Risk::Low, wire: seq!["auth.check"@] }
    } else
    if i == 62 {
        CapabilityView { id: "matrix.room.info.read"@, title: "Room details"@, blurb: "Name, topic, member count, encryption, join rule, history visibility of the attached room."@, access: Access::Read, direction: Direction::Outgoing, scope: Scope::Room, group: Some(Permission::MatrixRoomInfo), status: Status::Available, risk: Risk::Low, wire: seq!["matrix.room_info"@] }
    } else
    if i == 63 {
        CapabilityView { id: "matrix.room.unread.read"@, title: "Unread count"@, blurb: "Unread and mention counts and the marked-unread flag."@, access: Access::Read, direction: Direction::Outgoing, scope: Scope::Room, group: Some(Permission::MatrixRoomInfo), status: Status::PlannedMachinery, risk: Risk::Low, wire: Seq::empty() }
    } else
    if i == 64 {
        CapabilityView { id: "matrix.room.power_levels.read"@, title: "Room permissions"@, blurb: "What you may do here: invite, kick, ban, redact, notify room."@, access: Access::Read, direction: Direction::Outgoing, scope: Scope::Room, group: Some(Permission::MatrixRoomInfo), status: Status::PlannedMachinery, risk: Risk::Low, wire: Seq::empty() }
    } else
    if i == 65 {
        CapabilityView { id: "matrix.room.link.create"@, title: "Permalink"@, blurb: "A matrix.to or matrix: link to the attached room or one of its events."@, access: Access::Read, direction: Direction::Outgoing, scope: Scope::Room, group: Some(Permission::MatrixRoomInfo), status: Status::PlannedMachinery, risk: Risk::Low, wire: Seq::empty() }
    } else
    if i == 66 {
        CapabilityView { id: "matrix.room.successor.read"@, title: "Read the upgraded room"@, blurb: "Learn where an upgraded (tombstoned) room continued."@, access: Access::Read, direction: Direction::Outgoing, scope: Scope::Room, group: Some(Permission::MatrixRoomInfo), status: Status::PlannedMachinery, risk: Risk::Low, wire: Seq::empty() }
    } else
    if i == 67 {
        CapabilityView { id: "on_room_info_changed"@, title: "Room details changed"@, blurb: "Renamed, new topic or avatar, encrypted, tagged, or upgraded; coalesced."@, access: Access::Read, direction: Direction::Incoming, scope: Scope::Room, group: Some(Permission::MatrixRoomInfo), status: Status::PlannedMachinery, risk: Risk::Low, wire: Seq::empty() }
    } else
    if i == 68 {
        CapabilityView { id: "on_room_unread_changed"@, title: "Unread count changed"@, blurb: "Latest unread and mention counts, coalesced."@, access: Access::Read, direction: Direction::Incoming, scope: Scope::Room, group: Some(Permission::MatrixRoomInfo), status: Status::PlannedMachinery, risk: Risk::Low, wire: Seq::empty() }
    } else
    if i == 69 {
        CapabilityView { id: "on_room_pins_changed"@, title: "Pins changed"@, blurb: "The new pinned event ids (contents need matrix-room-read)."@, access: Access::Read, direction: Direction::Incoming, scope: Scope::Room, group: Some(Permission::MatrixRoomInfo), status: Status::PlannedMachinery, risk: Risk::Low, wire: Seq::empty() }
    } else
    if i == 70 {
        CapabilityView { id: "matrix.profile.read"@, title: "Your identity"@, blurb: "Your own user id and display name (avatar mxc planned)."@, access: Access::Read, direction: Direction::Outgoing, scope: Scope::Account, group: Some(Permission::MatrixProfile), status: Status::Available, risk: Risk::Medium, wire: seq!["matrix.profile"@] }
    } else
    if i == 71 {
        CapabilityView { id: "on_profile_changed"@, title: "Identity changed"@, blurb: "Called when your display name or avatar changes."@, access: Access::Read, direction: Direction::Incoming, scope: Scope::Account, group: Some(Permission::MatrixProfile), status: Status::PlannedMachinery, risk: Risk::Low, wire: Seq::empty() }
    } else
    if i == 72 {
        CapabilityView { id: "device.info.read"@, title: "Device facts"@, blurb: "Platform, OS family, locale, time zone, desktop view mode, UI zoom."@, access: Access::Read, direction: Direction::Outgoing, scope: Scope::Device, group: Some(Permission::DeviceInfo), status: Status::PlannedMachinery, risk: Risk::Low, wire: Seq::empty() }
    } else
    if i == 73 {
        CapabilityView { id: "network.status.read"@, title: "Online or offline"@, blurb: "Whether Robrix currently has connectivity, from the sync loop's view."@, access: Access::Read, direction: Direction::Outgoing, scope: Scope::Device, group: Some(Permission::DeviceInfo), status: Status::PlannedNewPlumbing, risk: Risk::Low, wire: Seq::empty() }
    } else
    if i == 74 {
        CapabilityView { id: "on_network_changed"@, title: "Connectivity changed"@, blurb: "Called when Robrix goes offline or online; coalesced to one per pass."@, access: Access::Read, direction: Direction::Incoming, scope: Scope::Device, group: Some(Permission::DeviceInfo), status: Status::PlannedNewPlumbing, risk: Risk::Low, wire: Seq::empty() }
    } else
    if i == 75 {
        CapabilityView { id: "on_sync_state_changed"@, title: "Sync state changed"@, blurb: "connecting / syncing / offline / error, coalesced."@, access: Access::Read, direction: Direction::Incoming, scope: Scope::Account, group: Some(Permission::DeviceInfo), status: Status::PlannedNewPlumbing, risk: Risk::Low, wire: Seq::empty() }
    } else
    if i == 76 {
        CapabilityView { id: "device.camera.capture"@, title: "Take a photo"@, blurb: "OS camera returning a handle or base64; until it exists, files.pick_binary(accept:'image') is the honest route."@, access: Access::Read, direction: Direction::Outgoing, scope: Scope::Device, group: Some(Permission::Camera), status: Status::PlannedNewPlumbing, risk: Risk::High, wire: Seq::empty() }
    } else
    if i == 77 {
        CapabilityView { id: "device.microphone.record"@, title: "Record audio"@, blurb: "OS recorder returning a clip handle for share or attachment."@, access: Access::Read, direction: Direction::Outgoing, scope: Scope::Device, group: Some(Permission::Microphone), status: Status::PlannedNewPlumbing, risk: Risk::High, wire: Seq::empty() }
    } else
    if i == 78 {
        CapabilityView { id: "matrix.account.device.read"@, title: "This device"@, blurb: "Device id, name, and verification state."@, access: Access::Read, direction: Direction::Outgoing, scope: Scope::Account, group: Some(Permission::MatrixAccountRead), status: Status::PlannedMachinery, risk: Risk::Medium, wire: Seq::empty() }
    } else
    if i == 79 {
        CapabilityView { id: "matrix.account.info.read"@, title: "Account info"@, blurb: "Homeserver URL and account-management URL."@, access: Access::Read, direction: Direction::Outgoing, scope: Scope::Account, group: Some(Permission::MatrixAccountRead), status: Status::PlannedMachinery, risk: Risk::Medium, wire: Seq::empty() }
    } else
    if i == 80 {
        CapabilityView { id: "matrix.account.data.read"@, title: "Read app account data"@, blurb: "A global account-data event of an app-namespaced type (rs.robius.a2app.<app_id>.*); m.* types are refused."@, access: Access::Read, direction: Direction::Outgoing, scope: Scope::Account, group: Some(Permission::MatrixAccountRead), status: Status::PlannedNewPlumbing, risk: Risk::Medium, wire: Seq::empty() }
    } else
    if i == 81 {
        CapabilityView { id: "matrix.account.ignored.read"@, title: "Read your ignore list"@, blurb: "See which users you have ignored."@, access: Access::Read, direction: Direction::Outgoing, scope: Scope::Account, group: Some(Permission::MatrixAccountRead), status: Status::PlannedMachinery, risk: Risk::Medium, wire: Seq::empty() }
    } else
    if i == 82 {
        CapabilityView { id: "on_account_data_changed"@, title: "App account data changed"@, blurb: "Called when a subscribed app-namespaced type changes on any device."@, access: Access::Read, direction: Direction::Incoming, scope: Scope::Account, group: Some(Permission::MatrixAccountRead), status: Status::PlannedNewPlumbing, risk: Risk::Medium, wire: Seq::empty() }
    } else
    if i == 83 {
        CapabilityView { id: "matrix.account.display_name.set"@, title: "Change your name"@, blurb: "Set your global display name; the new name is shown on the prompt."@, access: Access::Write, direction: Direction::Outgoing, scope: Scope::Account, group: Some(Permission::MatrixAccountWrite), status: Status::PlannedMachinery, risk: Risk::Critical, wire: Seq::empty() }
    } else
    if i == 84 {
        CapabilityView { id: "matrix.account.avatar.set"@, title: "Change your avatar"@, blurb: "Upload and set, or clear, your global avatar."@, access: Access::Write, direction: Direction::Outgoing, scope: Scope::Account, group: Some(Permission::MatrixAccountWrite), status: Status::PlannedMachinery, risk: Risk::Critical, wire: Seq::empty() }
    } else
    if i == 85 {
        CapabilityView { id: "matrix.user.ignore.set"@, title: "Block or unblock someone"@, blurb: "Add or remove a user from the account-wide ignore list."@, access: Access::Write, direction: Direction::Outgoing, scope: Scope::User, group: Some(Permission::MatrixAccountWrite), status: Status::PlannedMachinery, risk: Risk::Critical, wire: Seq::empty() }
    } else
    if i == 86 {
        CapabilityView { id: "matrix.account.data.write"@, title: "Store app account data"@, blurb: "Write an app-namespaced account-data type so app state follows the user across devices."@, access: Access::Write, direction: Direction::Outgoing, scope: Scope::Account, group: Some(Permission::MatrixAccountWrite), status: Status::PlannedNewPlumbing, risk: Risk::High, wire: Seq::empty() }
    } else
    if i == 87 {
        CapabilityView { id: "matrix.user.profile.read"@, title: "Look up a user"@, blurb: "Display name, avatar and ignored flag for any user id through your homeserver."@, access: Access::Read, direction: Direction::Outgoing, scope: Scope::User, group: Some(Permission::MatrixUsers), status: Status::PlannedMachinery, risk: Risk::Medium, wire: Seq::empty() }
    } else
    if i == 88 {
        CapabilityView { id: "matrix.user.dm.find"@, title: "Find an existing DM"@, blurb: "The DM room with a user if one exists; never creates one."@, access: Access::Read, direction: Direction::Outgoing, scope: Scope::User, group: Some(Permission::MatrixUsers), status: Status::PlannedMachinery, risk: Risk::Medium, wire: Seq::empty() }
    } else
    if i == 89 {
        CapabilityView { id: "matrix.user.search"@, title: "Find people"@, blurb: "Search the homeserver's user directory."@, access: Access::Read, direction: Direction::Outgoing, scope: Scope::User, group: Some(Permission::MatrixUsers), status: Status::PlannedNewPlumbing, risk: Risk::Medium, wire: Seq::empty() }
    } else
    if i == 90 {
        CapabilityView { id: "matrix.user.presence.read"@, title: "Presence"@, blurb: "Online / idle / offline for a user, plus the on_user_presence hook."@, access: Access::Read, direction: Direction::Outgoing, scope: Scope::User, group: Some(Permission::MatrixUsers), status: Status::PlannedNewPlumbing, risk: Risk::Medium, wire: Seq::empty() }
    } else
    if i == 91 {
        CapabilityView { id: "on_room_message"@, title: "New messages"@, blurb: "New text/notice/emote (media as {msgtype, body} without bytes), batched per event pass, bounded FIFO with drop count."@, access: Access::Read, direction: Direction::Incoming, scope: Scope::Room, group: Some(Permission::MatrixRoomWatch), status: Status::PlannedMachinery, risk: Risk::High, wire: Seq::empty() }
    } else
    if i == 92 {
        CapabilityView { id: "on_room_message_changed"@, title: "Message edited or removed"@, blurb: "An existing message was edited or redacted."@, access: Access::Read, direction: Direction::Incoming, scope: Scope::Room, group: Some(Permission::MatrixRoomWatch), status: Status::PlannedMachinery, risk: Risk::High, wire: Seq::empty() }
    } else
    if i == 93 {
        CapabilityView { id: "on_room_reaction"@, title: "Reactions"@, blurb: "A reaction added or removed on any event."@, access: Access::Read, direction: Direction::Incoming, scope: Scope::Room, group: Some(Permission::MatrixRoomWatch), status: Status::PlannedMachinery, risk: Risk::Medium, wire: Seq::empty() }
    } else
    if i == 94 {
        CapabilityView { id: "on_room_event"@, title: "Events of a type"@, blurb: "Each new event of a declared type, including custom app types; declared as on_room_event:<type>."@, access: Access::Read, direction: Direction::Incoming, scope: Scope::Room, group: Some(Permission::MatrixRoomWatch), status: Status::PlannedNewPlumbing, risk: Risk::High, wire: Seq::empty() }
    } else
    if i == 95 {
        CapabilityView { id: "on_room_state"@, title: "State changed"@, blurb: "A state event of a declared type changed; declared as on_room_state:<type>."@, access: Access::Read, direction: Direction::Incoming, scope: Scope::Room, group: Some(Permission::MatrixRoomWatch), status: Status::PlannedNewPlumbing, risk: Risk::Medium, wire: Seq::empty() }
    } else
    if i == 96 {
        CapabilityView { id: "on_room_typing"@, title: "Who is typing"@, blurb: "The current set of typing users, latest-only per pass. Subscription started only while an instance asked, refcounted with RoomScreen's."@, access: Access::Read, direction: Direction::Incoming, scope: Scope::Room, group: Some(Permission::MatrixRoomWatch), status: Status::PlannedMachinery, risk: Risk::Medium, wire: Seq::empty() }
    } else
    if i == 97 {
        CapabilityView { id: "on_room_receipt"@, title: "Read receipts moved"@, blurb: "Someone's read position moved (own and others)."@, access: Access::Read, direction: Direction::Incoming, scope: Scope::Room, group: Some(Permission::MatrixRoomWatch), status: Status::PlannedMachinery, risk: Risk::Medium, wire: Seq::empty() }
    } else
    if i == 98 {
        CapabilityView { id: "on_room_members_changed"@, title: "Members changed"@, blurb: "Join, leave, invite, kick, ban in the attached room; bounded queue."@, access: Access::Read, direction: Direction::Incoming, scope: Scope::Room, group: Some(Permission::MatrixRoomWatch), status: Status::PlannedMachinery, risk: Risk::Medium, wire: Seq::empty() }
    } else
    if i == 99 {
        CapabilityView { id: "on_room_mention"@, title: "You were mentioned"@, blurb: "An event the push rules say should notify you, in the attached room."@, access: Access::Read, direction: Direction::Incoming, scope: Scope::Room, group: Some(Permission::MatrixRoomWatch), status: Status::PlannedNewPlumbing, risk: Risk::High, wire: Seq::empty() }
    } else
    if i == 100 {
        CapabilityView { id: "matrix.room.reaction.toggle"@, title: "React"@, blurb: "Add or remove your reaction on an event."@, access: Access::ReadWrite, direction: Direction::Outgoing, scope: Scope::Room, group: Some(Permission::MatrixRoomInteract), status: Status::PlannedMachinery, risk: Risk::Medium, wire: Seq::empty() }
    } else
    if i == 101 {
        CapabilityView { id: "matrix.room.typing.send"@, title: "Typing indicator"@, blurb: "Show you as typing; auto-expires; limiter-priced."@, access: Access::Write, direction: Direction::Outgoing, scope: Scope::Room, group: Some(Permission::MatrixRoomInteract), status: Status::PlannedMachinery, risk: Risk::Medium, wire: Seq::empty() }
    } else
    if i == 102 {
        CapabilityView { id: "matrix.room.receipt.send"@, title: "Mark as read"@, blurb: "Send a read receipt up to an event, or mark the room fully read; honors read_receipts_privacy."@, access: Access::Write, direction: Direction::Outgoing, scope: Scope::Room, group: Some(Permission::MatrixRoomInteract), status: Status::PlannedMachinery, risk: Risk::Medium, wire: Seq::empty() }
    } else
    if i == 103 {
        CapabilityView { id: "matrix.room.app_event.send"@, title: "Save app data to the room"@, blurb: "Post this app's own state as an rs.robius.a2app.data event with app_id stamped by the host; other members' copies see it."@, access: Access::Write, direction: Direction::Outgoing, scope: Scope::Room, group: Some(Permission::MatrixRoomAppData), status: Status::PlannedNewPlumbing, risk: Risk::Medium, wire: Seq::empty() }
    } else
    if i == 104 {
        CapabilityView { id: "matrix.room.app_event.read"@, title: "Load app data from the room"@, blurb: "Latest N of this app's own data events, for state replay on boot."@, access: Access::Read, direction: Direction::Outgoing, scope: Scope::Room, group: Some(Permission::MatrixRoomAppData), status: Status::PlannedNewPlumbing, risk: Risk::Low, wire: Seq::empty() }
    } else
    if i == 105 {
        CapabilityView { id: "on_room_app_event"@, title: "App data arrived"@, blurb: "Another copy of this app saved state into the room."@, access: Access::Read, direction: Direction::Incoming, scope: Scope::Room, group: Some(Permission::MatrixRoomAppData), status: Status::PlannedNewPlumbing, risk: Risk::Low, wire: Seq::empty() }
    } else
    if i == 106 {
        CapabilityView { id: "matrix.room.pin.set"@, title: "Pin or unpin"@, blurb: "Pin or unpin an event; the SDK enforces power level."@, access: Access::Write, direction: Direction::Outgoing, scope: Scope::Room, group: Some(Permission::MatrixRoomManage), status: Status::PlannedMachinery, risk: Risk::Medium, wire: Seq::empty() }
    } else
    if i == 107 {
        CapabilityView { id: "matrix.room.favorite.set"@, title: "Favorite"@, blurb: "Add or remove this room from your favorites."@, access: Access::Write, direction: Direction::Outgoing, scope: Scope::Room, group: Some(Permission::MatrixRoomManage), status: Status::PlannedMachinery, risk: Risk::Low, wire: Seq::empty() }
    } else
    if i == 108 {
        CapabilityView { id: "matrix.room.low_priority.set"@, title: "Low priority"@, blurb: "Mark this room low priority or restore it."@, access: Access::Write, direction: Direction::Outgoing, scope: Scope::Room, group: Some(Permission::MatrixRoomManage), status: Status::PlannedMachinery, risk: Risk::Low, wire: Seq::empty() }
    } else
    if i == 109 {
        CapabilityView { id: "matrix.room.unread.set"@, title: "Flag unread"@, blurb: "Flag this room unread, or clear the flag, without sending a receipt."@, access: Access::Write, direction: Direction::Outgoing, scope: Scope::Room, group: Some(Permission::MatrixRoomManage), status: Status::PlannedMachinery, risk: Risk::Low, wire: Seq::empty() }
    } else
    if i == 110 {
        CapabilityView { id: "matrix.room.state.send"@, title: "Change room settings"@, blurb: "A state event of a declared type (name, topic, avatar, or an app-owned state type); power levels and membership types refused."@, access: Access::Write, direction: Direction::Outgoing, scope: Scope::Room, group: Some(Permission::MatrixRoomManage), status: Status::PlannedNewPlumbing, risk: Risk::Critical, wire: Seq::empty() }
    } else
    if i == 111 {
        CapabilityView { id: "matrix.room.account_data.read"@, title: "Read room notes"@, blurb: "App-owned per-room account data."@, access: Access::Read, direction: Direction::Outgoing, scope: Scope::Room, group: Some(Permission::MatrixRoomManage), status: Status::PlannedNewPlumbing, risk: Risk::Medium, wire: Seq::empty() }
    } else
    if i == 112 {
        CapabilityView { id: "matrix.room.account_data.write"@, title: "Store room notes"@, blurb: "Write app-owned per-room account data (never m.* types)."@, access: Access::Write, direction: Direction::Outgoing, scope: Scope::Room, group: Some(Permission::MatrixRoomManage), status: Status::PlannedNewPlumbing, risk: Risk::Medium, wire: Seq::empty() }
    } else
    if i == 113 {
        CapabilityView { id: "matrix.room.invite.send"@, title: "Invite someone"@, blurb: "Invite a user to the attached room as you; the user id is shown on every prompt."@, access: Access::Write, direction: Direction::Outgoing, scope: Scope::Room, group: Some(Permission::MatrixRoomInvite), status: Status::PlannedMachinery, risk: Risk::High, wire: Seq::empty() }
    } else
    if i == 114 {
        CapabilityView { id: "matrix.media.download"@, title: "Fetch an attachment"@, blurb: "Bytes of an attachment or thumbnail from the attached room, size-capped, base64 or handle."@, access: Access::Read, direction: Direction::Outgoing, scope: Scope::Room, group: Some(Permission::MatrixMedia), status: Status::PlannedMachinery, risk: Risk::High, wire: Seq::empty() }
    } else
    if i == 115 {
        CapabilityView { id: "matrix.media.save"@, title: "Download to disk"@, blurb: "Save an attachment from the attached room to Downloads with host progress UI."@, access: Access::Act, direction: Direction::Outgoing, scope: Scope::Room, group: Some(Permission::MatrixMedia), status: Status::PlannedMachinery, risk: Risk::Medium, wire: Seq::empty() }
    } else
    if i == 116 {
        CapabilityView { id: "matrix.media.share"@, title: "Share an attachment"@, blurb: "Hand a room attachment to the system share sheet."@, access: Access::Act, direction: Direction::Outgoing, scope: Scope::Room, group: Some(Permission::MatrixMedia), status: Status::PlannedMachinery, risk: Risk::Medium, wire: Seq::empty() }
    } else
    if i == 117 {
        CapabilityView { id: "matrix.media.avatar.read"@, title: "Avatars"@, blurb: "A member's or the room's avatar thumbnail."@, access: Access::Read, direction: Direction::Outgoing, scope: Scope::Room, group: Some(Permission::MatrixMedia), status: Status::PlannedMachinery, risk: Risk::Low, wire: Seq::empty() }
    } else
    if i == 118 {
        CapabilityView { id: "matrix.media.url_preview.read"@, title: "Link preview"@, blurb: "Title, description and image of a URL via the homeserver (the homeserver sees the URL)."@, access: Access::Read, direction: Direction::Outgoing, scope: Scope::Account, group: Some(Permission::MatrixMedia), status: Status::PlannedMachinery, risk: Risk::Medium, wire: Seq::empty() }
    } else
    if i == 119 {
        CapabilityView { id: "matrix.media.upload"@, title: "Upload media"@, blurb: "Upload bytes to the media repo and get an mxc uri without sending an event."@, access: Access::Write, direction: Direction::Outgoing, scope: Scope::Account, group: Some(Permission::MatrixMedia), status: Status::PlannedMachinery, risk: Risk::Medium, wire: Seq::empty() }
    } else
    if i == 120 {
        CapabilityView { id: "on_upload_progress"@, title: "Upload progress hook"@, blurb: "Be told how an upload it started is progressing, and cancel it."@, access: Access::Read, direction: Direction::Incoming, scope: Scope::Room, group: Some(Permission::MatrixMedia), status: Status::PlannedMachinery, risk: Risk::Low, wire: Seq::empty() }
    } else
    if i == 121 {
        CapabilityView { id: "matrix.rooms.list"@, title: "Your rooms"@, blurb: "Joined rooms and DMs with name, unread, mentions, tags, is_direct, is_space; no message previews; optionally limited to a space."@, access: Access::Read, direction: Direction::Outgoing, scope: Scope::MultiRoom, group: Some(Permission::MatrixRoomsList), status: Status::PlannedMachinery, risk: Risk::High, wire: Seq::empty() }
    } else
    if i == 122 {
        CapabilityView { id: "matrix.rooms.search"@, title: "Find rooms"@, blurb: "Your rooms and spaces whose name or alias match a query."@, access: Access::Read, direction: Direction::Outgoing, scope: Scope::MultiRoom, group: Some(Permission::MatrixRoomsList), status: Status::PlannedMachinery, risk: Risk::Medium, wire: Seq::empty() }
    } else
    if i == 123 {
        CapabilityView { id: "matrix.rooms.invites.list"@, title: "Pending invites"@, blurb: "Rooms you are invited to, with inviter."@, access: Access::Read, direction: Direction::Outgoing, scope: Scope::MultiRoom, group: Some(Permission::MatrixRoomsList), status: Status::PlannedMachinery, risk: Risk::Medium, wire: Seq::empty() }
    } else
    if i == 124 {
        CapabilityView { id: "matrix.rooms.preview.read"@, title: "Preview a room"@, blurb: "Public details of any room by id or alias, joined or not."@, access: Access::Read, direction: Direction::Outgoing, scope: Scope::MultiRoom, group: Some(Permission::MatrixRoomsList), status: Status::PlannedMachinery, risk: Risk::Low, wire: Seq::empty() }
    } else
    if i == 125 {
        CapabilityView { id: "on_rooms_changed"@, title: "Room list changed"@, blurb: "Rooms joined, left, renamed, reordered, or unread counts changed; coalesced diff per pass."@, access: Access::Read, direction: Direction::Incoming, scope: Scope::MultiRoom, group: Some(Permission::MatrixRoomsList), status: Status::PlannedMachinery, risk: Risk::High, wire: Seq::empty() }
    } else
    if i == 126 {
        CapabilityView { id: "on_invite_received"@, title: "Invite received"@, blurb: "A new room invite arrived; joining stays a user action unless matrix-membership is granted."@, access: Access::Read, direction: Direction::Incoming, scope: Scope::MultiRoom, group: Some(Permission::MatrixRoomsList), status: Status::PlannedMachinery, risk: Risk::Medium, wire: Seq::empty() }
    } else
    if i == 127 {
        CapabilityView { id: "on_unread_totals_changed"@, title: "Unread totals changed"@, blurb: "Account-wide unread and mention totals without per-room detail."@, access: Access::Read, direction: Direction::Incoming, scope: Scope::MultiRoom, group: Some(Permission::MatrixRoomsList), status: Status::PlannedMachinery, risk: Risk::Low, wire: Seq::empty() }
    } else
    if i == 128 {
        CapabilityView { id: "matrix.rooms.info.read"@, title: "Details of another room"@, blurb: "Room details for a room in this app's allowlist."@, access: Access::Read, direction: Direction::Outgoing, scope: Scope::MultiRoom, group: Some(Permission::MatrixRoomsRead), status: Status::PlannedMachinery, risk: Risk::Medium, wire: Seq::empty() }
    } else
    if i == 129 {
        CapabilityView { id: "matrix.rooms.messages.read"@, title: "Messages in another room"@, blurb: "Recent messages in a room in this app's allowlist."@, access: Access::Read, direction: Direction::Outgoing, scope: Scope::MultiRoom, group: Some(Permission::MatrixRoomsRead), status: Status::PlannedMachinery, risk: Risk::Critical, wire: Seq::empty() }
    } else
    if i == 130 {
        CapabilityView { id: "on_rooms_message"@, title: "New messages in picked rooms"@, blurb: "New messages in allowlisted rooms; only rooms whose timeline Robrix has built deliver, so a firehose over every room is not offered."@, access: Access::Read, direction: Direction::Incoming, scope: Scope::MultiRoom, group: Some(Permission::MatrixRoomsRead), status: Status::PlannedNewPlumbing, risk: Risk::Critical, wire: Seq::empty() }
    } else
    if i == 131 {
        CapabilityView { id: "matrix.rooms.message.send"@, title: "Send to another room"@, blurb: "Post text to an allowlisted room as you; room name and text shown on every prompt."@, access: Access::Write, direction: Direction::Outgoing, scope: Scope::MultiRoom, group: Some(Permission::MatrixRoomsSend), status: Status::PlannedMachinery, risk: Risk::Critical, wire: Seq::empty() }
    } else
    if i == 132 {
        CapabilityView { id: "matrix.rooms.join"@, title: "Join or knock"@, blurb: "Join a room by id or alias, or knock if invite-only; room name shown on every prompt."@, access: Access::Write, direction: Direction::Outgoing, scope: Scope::MultiRoom, group: Some(Permission::MatrixMembership), status: Status::PlannedMachinery, risk: Risk::High, wire: Seq::empty() }
    } else
    if i == 133 {
        CapabilityView { id: "matrix.invites.respond"@, title: "Answer an invite"@, blurb: "Accept or decline a pending invite."@, access: Access::Write, direction: Direction::Outgoing, scope: Scope::MultiRoom, group: Some(Permission::MatrixMembership), status: Status::PlannedMachinery, risk: Risk::High, wire: Seq::empty() }
    } else
    if i == 134 {
        CapabilityView { id: "matrix.user.dm.open"@, title: "Start a direct message"@, blurb: "Open, or create if needed, a DM with someone and navigate there; creation is what makes this membership."@, access: Access::ReadWrite, direction: Direction::Outgoing, scope: Scope::User, group: Some(Permission::MatrixMembership), status: Status::PlannedMachinery, risk: Risk::High, wire: Seq::empty() }
    } else
    if i == 135 {
        CapabilityView { id: "matrix.room.leave"@, title: "Leave this room"@, blurb: "Leave the ATTACHED room as you; Robrix's own leave confirmation is raised on every call, and success kills the instance. Leaving any other room stays never."@, access: Access::Write, direction: Direction::Outgoing, scope: Scope::Room, group: Some(Permission::MatrixMembership), status: Status::PlannedMachinery, risk: Risk::Critical, wire: Seq::empty() }
    } else
    if i == 136 {
        CapabilityView { id: "matrix.rooms.create"@, title: "Create a room"@, blurb: "Create a room with a name and invitees."@, access: Access::Write, direction: Direction::Outgoing, scope: Scope::MultiRoom, group: Some(Permission::MatrixMembership), status: Status::PlannedNewPlumbing, risk: Risk::High, wire: Seq::empty() }
    } else
    if i == 137 {
        CapabilityView { id: "matrix.spaces.list"@, title: "Your spaces"@, blurb: "The spaces you have joined."@, access: Access::Read, direction: Direction::Outgoing, scope: Scope::Space, group: Some(Permission::MatrixSpaces), status: Status::PlannedMachinery, risk: Risk::Medium, wire: Seq::empty() }
    } else
    if i == 138 {
        CapabilityView { id: "matrix.space.info.read"@, title: "Space details"@, blurb: "Name, topic, member and room counts, join rule, world-readable."@, access: Access::Read, direction: Direction::Outgoing, scope: Scope::Space, group: Some(Permission::MatrixSpaces), status: Status::PlannedMachinery, risk: Risk::Medium, wire: Seq::empty() }
    } else
    if i == 139 {
        CapabilityView { id: "matrix.space.rooms.list"@, title: "Rooms in a space"@, blurb: "Child rooms and subspaces with joined flag."@, access: Access::Read, direction: Direction::Outgoing, scope: Scope::Space, group: Some(Permission::MatrixSpaces), status: Status::PlannedMachinery, risk: Risk::Medium, wire: Seq::empty() }
    } else
    if i == 140 {
        CapabilityView { id: "on_space_changed"@, title: "Space changed"@, blurb: "A subscribed space's children or your space list changed."@, access: Access::Read, direction: Direction::Incoming, scope: Scope::Space, group: Some(Permission::MatrixSpaces), status: Status::PlannedMachinery, risk: Risk::Low, wire: Seq::empty() }
    } else
    if i == 141 {
        CapabilityView { id: "host.nav.room"@, title: "Open a room"@, blurb: "Switch Robrix to a joined room; unknown or unjoined refused."@, access: Access::Act, direction: Direction::Outgoing, scope: Scope::MultiRoom, group: Some(Permission::RobrixNavigation), status: Status::PlannedMachinery, risk: Risk::Medium, wire: Seq::empty() }
    } else
    if i == 142 {
        CapabilityView { id: "host.nav.event"@, title: "Jump to a message"@, blurb: "Scroll the attached room to an event and highlight it."@, access: Access::Act, direction: Direction::Outgoing, scope: Scope::Room, group: Some(Permission::RobrixNavigation), status: Status::PlannedMachinery, risk: Risk::Low, wire: Seq::empty() }
    } else
    if i == 143 {
        CapabilityView { id: "host.nav.thread"@, title: "Open a thread"@, blurb: "Open a thread of the attached room."@, access: Access::Act, direction: Direction::Outgoing, scope: Scope::Room, group: Some(Permission::RobrixNavigation), status: Status::PlannedMachinery, risk: Risk::Low, wire: Seq::empty() }
    } else
    if i == 144 {
        CapabilityView { id: "host.nav.user"@, title: "Show a profile"@, blurb: "Open the user profile pane for a user."@, access: Access::Act, direction: Direction::Outgoing, scope: Scope::User, group: Some(Permission::RobrixNavigation), status: Status::PlannedMachinery, risk: Risk::Low, wire: Seq::empty() }
    } else
    if i == 145 {
        CapabilityView { id: "host.nav.space"@, title: "Open a space"@, blurb: "Go to a space's lobby."@, access: Access::Act, direction: Direction::Outgoing, scope: Scope::Space, group: Some(Permission::RobrixNavigation), status: Status::PlannedMachinery, risk: Risk::Low, wire: Seq::empty() }
    } else
    if i == 146 {
        CapabilityView { id: "host.nav.screen"@, title: "Open a screen"@, blurb: "Home, add/join room, Mini Apps, Settings."@, access: Access::Act, direction: Direction::Outgoing, scope: Scope::Client, group: Some(Permission::RobrixNavigation), status: Status::PlannedMachinery, risk: Risk::Low, wire: Seq::empty() }
    } else
    if i == 147 {
        CapabilityView { id: "host.nav.link"@, title: "Open a Matrix link in-app"@, blurb: "Resolve a matrix.to / matrix: URI to a room, event or user inside Robrix."@, access: Access::Act, direction: Direction::Outgoing, scope: Scope::MultiRoom, group: Some(Permission::RobrixNavigation), status: Status::PlannedNewPlumbing, risk: Risk::Medium, wire: Seq::empty() }
    } else
    if i == 148 {
        CapabilityView { id: "host.nav.app"@, title: "Open another mini-app"@, blurb: "Open an installed app in this room's dock; target must be installed and unrestricted."@, access: Access::Act, direction: Direction::Outgoing, scope: Scope::Apps, group: Some(Permission::RobrixNavigation), status: Status::PlannedMachinery, risk: Risk::Low, wire: Seq::empty() }
    } else
    if i == 149 {
        CapabilityView { id: "host.composer.insert"@, title: "Draft a message for you"@, blurb: "Put text into the attached room's message box, optionally as a reply; the user still presses send."@, access: Access::Act, direction: Direction::Outgoing, scope: Scope::Room, group: Some(Permission::RobrixComposer), status: Status::PlannedNewPlumbing, risk: Risk::Medium, wire: Seq::empty() }
    } else
    if i == 150 {
        CapabilityView { id: "host.composer.reply_to"@, title: "Set reply target"@, blurb: "Put the composer into reply or thread-reply mode for an event."@, access: Access::Act, direction: Direction::Outgoing, scope: Scope::Room, group: Some(Permission::RobrixComposer), status: Status::PlannedMachinery, risk: Risk::Low, wire: Seq::empty() }
    } else
    if i == 151 {
        CapabilityView { id: "ui.pane.request_size"@, title: "Preferred size"@, blurb: "Hint the size along the pane's resizable axis; the dock clamps and the user's drag always wins; rate-limited harder since it reflows the timeline."@, access: Access::Act, direction: Direction::Outgoing, scope: Scope::Instance, group: Some(Permission::RobrixUi), status: Status::PlannedNewPlumbing, risk: Risk::Low, wire: Seq::empty() }
    } else
    if i == 152 {
        CapabilityView { id: "ui.pane.set_side"@, title: "Choose dock side"@, blurb: "Move to top/bottom/left/right, same as the CycleEdge button."@, access: Access::Act, direction: Direction::Outgoing, scope: Scope::Instance, group: Some(Permission::RobrixUi), status: Status::PlannedMachinery, risk: Risk::Low, wire: Seq::empty() }
    } else
    if i == 153 {
        CapabilityView { id: "ui.pane.minimize"@, title: "Minimize to chip"@, blurb: "Collapse into the chips row; an app may shrink itself but never un-minimize itself."@, access: Access::Act, direction: Direction::Outgoing, scope: Scope::Instance, group: Some(Permission::RobrixUi), status: Status::PlannedMachinery, risk: Risk::Low, wire: Seq::empty() }
    } else
    if i == 154 {
        CapabilityView { id: "ui.pane.break_out"@, title: "Break out to a tab"@, blurb: "Move to its own desktop dock tab; refused in mobile view."@, access: Access::Act, direction: Direction::Outgoing, scope: Scope::Instance, group: Some(Permission::RobrixUi), status: Status::PlannedMachinery, risk: Risk::Low, wire: Seq::empty() }
    } else
    if i == 155 {
        CapabilityView { id: "ui.pane.set_title"@, title: "Pane title"@, blurb: "Override the tab/pane title line; always prefixed with the real app name so it cannot spoof another app."@, access: Access::Act, direction: Direction::Outgoing, scope: Scope::Instance, group: Some(Permission::RobrixUi), status: Status::PlannedNewPlumbing, risk: Risk::Low, wire: Seq::empty() }
    } else
    if i == 156 {
        CapabilityView { id: "ui.pane.set_badge"@, title: "Badge its chip or tab"@, blurb: "A count or dot on the minimized chip and tab, the quiet alternative to a popup."@, access: Access::Act, direction: Direction::Outgoing, scope: Scope::Instance, group: Some(Permission::RobrixUi), status: Status::PlannedNewPlumbing, risk: Risk::Low, wire: Seq::empty() }
    } else
    if i == 157 {
        CapabilityView { id: "ui.focus.request"@, title: "Keyboard focus"@, blurb: "Ask for key focus inside the pane; refused unless foreground, so it cannot steal focus from the composer."@, access: Access::Act, direction: Direction::Outgoing, scope: Scope::Instance, group: Some(Permission::RobrixUi), status: Status::PlannedNewPlumbing, risk: Risk::Medium, wire: Seq::empty() }
    } else
    if i == 158 {
        CapabilityView { id: "host.prefs.read"@, title: "Display settings"@, blurb: "View mode, UI zoom, send-on-enter, thumbnail size, show_read_receipts; never the privacy prefs and never a setter."@, access: Access::Read, direction: Direction::Outgoing, scope: Scope::Client, group: Some(Permission::RobrixPreferences), status: Status::PlannedMachinery, risk: Risk::Low, wire: Seq::empty() }
    } else
    if i == 159 {
        CapabilityView { id: "host.theme.read"@, title: "Theme tokens"@, blurb: "Scheme and colour tokens so an app can match Robrix instead of hardcoding."@, access: Access::Read, direction: Direction::Outgoing, scope: Scope::Client, group: Some(Permission::RobrixPreferences), status: Status::PlannedNewPlumbing, risk: Risk::Low, wire: Seq::empty() }
    } else
    if i == 160 {
        CapabilityView { id: "on_prefs_changed"@, title: "Display settings changed"@, blurb: "One of those settings changed."@, access: Access::Read, direction: Direction::Incoming, scope: Scope::Client, group: Some(Permission::RobrixPreferences), status: Status::PlannedMachinery, risk: Risk::Low, wire: Seq::empty() }
    } else
    if i == 161 {
        CapabilityView { id: "on_theme_changed"@, title: "Theme changed"@, blurb: "Scheme or zoom changed (ScriptReapply)."@, access: Access::Read, direction: Direction::Incoming, scope: Scope::Client, group: Some(Permission::RobrixPreferences), status: Status::PlannedNewPlumbing, risk: Risk::Low, wire: Seq::empty() }
    } else
    if i == 162 {
        CapabilityView { id: "on_active_room_changed"@, title: "You switched rooms"@, blurb: "Which room, thread, or nothing Robrix now shows; latest-only per pass. Reveals browsing, so it prompts."@, access: Access::Read, direction: Direction::Incoming, scope: Scope::MultiRoom, group: Some(Permission::RobrixObserve), status: Status::PlannedMachinery, risk: Risk::High, wire: Seq::empty() }
    } else
    if i == 163 {
        CapabilityView { id: "on_navigation_changed"@, title: "You switched screens"@, blurb: "Home, a space, settings, mini apps; latest-only per pass."@, access: Access::Read, direction: Direction::Incoming, scope: Scope::Client, group: Some(Permission::RobrixObserve), status: Status::PlannedMachinery, risk: Risk::Medium, wire: Seq::empty() }
    } else
    if i == 164 {
        CapabilityView { id: "on_launch"@, title: "Launch context hook"@, blurb: "Be told how the instance was opened: slash command, timeline card, list, or tab."@, access: Access::Read, direction: Direction::Incoming, scope: Scope::Instance, group: None, status: Status::PlannedMachinery, risk: Risk::Low, wire: Seq::empty() }
    } else
    if i == 165 {
        CapabilityView { id: "apps.manage"@, title: "Manage installed apps"@, blurb: "Never: install, uninstall, archive, restore, export or import apps stays a user-only surface."@, access: Access::Write, direction: Direction::Outgoing, scope: Scope::Apps, group: None, status: Status::Never, risk: Risk::Critical, wire: Seq::empty() }
    } else
    if i == 166 {
        CapabilityView { id: "matrix.space.leave"@, title: "Leave a space"@, blurb: "Never: leaving a space and its children is irreversible and user-only."@, access: Access::Write, direction: Direction::Outgoing, scope: Scope::Space, group: None, status: Status::Never, risk: Risk::Critical, wire: Seq::empty() }
    } else
    if i == 167 {
        CapabilityView { id: "matrix.session.manage"@, title: "Log out, verify, manage the account"@, blurb: "Never: no app logs you out, starts device verification, opens the account portal, or changes the session."@, access: Access::Write, direction: Direction::Outgoing, scope: Scope::Account, group: None, status: Status::Never, risk: Risk::Critical, wire: Seq::empty() }
    } else
    if i == 168 {
        CapabilityView { id: "matrix.rooms.leave"@, title: "Leave any room by id"@, blurb: "Never in v1: leaving is destructive and the app cannot see what it would cost you. Only the attached room, host-confirmed, is offered."@, access: Access::Write, direction: Direction::Outgoing, scope: Scope::MultiRoom, group: None, status: Status::Never, risk: Risk::Critical, wire: Seq::empty() }
    } else
    if i == 169 {
        CapabilityView { id: "matrix.room.app.share"@, title: "Share itself into a room"@, blurb: "Never app-initiated: an app posting its own bundle into rooms is a worm vector. Stays a user action (/miniapp share, App Info), still behind the write switch."@, access: Access::Write, direction: Direction::Outgoing, scope: Scope::MultiRoom, group: None, status: Status::Never, risk: Risk::Critical, wire: Seq::empty() }
    } else
    if i == 170 {
        CapabilityView { id: "matrix.room.message.redact_others"@, title: "Delete other people's messages"@, blurb: "Never: moderation stays with the user even when their power level allows it; also covers the user's own non-app messages."@, access: Access::Write, direction: Direction::Outgoing, scope: Scope::Room, group: None, status: Status::Never, risk: Risk::Critical, wire: Seq::empty() }
    } else
    if i == 171 {
        CapabilityView { id: "matrix.room.power_levels.set"@, title: "Change power levels or membership state"@, blurb: "Never: m.room.power_levels, m.room.member, kick and ban are refused by matrix.room.state.send."@, access: Access::Write, direction: Direction::Outgoing, scope: Scope::Room, group: None, status: Status::Never, risk: Risk::Critical, wire: Seq::empty() }
    } else
    if i == 172 {
        CapabilityView { id: "host.composer.get"@, title: "Read the unsent draft"@, blurb: "Never: what the user is typing is theirs until they send it."@, access: Access::Read, direction: Direction::Outgoing, scope: Scope::Room, group: None, status: Status::Never, risk: Risk::High, wire: Seq::empty() }
    } else
    if i == 173 {
        CapabilityView { id: "on_composer_send"@, title: "Rewrite outgoing messages"@, blurb: "Never: a synchronous hook over the user's own speech is a content-injection vector; host.composer.insert is the visible substitute."@, access: Access::ReadWrite, direction: Direction::Incoming, scope: Scope::Room, group: None, status: Status::Never, risk: Risk::Critical, wire: Seq::empty() }
    } else
    if i == 174 {
        CapabilityView { id: "host.prefs.set"@, title: "Change Robrix settings"@, blurb: "Never: no app changes view mode, zoom, read-receipt privacy, or any preference."@, access: Access::Write, direction: Direction::Outgoing, scope: Scope::Client, group: None, status: Status::Never, risk: Risk::High, wire: Seq::empty() }
    } else
    if i == 175 {
        CapabilityView { id: "host.cache.clear"@, title: "Clear caches or run diagnostics"@, blurb: "Never: maintenance actions that can stall Robrix stay out of reach."@, access: Access::Act, direction: Direction::Outgoing, scope: Scope::Client, group: None, status: Status::Never, risk: Risk::High, wire: Seq::empty() }
    } else
    if i == 176 {
        CapabilityView { id: "host.ui.screenshot"@, title: "Screenshot the host"@, blurb: "Never: it would leak every room and pane on screen; Splash screencapture also breaks render commits (makepad 6cf59e1)."@, access: Access::Read, direction: Direction::Outgoing, scope: Scope::Client, group: None, status: Status::Never, risk: Risk::Critical, wire: Seq::empty() }
    } else
    if i == 177 {
        CapabilityView { id: "matrix.to_device.send"@, title: "To-device messaging"@, blurb: "Never until there is an E2EE policy for app-visible to-device traffic (covers the on_to_device hook too)."@, access: Access::Write, direction: Direction::Outgoing, scope: Scope::Account, group: None, status: Status::Never, risk: Risk::Critical, wire: Seq::empty() }
    } else
    {
        CapabilityView { id: "matrix.account.openid.get"@, title: "Identity token"@, blurb: "Never until a per-call consent sheet names the recipient host; an OpenID token proves your identity to a third party."@, access: Access::Read, direction: Direction::Outgoing, scope: Scope::Account, group: None, status: Status::Never, risk: Risk::Critical, wire: Seq::empty() }
    }
}

/// The whole catalog.
pub open spec fn catalog() -> Seq<CapabilityView> {
    Seq::new(CATALOG_LEN as nat, |i: int| catalog_view(i))
}

/// The catalog entry at position `i`.
#[verifier::rlimit(100)]
pub fn catalog_entry(i: usize) -> (c: Capability)
    requires
        i < CATALOG_LEN,
    ensures
        c@ == catalog_view(i as int),
{
    let c = match i {
        0 => Capability { id: "host.env.read", title: "App environment", blurb: "Its app id, whether a room is attached, and (planned) instance tag, surface, platform.", access: Access::Read, direction: Direction::Outgoing, scope: Scope::Instance, group: None, status: Status::Available, risk: Risk::Low, wire: &["env"] },
        1 => Capability { id: "permissions.query", title: "Check its grants", blurb: "State of every declared group (and, with detail, every capability).", access: Access::Read, direction: Direction::Outgoing, scope: Scope::App, group: None, status: Status::Available, risk: Risk::Low, wire: &["permissions.query"] },
        2 => Capability { id: "permissions.request", title: "Ask for a permission", blurb: "Raise the prompt for one declared GROUP ahead of first use; never a single capability, so the prompt unit stays the group.", access: Access::Act, direction: Direction::Outgoing, scope: Scope::App, group: None, status: Status::Available, risk: Risk::Low, wire: &["permissions.request"] },
        3 => Capability { id: "storage.file.read", title: "Read private storage", blurb: "fs.read / fs.exists / fs.list inside the app's own jail, which is per APP and shared by all its instances.", access: Access::Read, direction: Direction::Outgoing, scope: Scope::App, group: None, status: Status::Available, risk: Risk::Low, wire: &[] },
        4 => Capability { id: "storage.file.write", title: "Write private storage", blurb: "fs.write / append / remove / mkdir in the app's jail, which is per app and shared by all its instances.", access: Access::Write, direction: Direction::Outgoing, scope: Scope::App, group: None, status: Status::Available, risk: Risk::Low, wire: &[] },
        5 => Capability { id: "storage.instance.write", title: "Per-instance storage", blurb: "A reserved /instance/ prefix private to this app@room pair, ending the cross-instance clobber.", access: Access::ReadWrite, direction: Direction::Outgoing, scope: Scope::Instance, group: None, status: Status::PlannedNewPlumbing, risk: Risk::Low, wire: &[] },
        6 => Capability { id: "storage.quota.read", title: "Storage usage", blurb: "Bytes used and the cap, so an app can trim before writes fail.", access: Access::Read, direction: Direction::Outgoing, scope: Scope::App, group: None, status: Status::PlannedMachinery, risk: Risk::Low, wire: &[] },
        7 => Capability { id: "timer.schedule", title: "Timers", blurb: "start_timeout / start_interval inside the isolate; runs on the UI thread under the per-call instruction limit.", access: Access::Write, direction: Direction::Outgoing, scope: Scope::App, group: None, status: Status::Available, risk: Risk::Low, wire: &[] },
        8 => Capability { id: "ipc.self.send", title: "Message its other instances", blurb: "ipc.send with to:'self' broadcasts to this app's OTHER isolates (never echoes). Inside one sandbox, so no grant.", access: Access::Write, direction: Direction::Outgoing, scope: Scope::App, group: None, status: Status::Available, risk: Risk::Low, wire: &[] },
        9 => Capability { id: "events.subscribe", title: "Subscribe to an event family", blurb: "Turn on one gated incoming family with a filter. Checked against that family's capability, charged, records Used, per instance, dies with the isolate.", access: Access::Act, direction: Direction::Outgoing, scope: Scope::Instance, group: None, status: Status::PlannedNewPlumbing, risk: Risk::Low, wire: &[] },
        10 => Capability { id: "events.unsubscribe", title: "Unsubscribe", blurb: "Stop one family, or all with event:'*'; queued deliveries are dropped.", access: Access::Act, direction: Direction::Outgoing, scope: Scope::Instance, group: None, status: Status::PlannedNewPlumbing, risk: Risk::Low, wire: &[] },
        11 => Capability { id: "ui.pane.read", title: "Its pane state", blurb: "Surface (dock/tab/modal), dock side, content size, minimized, foreground.", access: Access::Read, direction: Direction::Outgoing, scope: Scope::Instance, group: None, status: Status::PlannedMachinery, risk: Risk::Low, wire: &[] },
        12 => Capability { id: "ui.pane.close", title: "Quit itself", blurb: "Tear down this instance, same as the Close button. Runs after the broker drain, never mid-dispatch.", access: Access::Act, direction: Direction::Outgoing, scope: Scope::Instance, group: None, status: Status::PlannedMachinery, risk: Risk::Low, wire: &[] },
        13 => Capability { id: "ui.dialog.confirm", title: "Host confirm dialog", blurb: "A Robrix-drawn yes/no with the app's text, attributed to the app in chrome it cannot fake. Foreground-only, one at a time.", access: Access::Act, direction: Direction::Outgoing, scope: Scope::Client, group: None, status: Status::PlannedMachinery, risk: Risk::Low, wire: &[] },
        14 => Capability { id: "on_app_resize", title: "Pane resized", blurb: "Called with the new content box whenever it changes by more than 0.5pt; queued during draw, delivered at the next event.", access: Access::Read, direction: Direction::Incoming, scope: Scope::Instance, group: None, status: Status::Available, risk: Risk::Low, wire: &["on_app_resize"] },
        15 => Capability { id: "on_permissions_changed", title: "Grants changed", blurb: "Called with the current caps list after any grant, revoke, expiry or restriction; caps also re-pushed via set_host_caps. A network change restarts the app instead.", access: Access::Read, direction: Direction::Incoming, scope: Scope::App, group: None, status: Status::Available, risk: Risk::Low, wire: &["on_permissions_changed"] },
        16 => Capability { id: "on_focus_changed", title: "Foreground changed", blurb: "Called when this instance becomes, or stops being, the pane the user is looking at.", access: Access::Read, direction: Direction::Incoming, scope: Scope::Instance, group: None, status: Status::PlannedMachinery, risk: Risk::Low, wire: &[] },
        17 => Capability { id: "on_visibility_changed", title: "Visibility changed", blurb: "visible / minimized / hidden-tab / offscreen-room; the cue to pause timers and network.", access: Access::Read, direction: Direction::Incoming, scope: Scope::Instance, group: None, status: Status::PlannedNewPlumbing, risk: Risk::Low, wire: &[] },
        18 => Capability { id: "on_surface_changed", title: "Moved between surfaces", blurb: "Called after break-out, return-to-room, or a dock side change.", access: Access::Read, direction: Direction::Incoming, scope: Scope::Instance, group: None, status: Status::PlannedMachinery, risk: Risk::Low, wire: &[] },
        19 => Capability { id: "on_suspend", title: "Suspend", blurb: "Called when minimized, tab hidden, or Robrix backgrounded; the host pauses its timers after the call returns. One event-pass budget.", access: Access::Read, direction: Direction::Incoming, scope: Scope::Instance, group: None, status: Status::PlannedNewPlumbing, risk: Risk::Low, wire: &[] },
        20 => Capability { id: "on_resume", title: "Resume", blurb: "Called after suspend with the count of subscribed events dropped meanwhile (no replay).", access: Access::Read, direction: Direction::Incoming, scope: Scope::Instance, group: None, status: Status::PlannedNewPlumbing, risk: Risk::Low, wire: &[] },
        21 => Capability { id: "on_quit", title: "Quit", blurb: "Best-effort before teardown (close, restart on caps change); skipped on force stop and Restrict; capped to one event pass; fs writes are the only sane use.", access: Access::Read, direction: Direction::Incoming, scope: Scope::Instance, group: None, status: Status::PlannedNewPlumbing, risk: Risk::Low, wire: &[] },
        22 => Capability { id: "on_low_memory", title: "Memory pressure", blurb: "Called when the host is about to collect harder; drop caches or be stopped.", access: Access::Read, direction: Direction::Incoming, scope: Scope::Instance, group: None, status: Status::PlannedNewPlumbing, risk: Risk::Low, wire: &[] },
        23 => Capability { id: "network.http", title: "HTTP requests", blurb: "mod.net.http_request from the isolate; traps in a netless isolate, which is why a grant change restarts the app.", access: Access::ReadWrite, direction: Direction::Outgoing, scope: Scope::Device, group: Some(Permission::Network), status: Status::Available, risk: Risk::High, wire: &[] },
        24 => Capability { id: "device.location.read", title: "Current location", blurb: "One fix: CoreLocation first, city-level IP geolocation on failure; waiting requests share one fix.", access: Access::Read, direction: Direction::Outgoing, scope: Scope::Device, group: Some(Permission::Location), status: Status::Available, risk: Risk::High, wire: &["location.get"] },
        25 => Capability { id: "on_location", title: "Location updates", blurb: "A fix stream after events.subscribe('on_location', {min_interval_secs}); stops while suspended.", access: Access::Read, direction: Direction::Incoming, scope: Scope::Device, group: Some(Permission::Location), status: Status::PlannedNewPlumbing, risk: Risk::High, wire: &[] },
        26 => Capability { id: "notifications.post", title: "Show a popup", blurb: "A popup in Robrix's chrome prefixed with the app name; text flattened and clamped to 200 chars.", access: Access::Act, direction: Direction::Outgoing, scope: Scope::Client, group: Some(Permission::Notifications), status: Status::Available, risk: Risk::Low, wire: &["notify.post"] },
        27 => Capability { id: "notifications.clear", title: "Clear its popups", blurb: "Accepted for compatibility; a shown popup cannot be recalled today.", access: Access::Act, direction: Direction::Outgoing, scope: Scope::Client, group: Some(Permission::Notifications), status: Status::Available, risk: Risk::Low, wire: &["notify.clear"] },
        28 => Capability { id: "notifications.system.post", title: "System notification", blurb: "A real OS notification when Robrix is backgrounded; tapping it reopens the app in its room.", access: Access::Act, direction: Direction::Outgoing, scope: Scope::Device, group: Some(Permission::Notifications), status: Status::PlannedNewPlumbing, risk: Risk::Medium, wire: &[] },
        29 => Capability { id: "on_notification_activated", title: "Popup tapped", blurb: "Called when the user taps this app's popup or notification; the host also foregrounds the app.", access: Access::Read, direction: Direction::Incoming, scope: Scope::Client, group: Some(Permission::Notifications), status: Status::PlannedNewPlumbing, risk: Risk::Low, wire: &[] },
        30 => Capability { id: "device.clipboard.read", title: "Read clipboard", blurb: "Clipboard text, 64KB cap; macOS only today (pbpaste off-thread), other platforms answer an error.", access: Access::Read, direction: Direction::Outgoing, scope: Scope::Device, group: Some(Permission::ClipboardRead), status: Status::Available, risk: Risk::High, wire: &["clipboard.read"] },
        31 => Capability { id: "ipc.send", title: "Message another app", blurb: "Fire-and-forget JSON to another installed app's running isolates; refused unless the target declares ipc and is not denied.", access: Access::Write, direction: Direction::Outgoing, scope: Scope::Apps, group: Some(Permission::Ipc), status: Status::Available, risk: Risk::Medium, wire: &["ipc.send"] },
        32 => Capability { id: "on_ipc_message", title: "Receive app messages", blurb: "Called when another app or a sibling instance sends to this one. Opted into by declaring ipc and defining the hook; a Denied ipc shuts the inbox. No queue bound today.", access: Access::Read, direction: Direction::Incoming, scope: Scope::Apps, group: Some(Permission::Ipc), status: Status::Available, risk: Risk::Low, wire: &["on_ipc_message"] },
        33 => Capability { id: "ipc.request", title: "Ask another app", blurb: "Send and await one reply with a timeout; the target's on_ipc_request returns the answer. A pending table keyed (heap, req_id) means a dead target cannot hang the caller.", access: Access::ReadWrite, direction: Direction::Outgoing, scope: Scope::Apps, group: Some(Permission::Ipc), status: Status::PlannedNewPlumbing, risk: Risk::Medium, wire: &[] },
        34 => Capability { id: "on_ipc_request", title: "Answer another app", blurb: "Called with a request from another app; the return value is the reply.", access: Access::Read, direction: Direction::Incoming, scope: Scope::Apps, group: Some(Permission::Ipc), status: Status::PlannedNewPlumbing, risk: Risk::Low, wire: &[] },
        35 => Capability { id: "ipc.apps.list", title: "Apps that accept messages", blurb: "Ids, names and running flag of installed apps that declare ipc. Gated by ipc because it leaks the installed-app list.", access: Access::Read, direction: Direction::Outgoing, scope: Scope::Apps, group: Some(Permission::Ipc), status: Status::PlannedMachinery, risk: Risk::Medium, wire: &[] },
        36 => Capability { id: "matrix.room.messages.read", title: "Recent messages", blurb: "Latest text messages, oldest first, bodies cut at 500 chars; event cache first, pagination fallback.", access: Access::Read, direction: Direction::Outgoing, scope: Scope::Room, group: Some(Permission::MatrixRoomRead), status: Status::Available, risk: Risk::High, wire: &["matrix.read_messages"] },
        37 => Capability { id: "matrix.room.members.read", title: "Member list", blurb: "Joined members with power level; store first, /members sync only when sparse.", access: Access::Read, direction: Direction::Outgoing, scope: Scope::Room, group: Some(Permission::MatrixRoomRead), status: Status::Available, risk: Risk::Medium, wire: &["matrix.room_members"] },
        38 => Capability { id: "matrix.room.pins.read", title: "Pinned messages", blurb: "The attached room's pinned messages.", access: Access::Read, direction: Direction::Outgoing, scope: Scope::Room, group: Some(Permission::MatrixRoomRead), status: Status::Available, risk: Risk::Medium, wire: &["matrix.pinned_events"] },
        39 => Capability { id: "matrix.room.threads.read", title: "Thread list", blurb: "Thread root messages, newest first.", access: Access::Read, direction: Direction::Outgoing, scope: Scope::Room, group: Some(Permission::MatrixRoomRead), status: Status::Available, risk: Risk::High, wire: &["matrix.room_threads"] },
        40 => Capability { id: "matrix.room.thread.read", title: "Thread replies", blurb: "Replies inside one thread, oldest first.", access: Access::Read, direction: Direction::Outgoing, scope: Scope::Room, group: Some(Permission::MatrixRoomRead), status: Status::PlannedMachinery, risk: Risk::High, wire: &[] },
        41 => Capability { id: "matrix.room.messages.paginate", title: "Older history", blurb: "One page further back than the recent window.", access: Access::Read, direction: Direction::Outgoing, scope: Scope::Room, group: Some(Permission::MatrixRoomRead), status: Status::PlannedMachinery, risk: Risk::High, wire: &[] },
        42 => Capability { id: "matrix.room.event.read", title: "One message", blurb: "A single event by id with sender, body, timestamp, reactions and edit state.", access: Access::Read, direction: Direction::Outgoing, scope: Scope::Room, group: Some(Permission::MatrixRoomRead), status: Status::PlannedMachinery, risk: Risk::High, wire: &[] },
        43 => Capability { id: "matrix.room.events.read", title: "Events by type", blurb: "Recent events of declared types (custom app types, m.sticker, ...); type-qualified declaration matched by prefix.", access: Access::Read, direction: Direction::Outgoing, scope: Scope::Room, group: Some(Permission::MatrixRoomRead), status: Status::PlannedNewPlumbing, risk: Risk::High, wire: &[] },
        44 => Capability { id: "matrix.room.relations.read", title: "Reactions, edits, replies", blurb: "Relations of one event: reaction counts, edit history, thread replies.", access: Access::Read, direction: Direction::Outgoing, scope: Scope::Room, group: Some(Permission::MatrixRoomRead), status: Status::PlannedNewPlumbing, risk: Risk::Medium, wire: &[] },
        45 => Capability { id: "matrix.room.state.read", title: "Room state", blurb: "One state event by type and key, from declared `type#key` patterns (m.room.member reveals people, so medium).", access: Access::Read, direction: Direction::Outgoing, scope: Scope::Room, group: Some(Permission::MatrixRoomRead), status: Status::PlannedNewPlumbing, risk: Risk::Medium, wire: &[] },
        46 => Capability { id: "matrix.room.receipts.read", title: "Read positions", blurb: "How far a given person has read, honoring show_read_receipts.", access: Access::Read, direction: Direction::Outgoing, scope: Scope::Room, group: Some(Permission::MatrixRoomRead), status: Status::PlannedMachinery, risk: Risk::Medium, wire: &[] },
        47 => Capability { id: "matrix.room.message.send", title: "Send a message", blurb: "Post text to the attached room as you; one per user action; format beyond plain is planned via the slash-command content builders.", access: Access::Write, direction: Direction::Outgoing, scope: Scope::Room, group: Some(Permission::MatrixRoomSend), status: Status::RefusedBySwitch, risk: Risk::High, wire: &["matrix.send_message"] },
        48 => Capability { id: "matrix.room.message.reply", title: "Reply to a message", blurb: "Post a reply to a specific event.", access: Access::Write, direction: Direction::Outgoing, scope: Scope::Room, group: Some(Permission::MatrixRoomSend), status: Status::PlannedMachinery, risk: Risk::High, wire: &[] },
        49 => Capability { id: "matrix.room.thread.reply", title: "Reply in a thread", blurb: "Post into a thread.", access: Access::Write, direction: Direction::Outgoing, scope: Scope::Room, group: Some(Permission::MatrixRoomSend), status: Status::PlannedMachinery, risk: Risk::High, wire: &[] },
        50 => Capability { id: "matrix.room.message.edit", title: "Edit its own message", blurb: "Change the text of an event THIS APP sent; the host keeps a per-instance sent-event set and refuses everything else.", access: Access::Write, direction: Direction::Outgoing, scope: Scope::Room, group: Some(Permission::MatrixRoomSend), status: Status::PlannedNewPlumbing, risk: Risk::High, wire: &[] },
        51 => Capability { id: "matrix.room.message.redact", title: "Delete its own message", blurb: "Redact an event THIS APP sent; never the user's other messages, never others'.", access: Access::Write, direction: Direction::Outgoing, scope: Scope::Room, group: Some(Permission::MatrixRoomSend), status: Status::PlannedNewPlumbing, risk: Risk::Critical, wire: &[] },
        52 => Capability { id: "matrix.room.attachment.send", title: "Send a file", blurb: "Upload a jail file or pick_binary handle into the room; file name shown on the prompt, host progress UI.", access: Access::Write, direction: Direction::Outgoing, scope: Scope::Room, group: Some(Permission::MatrixRoomSend), status: Status::PlannedMachinery, risk: Risk::High, wire: &[] },
        53 => Capability { id: "matrix.room.event.send", title: "Send a custom event", blurb: "A non-message event of a declared type (matrix.room.event.send:<type>); m.room.* types refused.", access: Access::Write, direction: Direction::Outgoing, scope: Scope::Room, group: Some(Permission::MatrixRoomSend), status: Status::PlannedNewPlumbing, risk: Risk::High, wire: &[] },
        54 => Capability { id: "device.clipboard.write", title: "Write clipboard", blurb: "Replace the clipboard with app text.", access: Access::Write, direction: Direction::Outgoing, scope: Scope::Device, group: Some(Permission::ClipboardWrite), status: Status::Available, risk: Risk::Low, wire: &["clipboard.write"] },
        55 => Capability { id: "device.url.open", title: "Open a link", blurb: "http(s)/mailto in the system handler; scheme allowlist, 2048 chars, foreground-only. matrix.to links route to host.nav.link instead.", access: Access::Act, direction: Direction::Outgoing, scope: Scope::Device, group: Some(Permission::OpenUrl), status: Status::Available, risk: Risk::Medium, wire: &["url.open"] },
        56 => Capability { id: "device.files.pick", title: "Pick a text file", blurb: "OS open dialog returning UTF-8 text up to 1MB. Modal, one at a time, foreground-only.", access: Access::Read, direction: Direction::Outgoing, scope: Scope::Device, group: Some(Permission::Files), status: Status::Available, risk: Risk::Medium, wire: &["files.pick"] },
        57 => Capability { id: "device.files.save", title: "Save a file", blurb: "OS save dialog with a suggested name for app text.", access: Access::Write, direction: Direction::Outgoing, scope: Scope::Device, group: Some(Permission::Files), status: Status::Available, risk: Risk::Low, wire: &["files.save"] },
        58 => Capability { id: "device.files.pick_binary", title: "Pick a binary file", blurb: "Open dialog returning an opaque handle the app can pass to share.file or attachment.send, so bytes never enter the script heap; base64 only on request.", access: Access::Read, direction: Direction::Outgoing, scope: Scope::Device, group: Some(Permission::Files), status: Status::PlannedNewPlumbing, risk: Risk::Medium, wire: &[] },
        59 => Capability { id: "device.share", title: "Share text", blurb: "System share sheet with text.", access: Access::Act, direction: Direction::Outgoing, scope: Scope::Device, group: Some(Permission::Share), status: Status::Available, risk: Risk::Low, wire: &["share"] },
        60 => Capability { id: "device.share.file", title: "Share a file", blurb: "Share sheet with a file from the jail or a pick_binary handle; the path is resolved inside the jail host-side.", access: Access::Act, direction: Direction::Outgoing, scope: Scope::Device, group: Some(Permission::Share), status: Status::PlannedNewPlumbing, risk: Risk::Low, wire: &[] },
        61 => Capability { id: "device.auth.check", title: "Confirm it's you", blurb: "Biometric/password prompt with the app's reason; the app learns only pass/fail. Modal, one at a time.", access: Access::Act, direction: Direction::Outgoing, scope: Scope::Device, group: Some(Permission::Auth), status: Status::Available, risk: Risk::Low, wire: &["auth.check"] },
        62 => Capability { id: "matrix.room.info.read", title: "Room details", blurb: "Name, topic, member count, encryption, join rule, history visibility of the attached room.", access: Access::Read, direction: Direction::Outgoing, scope: Scope::Room, group: Some(Permission::MatrixRoomInfo), status: Status::Available, risk: Risk::Low, wire: &["matrix.room_info"] },
        63 => Capability { id: "matrix.room.unread.read", title: "Unread count", blurb: "Unread and mention counts and the marked-unread flag.", access: Access::Read, direction: Direction::Outgoing, scope: Scope::Room, group: Some(Permission::MatrixRoomInfo), status: Status::PlannedMachinery, risk: Risk::Low, wire: &[] },
        64 => Capability { id: "matrix.room.power_levels.read", title: "Room permissions", blurb: "What you may do here: invite, kick, ban, redact, notify room.", access: Access::Read, direction: Direction::Outgoing, scope: Scope::Room, group: Some(Permission::MatrixRoomInfo), status: Status::PlannedMachinery, risk: Risk::Low, wire: &[] },
        65 => Capability { id: "matrix.room.link.create", title: "Permalink", blurb: "A matrix.to or matrix: link to the attached room or one of its events.", access: Access::Read, direction: Direction::Outgoing, scope: Scope::Room, group: Some(Permission::MatrixRoomInfo), status: Status::PlannedMachinery, risk: Risk::Low, wire: &[] },
        66 => Capability { id: "matrix.room.successor.read", title: "Read the upgraded room", blurb: "Learn where an upgraded (tombstoned) room continued.", access: Access::Read, direction: Direction::Outgoing, scope: Scope::Room, group: Some(Permission::MatrixRoomInfo), status: Status::PlannedMachinery, risk: Risk::Low, wire: &[] },
        67 => Capability { id: "on_room_info_changed", title: "Room details changed", blurb: "Renamed, new topic or avatar, encrypted, tagged, or upgraded; coalesced.", access: Access::Read, direction: Direction::Incoming, scope: Scope::Room, group: Some(Permission::MatrixRoomInfo), status: Status::PlannedMachinery, risk: Risk::Low, wire: &[] },
        68 => Capability { id: "on_room_unread_changed", title: "Unread count changed", blurb: "Latest unread and mention counts, coalesced.", access: Access::Read, direction: Direction::Incoming, scope: Scope::Room, group: Some(Permission::MatrixRoomInfo), status: Status::PlannedMachinery, risk: Risk::Low, wire: &[] },
        69 => Capability { id: "on_room_pins_changed", title: "Pins changed", blurb: "The new pinned event ids (contents need matrix-room-read).", access: Access::Read, direction: Direction::Incoming, scope: Scope::Room, group: Some(Permission::MatrixRoomInfo), status: Status::PlannedMachinery, risk: Risk::Low, wire: &[] },
        70 => Capability { id: "matrix.profile.read", title: "Your identity", blurb: "Your own user id and display name (avatar mxc planned).", access: Access::Read, direction: Direction::Outgoing, scope: Scope::Account, group: Some(Permission::MatrixProfile), status: Status::Available, risk: Risk::Medium, wire: &["matrix.profile"] },
        71 => Capability { id: "on_profile_changed", title: "Identity changed", blurb: "Called when your display name or avatar changes.", access: Access::Read, direction: Direction::Incoming, scope: Scope::Account, group: Some(Permission::MatrixProfile), status: Status::PlannedMachinery, risk: Risk::Low, wire: &[] },
        72 => Capability { id: "device.info.read", title: "Device facts", blurb: "Platform, OS family, locale, time zone, desktop view mode, UI zoom.", access: Access::Read, direction: Direction::Outgoing, scope: Scope::Device, group: Some(Permission::DeviceInfo), status: Status::PlannedMachinery, risk: Risk::Low, wire: &[] },
        73 => Capability { id: "network.status.read", title: "Online or offline", blurb: "Whether Robrix currently has connectivity, from the sync loop's view.", access: Access::Read, direction: Direction::Outgoing, scope: Scope::Device, group: Some(Permission::DeviceInfo), status: Status::PlannedNewPlumbing, risk: Risk::Low, wire: &[] },
        74 => Capability { id: "on_network_changed", title: "Connectivity changed", blurb: "Called when Robrix goes offline or online; coalesced to one per pass.", access: Access::Read, direction: Direction::Incoming, scope: Scope::Device, group: Some(Permission::DeviceInfo), status: Status::PlannedNewPlumbing, risk: Risk::Low, wire: &[] },
        75 => Capability { id: "on_sync_state_changed", title: "Sync state changed", blurb: "connecting / syncing / offline / error, coalesced.", access: Access::Read, direction: Direction::Incoming, scope: Scope::Account, group: Some(Permission::DeviceInfo), status: Status::PlannedNewPlumbing, risk: Risk::Low, wire: &[] },
        76 => Capability { id: "device.camera.capture", title: "Take a photo", blurb: "OS camera returning a handle or base64; until it exists, files.pick_binary(accept:'image') is the honest route.", access: Access::Read, direction: Direction::Outgoing, scope: Scope::Device, group: Some(Permission::Camera), status: Status::PlannedNewPlumbing, risk: Risk::High, wire: &[] },
        77 => Capability { id: "device.microphone.record", title: "Record audio", blurb: "OS recorder returning a clip handle for share or attachment.", access: Access::Read, direction: Direction::Outgoing, scope: Scope::Device, group: Some(Permission::Microphone), status: Status::PlannedNewPlumbing, risk: Risk::High, wire: &[] },
        78 => Capability { id: "matrix.account.device.read", title: "This device", blurb: "Device id, name, and verification state.", access: Access::Read, direction: Direction::Outgoing, scope: Scope::Account, group: Some(Permission::MatrixAccountRead), status: Status::PlannedMachinery, risk: Risk::Medium, wire: &[] },
        79 => Capability { id: "matrix.account.info.read", title: "Account info", blurb: "Homeserver URL and account-management URL.", access: Access::Read, direction: Direction::Outgoing, scope: Scope::Account, group: Some(Permission::MatrixAccountRead), status: Status::PlannedMachinery, risk: Risk::Medium, wire: &[] },
        80 => Capability { id: "matrix.account.data.read", title: "Read app account data", blurb: "A global account-data event of an app-namespaced type (rs.robius.a2app.<app_id>.*); m.* types are refused.", access: Access::Read, direction: Direction::Outgoing, scope: Scope::Account, group: Some(Permission::MatrixAccountRead), status: Status::PlannedNewPlumbing, risk: Risk::Medium, wire: &[] },
        81 => Capability { id: "matrix.account.ignored.read", title: "Read your ignore list", blurb: "See which users you have ignored.", access: Access::Read, direction: Direction::Outgoing, scope: Scope::Account, group: Some(Permission::MatrixAccountRead), status: Status::PlannedMachinery, risk: Risk::Medium, wire: &[] },
        82 => Capability { id: "on_account_data_changed", title: "App account data changed", blurb: "Called when a subscribed app-namespaced type changes on any device.", access: Access::Read, direction: Direction::Incoming, scope: Scope::Account, group: Some(Permission::MatrixAccountRead), status: Status::PlannedNewPlumbing, risk: Risk::Medium, wire: &[] },
        83 => Capability { id: "matrix.account.display_name.set", title: "Change your name", blurb: "Set your global display name; the new name is shown on the prompt.", access: Access::Write, direction: Direction::Outgoing, scope: Scope::Account, group: Some(Permission::MatrixAccountWrite), status: Status::PlannedMachinery, risk: Risk::Critical, wire: &[] },
        84 => Capability { id: "matrix.account.avatar.set", title: "Change your avatar", blurb: "Upload and set, or clear, your global avatar.", access: Access::Write, direction: Direction::Outgoing, scope: Scope::Account, group: Some(Permission::MatrixAccountWrite), status: Status::PlannedMachinery, risk: Risk::Critical, wire: &[] },
        85 => Capability { id: "matrix.user.ignore.set", title: "Block or unblock someone", blurb: "Add or remove a user from the account-wide ignore list.", access: Access::Write, direction: Direction::Outgoing, scope: Scope::User, group: Some(Permission::MatrixAccountWrite), status: Status::PlannedMachinery, risk: Risk::Critical, wire: &[] },
        86 => Capability { id: "matrix.account.data.write", title: "Store app account data", blurb: "Write an app-namespaced account-data type so app state follows the user across devices.", access: Access::Write, direction: Direction::Outgoing, scope: Scope::Account, group: Some(Permission::MatrixAccountWrite), status: Status::PlannedNewPlumbing, risk: Risk::High, wire: &[] },
        87 => Capability { id: "matrix.user.profile.read", title: "Look up a user", blurb: "Display name, avatar and ignored flag for any user id through your homeserver.", access: Access::Read, direction: Direction::Outgoing, scope: Scope::User, group: Some(Permission::MatrixUsers), status: Status::PlannedMachinery, risk: Risk::Medium, wire: &[] },
        88 => Capability { id: "matrix.user.dm.find", title: "Find an existing DM", blurb: "The DM room with a user if one exists; never creates one.", access: Access::Read, direction: Direction::Outgoing, scope: Scope::User, group: Some(Permission::MatrixUsers), status: Status::PlannedMachinery, risk: Risk::Medium, wire: &[] },
        89 => Capability { id: "matrix.user.search", title: "Find people", blurb: "Search the homeserver's user directory.", access: Access::Read, direction: Direction::Outgoing, scope: Scope::User, group: Some(Permission::MatrixUsers), status: Status::PlannedNewPlumbing, risk: Risk::Medium, wire: &[] },
        90 => Capability { id: "matrix.user.presence.read", title: "Presence", blurb: "Online / idle / offline for a user, plus the on_user_presence hook.", access: Access::Read, direction: Direction::Outgoing, scope: Scope::User, group: Some(Permission::MatrixUsers), status: Status::PlannedNewPlumbing, risk: Risk::Medium, wire: &[] },
        91 => Capability { id: "on_room_message", title: "New messages", blurb: "New text/notice/emote (media as {msgtype, body} without bytes), batched per event pass, bounded FIFO with drop count.", access: Access::Read, direction: Direction::Incoming, scope: Scope::Room, group: Some(Permission::MatrixRoomWatch), status: Status::PlannedMachinery, risk: Risk::High, wire: &[] },
        92 => Capability { id: "on_room_message_changed", title: "Message edited or removed", blurb: "An existing message was edited or redacted.", access: Access::Read, direction: Direction::Incoming, scope: Scope::Room, group: Some(Permission::MatrixRoomWatch), status: Status::PlannedMachinery, risk: Risk::High, wire: &[] },
        93 => Capability { id: "on_room_reaction", title: "Reactions", blurb: "A reaction added or removed on any event.", access: Access::Read, direction: Direction::Incoming, scope: Scope::Room, group: Some(Permission::MatrixRoomWatch), status: Status::PlannedMachinery, risk: Risk::Medium, wire: &[] },
        94 => Capability { id: "on_room_event", title: "Events of a type", blurb: "Each new event of a declared type, including custom app types; declared as on_room_event:<type>.", access: Access::Read, direction: Direction::Incoming, scope: Scope::Room, group: Some(Permission::MatrixRoomWatch), status: Status::PlannedNewPlumbing, risk: Risk::High, wire: &[] },
        95 => Capability { id: "on_room_state", title: "State changed", blurb: "A state event of a declared type changed; declared as on_room_state:<type>.", access: Access::Read, direction: Direction::Incoming, scope: Scope::Room, group: Some(Permission::MatrixRoomWatch), status: Status::PlannedNewPlumbing, risk: Risk::Medium, wire: &[] },
        96 => Capability { id: "on_room_typing", title: "Who is typing", blurb: "The current set of typing users, latest-only per pass. Subscription started only while an instance asked, refcounted with RoomScreen's.", access: Access::Read, direction: Direction::Incoming, scope: Scope::Room, group: Some(Permission::MatrixRoomWatch), status: Status::PlannedMachinery, risk: Risk::Medium, wire: &[] },
        97 => Capability { id: "on_room_receipt", title: "Read receipts moved", blurb: "Someone's read position moved (own and others).", access: Access::Read, direction: Direction::Incoming, scope: Scope::Room, group: Some(Permission::MatrixRoomWatch), status: Status::PlannedMachinery, risk: Risk::Medium, wire: &[] },
        98 => Capability { id: "on_room_members_changed", title: "Members changed", blurb: "Join, leave, invite, kick, ban in the attached room; bounded queue.", access: Access::Read, direction: Direction::Incoming, scope: Scope::Room, group: Some(Permission::MatrixRoomWatch), status: Status::PlannedMachinery, risk: Risk::Medium, wire: &[] },
        99 => Capability { id: "on_room_mention", title: "You were mentioned", blurb: "An event the push rules say should notify you, in the attached room.", access: Access::Read, direction: Direction::Incoming, scope: Scope::Room, group: Some(Permission::MatrixRoomWatch), status: Status::PlannedNewPlumbing, risk: Risk::High, wire: &[] },
        100 => Capability { id: "matrix.room.reaction.toggle", title: "React", blurb: "Add or remove your reaction on an event.", access: Access::ReadWrite, direction: Direction::Outgoing, scope: Scope::Room, group: Some(Permission::MatrixRoomInteract), status: Status::PlannedMachinery, risk: Risk::Medium, wire: &[] },
        101 => Capability { id: "matrix.room.typing.send", title: "Typing indicator", blurb: "Show you as typing; auto-expires; limiter-priced.", access: Access::Write, direction: Direction::Outgoing, scope: Scope::Room, group: Some(Permission::MatrixRoomInteract), status: Status::PlannedMachinery, risk: Risk::Medium, wire: &[] },
        102 => Capability { id: "matrix.room.receipt.send", title: "Mark as read", blurb: "Send a read receipt up to an event, or mark the room fully read; honors read_receipts_privacy.", access: Access::Write, direction: Direction::Outgoing, scope: Scope::Room, group: Some(Permission::MatrixRoomInteract), status: Status::PlannedMachinery, risk: Risk::Medium, wire: &[] },
        103 => Capability { id: "matrix.room.app_event.send", title: "Save app data to the room", blurb: "Post this app's own state as an rs.robius.a2app.data event with app_id stamped by the host; other members' copies see it.", access: Access::Write, direction: Direction::Outgoing, scope: Scope::Room, group: Some(Permission::MatrixRoomAppData), status: Status::PlannedNewPlumbing, risk: Risk::Medium, wire: &[] },
        104 => Capability { id: "matrix.room.app_event.read", title: "Load app data from the room", blurb: "Latest N of this app's own data events, for state replay on boot.", access: Access::Read, direction: Direction::Outgoing, scope: Scope::Room, group: Some(Permission::MatrixRoomAppData), status: Status::PlannedNewPlumbing, risk: Risk::Low, wire: &[] },
        105 => Capability { id: "on_room_app_event", title: "App data arrived", blurb: "Another copy of this app saved state into the room.", access: Access::Read, direction: Direction::Incoming, scope: Scope::Room, group: Some(Permission::MatrixRoomAppData), status: Status::PlannedNewPlumbing, risk: Risk::Low, wire: &[] },
        106 => Capability { id: "matrix.room.pin.set", title: "Pin or unpin", blurb: "Pin or unpin an event; the SDK enforces power level.", access: Access::Write, direction: Direction::Outgoing, scope: Scope::Room, group: Some(Permission::MatrixRoomManage), status: Status::PlannedMachinery, risk: Risk::Medium, wire: &[] },
        107 => Capability { id: "matrix.room.favorite.set", title: "Favorite", blurb: "Add or remove this room from your favorites.", access: Access::Write, direction: Direction::Outgoing, scope: Scope::Room, group: Some(Permission::MatrixRoomManage), status: Status::PlannedMachinery, risk: Risk::Low, wire: &[] },
        108 => Capability { id: "matrix.room.low_priority.set", title: "Low priority", blurb: "Mark this room low priority or restore it.", access: Access::Write, direction: Direction::Outgoing, scope: Scope::Room, group: Some(Permission::MatrixRoomManage), status: Status::PlannedMachinery, risk: Risk::Low, wire: &[] },
        109 => Capability { id: "matrix.room.unread.set", title: "Flag unread", blurb: "Flag this room unread, or clear the flag, without sending a receipt.", access: Access::Write, direction: Direction::Outgoing, scope: Scope::Room, group: Some(Permission::MatrixRoomManage), status: Status::PlannedMachinery, risk: Risk::Low, wire: &[] },
        110 => Capability { id: "matrix.room.state.send", title: "Change room settings", blurb: "A state event of a declared type (name, topic, avatar, or an app-owned state type); power levels and membership types refused.", access: Access::Write, direction: Direction::Outgoing, scope: Scope::Room, group: Some(Permission::MatrixRoomManage), status: Status::PlannedNewPlumbing, risk: Risk::Critical, wire: &[] },
        111 => Capability { id: "matrix.room.account_data.read", title: "Read room notes", blurb: "App-owned per-room account data.", access: Access::Read, direction: Direction::Outgoing, scope: Scope::Room, group: Some(Permission::MatrixRoomManage), status: Status::PlannedNewPlumbing, risk: Risk::Medium, wire: &[] },
        112 => Capability { id: "matrix.room.account_data.write", title: "Store room notes", blurb: "Write app-owned per-room account data (never m.* types).", access: Access::Write, direction: Direction::Outgoing, scope: Scope::Room, group: Some(Permission::MatrixRoomManage), status: Status::PlannedNewPlumbing, risk: Risk::Medium, wire: &[] },
        113 => Capability { id: "matrix.room.invite.send", title: "Invite someone", blurb: "Invite a user to the attached room as you; the user id is shown on every prompt.", access: Access::Write, direction: Direction::Outgoing, scope: Scope::Room, group: Some(Permission::MatrixRoomInvite), status: Status::PlannedMachinery, risk: Risk::High, wire: &[] },
        114 => Capability { id: "matrix.media.download", title: "Fetch an attachment", blurb: "Bytes of an attachment or thumbnail from the attached room, size-capped, base64 or handle.", access: Access::Read, direction: Direction::Outgoing, scope: Scope::Room, group: Some(Permission::MatrixMedia), status: Status::PlannedMachinery, risk: Risk::High, wire: &[] },
        115 => Capability { id: "matrix.media.save", title: "Download to disk", blurb: "Save an attachment from the attached room to Downloads with host progress UI.", access: Access::Act, direction: Direction::Outgoing, scope: Scope::Room, group: Some(Permission::MatrixMedia), status: Status::PlannedMachinery, risk: Risk::Medium, wire: &[] },
        116 => Capability { id: "matrix.media.share", title: "Share an attachment", blurb: "Hand a room attachment to the system share sheet.", access: Access::Act, direction: Direction::Outgoing, scope: Scope::Room, group: Some(Permission::MatrixMedia), status: Status::PlannedMachinery, risk: Risk::Medium, wire: &[] },
        117 => Capability { id: "matrix.media.avatar.read", title: "Avatars", blurb: "A member's or the room's avatar thumbnail.", access: Access::Read, direction: Direction::Outgoing, scope: Scope::Room, group: Some(Permission::MatrixMedia), status: Status::PlannedMachinery, risk: Risk::Low, wire: &[] },
        118 => Capability { id: "matrix.media.url_preview.read", title: "Link preview", blurb: "Title, description and image of a URL via the homeserver (the homeserver sees the URL).", access: Access::Read, direction: Direction::Outgoing, scope: Scope::Account, group: Some(Permission::MatrixMedia), status: Status::PlannedMachinery, risk: Risk::Medium, wire: &[] },
        119 => Capability { id: "matrix.media.upload", title: "Upload media", blurb: "Upload bytes to the media repo and get an mxc uri without sending an event.", access: Access::Write, direction: Direction::Outgoing, scope: Scope::Account, group: Some(Permission::MatrixMedia), status: Status::PlannedMachinery, risk: Risk::Medium, wire: &[] },
        120 => Capability { id: "on_upload_progress", title: "Upload progress hook", blurb: "Be told how an upload it started is progressing, and cancel it.", access: Access::Read, direction: Direction::Incoming, scope: Scope::Room, group: Some(Permission::MatrixMedia), status: Status::PlannedMachinery, risk: Risk::Low, wire: &[] },
        121 => Capability { id: "matrix.rooms.list", title: "Your rooms", blurb: "Joined rooms and DMs with name, unread, mentions, tags, is_direct, is_space; no message previews; optionally limited to a space.", access: Access::Read, direction: Direction::Outgoing, scope: Scope::MultiRoom, group: Some(Permission::MatrixRoomsList), status: Status::PlannedMachinery, risk: Risk::High, wire: &[] },
        122 => Capability { id: "matrix.rooms.search", title: "Find rooms", blurb: "Your rooms and spaces whose name or alias match a query.", access: Access::Read, direction: Direction::Outgoing, scope: Scope::MultiRoom, group: Some(Permission::MatrixRoomsList), status: Status::PlannedMachinery, risk: Risk::Medium, wire: &[] },
        123 => Capability { id: "matrix.rooms.invites.list", title: "Pending invites", blurb: "Rooms you are invited to, with inviter.", access: Access::Read, direction: Direction::Outgoing, scope: Scope::MultiRoom, group: Some(Permission::MatrixRoomsList), status: Status::PlannedMachinery, risk: Risk::Medium, wire: &[] },
        124 => Capability { id: "matrix.rooms.preview.read", title: "Preview a room", blurb: "Public details of any room by id or alias, joined or not.", access: Access::Read, direction: Direction::Outgoing, scope: Scope::MultiRoom, group: Some(Permission::MatrixRoomsList), status: Status::PlannedMachinery, risk: Risk::Low, wire: &[] },
        125 => Capability { id: "on_rooms_changed", title: "Room list changed", blurb: "Rooms joined, left, renamed, reordered, or unread counts changed; coalesced diff per pass.", access: Access::Read, direction: Direction::Incoming, scope: Scope::MultiRoom, group: Some(Permission::MatrixRoomsList), status: Status::PlannedMachinery, risk: Risk::High, wire: &[] },
        126 => Capability { id: "on_invite_received", title: "Invite received", blurb: "A new room invite arrived; joining stays a user action unless matrix-membership is granted.", access: Access::Read, direction: Direction::Incoming, scope: Scope::MultiRoom, group: Some(Permission::MatrixRoomsList), status: Status::PlannedMachinery, risk: Risk::Medium, wire: &[] },
        127 => Capability { id: "on_unread_totals_changed", title: "Unread totals changed", blurb: "Account-wide unread and mention totals without per-room detail.", access: Access::Read, direction: Direction::Incoming, scope: Scope::MultiRoom, group: Some(Permission::MatrixRoomsList), status: Status::PlannedMachinery, risk: Risk::Low, wire: &[] },
        128 => Capability { id: "matrix.rooms.info.read", title: "Details of another room", blurb: "Room details for a room in this app's allowlist.", access: Access::Read, direction: Direction::Outgoing, scope: Scope::MultiRoom, group: Some(Permission::MatrixRoomsRead), status: Status::PlannedMachinery, risk: Risk::Medium, wire: &[] },
        129 => Capability { id: "matrix.rooms.messages.read", title: "Messages in another room", blurb: "Recent messages in a room in this app's allowlist.", access: Access::Read, direction: Direction::Outgoing, scope: Scope::MultiRoom, group: Some(Permission::MatrixRoomsRead), status: Status::PlannedMachinery, risk: Risk::Critical, wire: &[] },
        130 => Capability { id: "on_rooms_message", title: "New messages in picked rooms", blurb: "New messages in allowlisted rooms; only rooms whose timeline Robrix has built deliver, so a firehose over every room is not offered.", access: Access::Read, direction: Direction::Incoming, scope: Scope::MultiRoom, group: Some(Permission::MatrixRoomsRead), status: Status::PlannedNewPlumbing, risk: Risk::Critical, wire: &[] },
        131 => Capability { id: "matrix.rooms.message.send", title: "Send to another room", blurb: "Post text to an allowlisted room as you; room name and text shown on every prompt.", access: Access::Write, direction: Direction::Outgoing, scope: Scope::MultiRoom, group: Some(Permission::MatrixRoomsSend), status: Status::PlannedMachinery, risk: Risk::Critical, wire: &[] },
        132 => Capability { id: "matrix.rooms.join", title: "Join or knock", blurb: "Join a room by id or alias, or knock if invite-only; room name shown on every prompt.", access: Access::Write, direction: Direction::Outgoing, scope: Scope::MultiRoom, group: Some(Permission::MatrixMembership), status: Status::PlannedMachinery, risk: Risk::High, wire: &[] },
        133 => Capability { id: "matrix.invites.respond", title: "Answer an invite", blurb: "Accept or decline a pending invite.", access: Access::Write, direction: Direction::Outgoing, scope: Scope::MultiRoom, group: Some(Permission::MatrixMembership), status: Status::PlannedMachinery, risk: Risk::High, wire: &[] },
        134 => Capability { id: "matrix.user.dm.open", title: "Start a direct message", blurb: "Open, or create if needed, a DM with someone and navigate there; creation is what makes this membership.", access: Access::ReadWrite, direction: Direction::Outgoing, scope: Scope::User, group: Some(Permission::MatrixMembership), status: Status::PlannedMachinery, risk: Risk::High, wire: &[] },
        135 => Capability { id: "matrix.room.leave", title: "Leave this room", blurb: "Leave the ATTACHED room as you; Robrix's own leave confirmation is raised on every call, and success kills the instance. Leaving any other room stays never.", access: Access::Write, direction: Direction::Outgoing, scope: Scope::Room, group: Some(Permission::MatrixMembership), status: Status::PlannedMachinery, risk: Risk::Critical, wire: &[] },
        136 => Capability { id: "matrix.rooms.create", title: "Create a room", blurb: "Create a room with a name and invitees.", access: Access::Write, direction: Direction::Outgoing, scope: Scope::MultiRoom, group: Some(Permission::MatrixMembership), status: Status::PlannedNewPlumbing, risk: Risk::High, wire: &[] },
        137 => Capability { id: "matrix.spaces.list", title: "Your spaces", blurb: "The spaces you have joined.", access: Access::Read, direction: Direction::Outgoing, scope: Scope::Space, group: Some(Permission::MatrixSpaces), status: Status::PlannedMachinery, risk: Risk::Medium, wire: &[] },
        138 => Capability { id: "matrix.space.info.read", title: "Space details", blurb: "Name, topic, member and room counts, join rule, world-readable.", access: Access::Read, direction: Direction::Outgoing, scope: Scope::Space, group: Some(Permission::MatrixSpaces), status: Status::PlannedMachinery, risk: Risk::Medium, wire: &[] },
        139 => Capability { id: "matrix.space.rooms.list", title: "Rooms in a space", blurb: "Child rooms and subspaces with joined flag.", access: Access::Read, direction: Direction::Outgoing, scope: Scope::Space, group: Some(Permission::MatrixSpaces), status: Status::PlannedMachinery, risk: Risk::Medium, wire: &[] },
        140 => Capability { id: "on_space_changed", title: "Space changed", blurb: "A subscribed space's children or your space list changed.", access: Access::Read, direction: Direction::Incoming, scope: Scope::Space, group: Some(Permission::MatrixSpaces), status: Status::PlannedMachinery, risk: Risk::Low, wire: &[] },
        141 => Capability { id: "host.nav.room", title: "Open a room", blurb: "Switch Robrix to a joined room; unknown or unjoined refused.", access: Access::Act, direction: Direction::Outgoing, scope: Scope::MultiRoom, group: Some(Permission::RobrixNavigation), status: Status::PlannedMachinery, risk: Risk::Medium, wire: &[] },
        142 => Capability { id: "host.nav.event", title: "Jump to a message", blurb: "Scroll the attached room to an event and highlight it.", access: Access::Act, direction: Direction::Outgoing, scope: Scope::Room, group: Some(Permission::RobrixNavigation), status: Status::PlannedMachinery, risk: Risk::Low, wire: &[] },
        143 => Capability { id: "host.nav.thread", title: "Open a thread", blurb: "Open a thread of the attached room.", access: Access::Act, direction: Direction::Outgoing, scope: Scope::Room, group: Some(Permission::RobrixNavigation), status: Status::PlannedMachinery, risk: Risk::Low, wire: &[] },
        144 => Capability { id: "host.nav.user", title: "Show a profile", blurb: "Open the user profile pane for a user.", access: Access::Act, direction: Direction::Outgoing, scope: Scope::User, group: Some(Permission::RobrixNavigation), status: Status::PlannedMachinery, risk: Risk::Low, wire: &[] },
        145 => Capability { id: "host.nav.space", title: "Open a space", blurb: "Go to a space's lobby.", access: Access::Act, direction: Direction::Outgoing, scope: Scope::Space, group: Some(Permission::RobrixNavigation), status: Status::PlannedMachinery, risk: Risk::Low, wire: &[] },
        146 => Capability { id: "host.nav.screen", title: "Open a screen", blurb: "Home, add/join room, Mini Apps, Settings.", access: Access::Act, direction: Direction::Outgoing, scope: Scope::Client, group: Some(Permission::RobrixNavigation), status: Status::PlannedMachinery, risk: Risk::Low, wire: &[] },
        147 => Capability { id: "host.nav.link", title: "Open a Matrix link in-app", blurb: "Resolve a matrix.to / matrix: URI to a room, event or user inside Robrix.", access: Access::Act, direction: Direction::Outgoing, scope: Scope::MultiRoom, group: Some(Permission::RobrixNavigation), status: Status::PlannedNewPlumbing, risk: Risk::Medium, wire: &[] },
        148 => Capability { id: "host.nav.app", title: "Open another mini-app", blurb: "Open an installed app in this room's dock; target must be installed and unrestricted.", access: Access::Act, direction: Direction::Outgoing, scope: Scope::Apps, group: Some(Permission::RobrixNavigation), status: Status::PlannedMachinery, risk: Risk::Low, wire: &[] },
        149 => Capability { id: "host.composer.insert", title: "Draft a message for you", blurb: "Put text into the attached room's message box, optionally as a reply; the user still presses send.", access: Access::Act, direction: Direction::Outgoing, scope: Scope::Room, group: Some(Permission::RobrixComposer), status: Status::PlannedNewPlumbing, risk: Risk::Medium, wire: &[] },
        150 => Capability { id: "host.composer.reply_to", title: "Set reply target", blurb: "Put the composer into reply or thread-reply mode for an event.", access: Access::Act, direction: Direction::Outgoing, scope: Scope::Room, group: Some(Permission::RobrixComposer), status: Status::PlannedMachinery, risk: Risk::Low, wire: &[] },
        151 => Capability { id: "ui.pane.request_size", title: "Preferred size", blurb: "Hint the size along the pane's resizable axis; the dock clamps and the user's drag always wins; rate-limited harder since it reflows the timeline.", access: Access::Act, direction: Direction::Outgoing, scope: Scope::Instance, group: Some(Permission::RobrixUi), status: Status::PlannedNewPlumbing, risk: Risk::Low, wire: &[] },
        152 => Capability { id: "ui.pane.set_side", title: "Choose dock side", blurb: "Move to top/bottom/left/right, same as the CycleEdge button.", access: Access::Act, direction: Direction::Outgoing, scope: Scope::Instance, group: Some(Permission::RobrixUi), status: Status::PlannedMachinery, risk: Risk::Low, wire: &[] },
        153 => Capability { id: "ui.pane.minimize", title: "Minimize to chip", blurb: "Collapse into the chips row; an app may shrink itself but never un-minimize itself.", access: Access::Act, direction: Direction::Outgoing, scope: Scope::Instance, group: Some(Permission::RobrixUi), status: Status::PlannedMachinery, risk: Risk::Low, wire: &[] },
        154 => Capability { id: "ui.pane.break_out", title: "Break out to a tab", blurb: "Move to its own desktop dock tab; refused in mobile view.", access: Access::Act, direction: Direction::Outgoing, scope: Scope::Instance, group: Some(Permission::RobrixUi), status: Status::PlannedMachinery, risk: Risk::Low, wire: &[] },
        155 => Capability { id: "ui.pane.set_title", title: "Pane title", blurb: "Override the tab/pane title line; always prefixed with the real app name so it cannot spoof another app.", access: Access::Act, direction: Direction::Outgoing, scope: Scope::Instance, group: Some(Permission::RobrixUi), status: Status::PlannedNewPlumbing, risk: Risk::Low, wire: &[] },
        156 => Capability { id: "ui.pane.set_badge", title: "Badge its chip or tab", blurb: "A count or dot on the minimized chip and tab, the quiet alternative to a popup.", access: Access::Act, direction: Direction::Outgoing, scope: Scope::Instance, group: Some(Permission::RobrixUi), status: Status::PlannedNewPlumbing, risk: Risk::Low, wire: &[] },
        157 => Capability { id: "ui.focus.request", title: "Keyboard focus", blurb: "Ask for key focus inside the pane; refused unless foreground, so it cannot steal focus from the composer.", access: Access::Act, direction: Direction::Outgoing, scope: Scope::Instance, group: Some(Permission::RobrixUi), status: Status::PlannedNewPlumbing, risk: Risk::Medium, wire: &[] },
        158 => Capability { id: "host.prefs.read", title: "Display settings", blurb: "View mode, UI zoom, send-on-enter, thumbnail size, show_read_receipts; never the privacy prefs and never a setter.", access: Access::Read, direction: Direction::Outgoing, scope: Scope::Client, group: Some(Permission::RobrixPreferences), status: Status::PlannedMachinery, risk: Risk::Low, wire: &[] },
        159 => Capability { id: "host.theme.read", title: "Theme tokens", blurb: "Scheme and colour tokens so an app can match Robrix instead of hardcoding.", access: Access::Read, direction: Direction::Outgoing, scope: Scope::Client, group: Some(Permission::RobrixPreferences), status: Status::PlannedNewPlumbing, risk: Risk::Low, wire: &[] },
        160 => Capability { id: "on_prefs_changed", title: "Display settings changed", blurb: "One of those settings changed.", access: Access::Read, direction: Direction::Incoming, scope: Scope::Client, group: Some(Permission::RobrixPreferences), status: Status::PlannedMachinery, risk: Risk::Low, wire: &[] },
        161 => Capability { id: "on_theme_changed", title: "Theme changed", blurb: "Scheme or zoom changed (ScriptReapply).", access: Access::Read, direction: Direction::Incoming, scope: Scope::Client, group: Some(Permission::RobrixPreferences), status: Status::PlannedNewPlumbing, risk: Risk::Low, wire: &[] },
        162 => Capability { id: "on_active_room_changed", title: "You switched rooms", blurb: "Which room, thread, or nothing Robrix now shows; latest-only per pass. Reveals browsing, so it prompts.", access: Access::Read, direction: Direction::Incoming, scope: Scope::MultiRoom, group: Some(Permission::RobrixObserve), status: Status::PlannedMachinery, risk: Risk::High, wire: &[] },
        163 => Capability { id: "on_navigation_changed", title: "You switched screens", blurb: "Home, a space, settings, mini apps; latest-only per pass.", access: Access::Read, direction: Direction::Incoming, scope: Scope::Client, group: Some(Permission::RobrixObserve), status: Status::PlannedMachinery, risk: Risk::Medium, wire: &[] },
        164 => Capability { id: "on_launch", title: "Launch context hook", blurb: "Be told how the instance was opened: slash command, timeline card, list, or tab.", access: Access::Read, direction: Direction::Incoming, scope: Scope::Instance, group: None, status: Status::PlannedMachinery, risk: Risk::Low, wire: &[] },
        165 => Capability { id: "apps.manage", title: "Manage installed apps", blurb: "Never: install, uninstall, archive, restore, export or import apps stays a user-only surface.", access: Access::Write, direction: Direction::Outgoing, scope: Scope::Apps, group: None, status: Status::Never, risk: Risk::Critical, wire: &[] },
        166 => Capability { id: "matrix.space.leave", title: "Leave a space", blurb: "Never: leaving a space and its children is irreversible and user-only.", access: Access::Write, direction: Direction::Outgoing, scope: Scope::Space, group: None, status: Status::Never, risk: Risk::Critical, wire: &[] },
        167 => Capability { id: "matrix.session.manage", title: "Log out, verify, manage the account", blurb: "Never: no app logs you out, starts device verification, opens the account portal, or changes the session.", access: Access::Write, direction: Direction::Outgoing, scope: Scope::Account, group: None, status: Status::Never, risk: Risk::Critical, wire: &[] },
        168 => Capability { id: "matrix.rooms.leave", title: "Leave any room by id", blurb: "Never in v1: leaving is destructive and the app cannot see what it would cost you. Only the attached room, host-confirmed, is offered.", access: Access::Write, direction: Direction::Outgoing, scope: Scope::MultiRoom, group: None, status: Status::Never, risk: Risk::Critical, wire: &[] },
        169 => Capability { id: "matrix.room.app.share", title: "Share itself into a room", blurb: "Never app-initiated: an app posting its own bundle into rooms is a worm vector. Stays a user action (/miniapp share, App Info), still behind the write switch.", access: Access::Write, direction: Direction::Outgoing, scope: Scope::MultiRoom, group: None, status: Status::Never, risk: Risk::Critical, wire: &[] },
        170 => Capability { id: "matrix.room.message.redact_others", title: "Delete other people's messages", blurb: "Never: moderation stays with the user even when their power level allows it; also covers the user's own non-app messages.", access: Access::Write, direction: Direction::Outgoing, scope: Scope::Room, group: None, status: Status::Never, risk: Risk::Critical, wire: &[] },
        171 => Capability { id: "matrix.room.power_levels.set", title: "Change power levels or membership state", blurb: "Never: m.room.power_levels, m.room.member, kick and ban are refused by matrix.room.state.send.", access: Access::Write, direction: Direction::Outgoing, scope: Scope::Room, group: None, status: Status::Never, risk: Risk::Critical, wire: &[] },
        172 => Capability { id: "host.composer.get", title: "Read the unsent draft", blurb: "Never: what the user is typing is theirs until they send it.", access: Access::Read, direction: Direction::Outgoing, scope: Scope::Room, group: None, status: Status::Never, risk: Risk::High, wire: &[] },
        173 => Capability { id: "on_composer_send", title: "Rewrite outgoing messages", blurb: "Never: a synchronous hook over the user's own speech is a content-injection vector; host.composer.insert is the visible substitute.", access: Access::ReadWrite, direction: Direction::Incoming, scope: Scope::Room, group: None, status: Status::Never, risk: Risk::Critical, wire: &[] },
        174 => Capability { id: "host.prefs.set", title: "Change Robrix settings", blurb: "Never: no app changes view mode, zoom, read-receipt privacy, or any preference.", access: Access::Write, direction: Direction::Outgoing, scope: Scope::Client, group: None, status: Status::Never, risk: Risk::High, wire: &[] },
        175 => Capability { id: "host.cache.clear", title: "Clear caches or run diagnostics", blurb: "Never: maintenance actions that can stall Robrix stay out of reach.", access: Access::Act, direction: Direction::Outgoing, scope: Scope::Client, group: None, status: Status::Never, risk: Risk::High, wire: &[] },
        176 => Capability { id: "host.ui.screenshot", title: "Screenshot the host", blurb: "Never: it would leak every room and pane on screen; Splash screencapture also breaks render commits (makepad 6cf59e1).", access: Access::Read, direction: Direction::Outgoing, scope: Scope::Client, group: None, status: Status::Never, risk: Risk::Critical, wire: &[] },
        177 => Capability { id: "matrix.to_device.send", title: "To-device messaging", blurb: "Never until there is an E2EE policy for app-visible to-device traffic (covers the on_to_device hook too).", access: Access::Write, direction: Direction::Outgoing, scope: Scope::Account, group: None, status: Status::Never, risk: Risk::Critical, wire: &[] },
        _ => Capability { id: "matrix.account.openid.get", title: "Identity token", blurb: "Never until a per-call consent sheet names the recipient host; an OpenID token proves your identity to a third party.", access: Access::Read, direction: Direction::Outgoing, scope: Scope::Account, group: None, status: Status::Never, risk: Risk::Critical, wire: &[] },
    };
    assert(c.wire@.map_values(|s: &'static str| s@) =~= catalog_view(i as int).wire);
    c
}

/// The first catalog position at or after `i` whose entry satisfies `pred`.
pub open spec fn find_from(pred: spec_fn(CapabilityView) -> bool, i: int) -> Option<int>
    decreases CATALOG_LEN - i,
{
    if i < 0 || i >= CATALOG_LEN {
        None
    } else if pred(catalog_view(i)) {
        Some(i)
    } else {
        find_from(pred, i + 1)
    }
}

/// The first catalog entry satisfying `pred`.
pub open spec fn find_first(pred: spec_fn(CapabilityView) -> bool) -> Option<CapabilityView> {
    match find_from(pred, 0) {
        Some(i) => Some(catalog_view(i)),
        None => None,
    }
}

/// A capability with this id.
pub open spec fn has_id(id: Seq<char>) -> spec_fn(CapabilityView) -> bool {
    |c: CapabilityView| c.id == id
}

/// An outgoing capability carried by this broker service.
pub open spec fn carries_service(service: Seq<char>) -> spec_fn(CapabilityView) -> bool {
    |c: CapabilityView| c.direction == Direction::Outgoing && c.wire.contains(service)
}

/// An incoming capability carried by this hook.
pub open spec fn carries_hook(hook: Seq<char>) -> spec_fn(CapabilityView) -> bool {
    |c: CapabilityView| c.direction == Direction::Incoming && c.wire.contains(hook)
}

/// A capability gated by this group.
pub open spec fn gated_by(perm: Permission) -> spec_fn(CapabilityView) -> bool {
    |c: CapabilityView| c.group == Some(perm)
}


/// Whether a wire list names `w`.
fn wire_contains(wire: &'static [&'static str], w: &[char]) -> (r: bool)
    ensures
        r == wire@.map_values(|s: &'static str| s@).contains(w@),
{
    let ghost ws = wire@.map_values(|s: &'static str| s@);
    let mut i: usize = 0;
    while i < wire.len()
        invariant
            i <= wire@.len(),
            ws == wire@.map_values(|s: &'static str| s@),
            forall|j: int| 0 <= j < i ==> ws[j] != w@,
        decreases wire@.len() - i,
    {
        let item = chars_of(wire[i]);
        if chars_eq(item.as_slice(), w) {
            assert(ws[i as int] == w@);
            return true;
        }
        i = i + 1;
    }
    proof {
        if ws.contains(w@) {
            let j = choose|j: int| 0 <= j < ws.len() && ws[j] == w@;
            assert(ws[j] != w@);
        }
    }
    false
}

/// The capability with this id.
pub fn by_id(id: &str) -> (r: Option<Capability>)
    ensures
        match r {
            Some(c) => find_first(has_id(id@)) == Some(c@),
            None => find_first(has_id(id@)) is None,
        },
{
    let target = chars_of(id);
    let mut i: usize = 0;
    while i < CATALOG_LEN
        invariant
            i <= CATALOG_LEN,
            target@ == id@,
            find_from(has_id(id@), 0) == find_from(has_id(id@), i as int),
        decreases CATALOG_LEN - i,
    {
        let c = catalog_entry(i);
        let cid = chars_of(c.id);
        if chars_eq(cid.as_slice(), target.as_slice()) {
            return Some(c);
        }
        i = i + 1;
    }
    None
}

/// The capability a broker service carries, if it is one.
pub fn for_service(service: &str) -> (r: Option<Capability>)
    ensures
        match r {
            Some(c) => find_first(carries_service(service@)) == Some(c@),
            None => find_first(carries_service(service@)) is None,
        },
{
    let target = chars_of(service);
    let mut i: usize = 0;
    while i < CATALOG_LEN
        invariant
            i <= CATALOG_LEN,
            target@ == service@,
            find_from(carries_service(service@), 0) == find_from(carries_service(service@), i as int),
        decreases CATALOG_LEN - i,
    {
        let c = catalog_entry(i);
        let outgoing = match c.direction {
            Direction::Outgoing => true,
            Direction::Incoming => false,
        };
        if outgoing && wire_contains(c.wire, target.as_slice()) {
            return Some(c);
        }
        i = i + 1;
    }
    None
}

/// The capability an incoming hook carries, if it is one.
pub fn for_hook(hook: &str) -> (r: Option<Capability>)
    ensures
        match r {
            Some(c) => find_first(carries_hook(hook@)) == Some(c@),
            None => find_first(carries_hook(hook@)) is None,
        },
{
    let target = chars_of(hook);
    let mut i: usize = 0;
    while i < CATALOG_LEN
        invariant
            i <= CATALOG_LEN,
            target@ == hook@,
            find_from(carries_hook(hook@), 0) == find_from(carries_hook(hook@), i as int),
        decreases CATALOG_LEN - i,
    {
        let c = catalog_entry(i);
        let incoming = match c.direction {
            Direction::Outgoing => false,
            Direction::Incoming => true,
        };
        if incoming && wire_contains(c.wire, target.as_slice()) {
            return Some(c);
        }
        i = i + 1;
    }
    None
}

/// The views of a run of capabilities.
pub open spec fn views(v: Seq<Capability>) -> Seq<CapabilityView> {
    v.map_values(|c: Capability| c@)
}

/// Every capability, in catalog order.
pub fn all_capabilities() -> (v: Vec<Capability>)
    ensures
        views(v@) == catalog(),
{
    let mut v: Vec<Capability> = Vec::new();
    let mut i: usize = 0;
    while i < CATALOG_LEN
        invariant
            i <= CATALOG_LEN,
            views(v@) == catalog().take(i as int),
        decreases CATALOG_LEN - i,
    {
        let c = catalog_entry(i);
        let ghost old_v = v@;
        v.push(c);
        assert(views(v@) =~= views(old_v).push(c@));
        assert(catalog().take(i + 1) =~= catalog().take(i as int).push(catalog_view(i as int)));
        i = i + 1;
    }
    assert(catalog().take(CATALOG_LEN as int) =~= catalog());
    v
}

/// The capabilities gated by one permission group, in catalog order.
pub fn in_group(perm: Permission) -> (v: Vec<Capability>)
    ensures
        views(v@) == catalog().filter(gated_by(perm)),
{
    let mut v: Vec<Capability> = Vec::new();
    let mut i: usize = 0;
    while i < CATALOG_LEN
        invariant
            i <= CATALOG_LEN,
            views(v@) == catalog().take(i as int).filter(gated_by(perm)),
        decreases CATALOG_LEN - i,
    {
        let c = catalog_entry(i);
        let ghost before = catalog().take(i as int);
        let ghost old_v = v@;
        let ghost next = catalog().take(i + 1);
        assert(next.drop_last() =~= before);
        assert(next.last() == c@);
        let in_perm = match c.group {
            Some(g) => g == perm,
            None => false,
        };
        if in_perm {
            v.push(c);
            assert(views(v@) =~= views(old_v).push(c@));
        }
        assert(views(v@) == next.filter(gated_by(perm))) by {
            reveal(Seq::filter);
        }
        i = i + 1;
    }
    assert(catalog().take(CATALOG_LEN as int) =~= catalog());
    v
}


/// The catalog position of the first capability of each group.
pub open spec fn first_in_group(p: Permission) -> int {
    match p {
        Permission::Network => 23,
        Permission::Location => 24,
        Permission::Notifications => 26,
        Permission::ClipboardRead => 30,
        Permission::Ipc => 31,
        Permission::MatrixRoomRead => 36,
        Permission::MatrixRoomSend => 47,
        Permission::ClipboardWrite => 54,
        Permission::OpenUrl => 55,
        Permission::Files => 56,
        Permission::Share => 59,
        Permission::Auth => 61,
        Permission::MatrixRoomInfo => 62,
        Permission::MatrixProfile => 70,
        Permission::DeviceInfo => 72,
        Permission::Camera => 76,
        Permission::Microphone => 77,
        Permission::MatrixAccountRead => 78,
        Permission::MatrixAccountWrite => 83,
        Permission::MatrixUsers => 87,
        Permission::MatrixRoomWatch => 91,
        Permission::MatrixRoomInteract => 100,
        Permission::MatrixRoomAppData => 103,
        Permission::MatrixRoomManage => 106,
        Permission::MatrixRoomInvite => 113,
        Permission::MatrixMedia => 114,
        Permission::MatrixRoomsList => 121,
        Permission::MatrixRoomsRead => 128,
        Permission::MatrixRoomsSend => 131,
        Permission::MatrixMembership => 132,
        Permission::MatrixSpaces => 137,
        Permission::RobrixNavigation => 141,
        Permission::RobrixComposer => 149,
        Permission::RobrixUi => 151,
        Permission::RobrixPreferences => 158,
        Permission::RobrixObserve => 162,
    }
}

/// Every group gates at least one capability of the catalog, so no group is
/// a permission that grants nothing.
pub proof fn law_every_group_has_capabilities(p: Permission)
    ensures
        catalog().filter(gated_by(p)).len() > 0,
{
    broadcast use vstd::seq_lib::group_filter_ensures;

    let i = first_in_group(p);
    assert(0 <= i < CATALOG_LEN);
    assert(catalog_view(i).group == Some(p));
    assert(catalog()[i] == catalog_view(i));
    assert(gated_by(p)(catalog()[i]));
    assert(catalog().filter(gated_by(p)).contains(catalog()[i]));
}

} // verus!
