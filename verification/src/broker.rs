//! The decisions of the host-service broker, the host half of the
//! `host.request(...)` bridge: which app a request comes from, whether the
//! permission policy lets it through, and what the host has to do to answer
//! it. Doing that work (dialogs, the clipboard, the Matrix SDK) and sending
//! the answer back into the isolate is the host's part.

use vstd::prelude::*;

use crate::manifest::{declares, is_perm_id, lemma_dedup_filter, ManifestView, MiniAppManifest};
use crate::permission::{perm_id, Permission};
use crate::maps::increasing;
use crate::registry::{find_id, split_instance_tag, split_tag, AppRegistry};
use crate::store::{effective_at, row_ids, state_of, Effective, GrantState, PermissionStore, StoreView};
use crate::text::{
    contains_text, owned, push_chars, str_eq, take_chars, text_lt, texts, trim, trim_bounds,
};

verus! {

/// Where a service answer must go: one isolate, one request.
#[derive(Clone, Copy, Debug, PartialEq, Eq, Structural)]
pub struct Reply {
    pub heap_key: usize,
    pub req_id: u64,
}

/// A matrix.* service call, parsed and validated.
#[derive(Debug)]
pub enum MatrixServiceCall {
    /// `{room_id, room_name, topic, member_count}` for the attached room.
    RoomInfo,
    /// The latest `limit` text messages, oldest first (`limit` in 1..=30).
    ReadMessages { limit: u32 },
    /// Send a plain text message to the attached room as the user.
    SendMessage { body: String },
    /// `{user_id, display_name}`: the user's own identity.
    Profile,
    /// `{count, members: [{name, user_id, power}]}` for the attached room
    /// (`limit` in 1..=200).
    Members { limit: u32 },
    /// `{pinned: [{sender, body}]}`: the room's pinned messages.
    PinnedEvents,
    /// `{threads: [{sender, body}]}`: thread roots, newest first (`limit` in
    /// 1..=50).
    Threads { limit: u32 },
}

/// The mathematical content of a [`MatrixServiceCall`].
pub enum MatrixCallView {
    RoomInfo,
    ReadMessages { limit: u32 },
    SendMessage { body: Seq<char> },
    Profile,
    Members { limit: u32 },
    PinnedEvents,
    Threads { limit: u32 },
}

impl View for MatrixServiceCall {
    type V = MatrixCallView;

    open spec fn view(&self) -> MatrixCallView {
        match self {
            MatrixServiceCall::RoomInfo => MatrixCallView::RoomInfo,
            MatrixServiceCall::ReadMessages { limit } => MatrixCallView::ReadMessages { limit: *limit },
            MatrixServiceCall::SendMessage { body } => MatrixCallView::SendMessage { body: body@ },
            MatrixServiceCall::Profile => MatrixCallView::Profile,
            MatrixServiceCall::Members { limit } => MatrixCallView::Members { limit: *limit },
            MatrixServiceCall::PinnedEvents => MatrixCallView::PinnedEvents,
            MatrixServiceCall::Threads { limit } => MatrixCallView::Threads { limit: *limit },
        }
    }
}

/// The group each service needs: `None` for the free ones and for anything
/// unknown (a same-app `ipc.send` skips the check too).
pub open spec fn service_perm(service: Seq<char>) -> Option<Permission> {
    if service == "location.get"@ {
        Some(Permission::Location)
    } else if service == "clipboard.read"@ {
        Some(Permission::ClipboardRead)
    } else if service == "clipboard.write"@ {
        Some(Permission::ClipboardWrite)
    } else if service == "url.open"@ {
        Some(Permission::OpenUrl)
    } else if service == "share"@ {
        Some(Permission::Share)
    } else if service == "notify.post"@ || service == "notify.clear"@ {
        Some(Permission::Notifications)
    } else if service == "files.pick"@ || service == "files.save"@ {
        Some(Permission::Files)
    } else if service == "auth.check"@ {
        Some(Permission::Auth)
    } else if service == "ipc.send"@ {
        Some(Permission::Ipc)
    } else if service == "matrix.room_info"@ {
        Some(Permission::MatrixRoomInfo)
    } else if service == "matrix.read_messages"@ || service == "matrix.room_members"@ || service
        == "matrix.pinned_events"@ || service == "matrix.room_threads"@ {
        Some(Permission::MatrixRoomRead)
    } else if service == "matrix.send_message"@ {
        Some(Permission::MatrixRoomSend)
    } else if service == "matrix.profile"@ {
        Some(Permission::MatrixProfile)
    } else {
        None
    }
}

/// The group a service needs.
pub fn service_permission(service: &str) -> (r: Option<Permission>)
    ensures
        r == service_perm(service@),
{
    if str_eq(service, "location.get") {
        Some(Permission::Location)
    } else if str_eq(service, "clipboard.read") {
        Some(Permission::ClipboardRead)
    } else if str_eq(service, "clipboard.write") {
        Some(Permission::ClipboardWrite)
    } else if str_eq(service, "url.open") {
        Some(Permission::OpenUrl)
    } else if str_eq(service, "share") {
        Some(Permission::Share)
    } else if str_eq(service, "notify.post") || str_eq(service, "notify.clear") {
        Some(Permission::Notifications)
    } else if str_eq(service, "files.pick") || str_eq(service, "files.save") {
        Some(Permission::Files)
    } else if str_eq(service, "auth.check") {
        Some(Permission::Auth)
    } else if str_eq(service, "ipc.send") {
        Some(Permission::Ipc)
    } else if str_eq(service, "matrix.room_info") {
        Some(Permission::MatrixRoomInfo)
    } else if str_eq(service, "matrix.read_messages") || str_eq(service, "matrix.room_members")
        || str_eq(service, "matrix.pinned_events") || str_eq(service, "matrix.room_threads") {
        Some(Permission::MatrixRoomRead)
    } else if str_eq(service, "matrix.send_message") {
        Some(Permission::MatrixRoomSend)
    } else if str_eq(service, "matrix.profile") {
        Some(Permission::MatrixProfile)
    } else {
        None
    }
}

/// The text of an answer: `Ok` carries the data JSON, `Err` the error a
/// user may see.
pub open spec fn answer_view(r: Result<String, String>) -> Result<Seq<char>, Seq<char>> {
    match r {
        Ok(s) => Ok(s@),
        Err(e) => Err(e@),
    }
}

/// The answer to a request whose group the user denied:
/// `permissions.request` gets its documented `{granted: false}`, anything
/// else the error naming the group.
pub open spec fn denied_answer(service: Seq<char>) -> Result<Seq<char>, Seq<char>> {
    if service == "permissions.request"@ {
        Ok("{\"granted\": false}"@)
    } else {
        match service_perm(service) {
            Some(p) => Err("permission denied: "@ + perm_id(p)),
            None => Err("permission denied"@),
        }
    }
}

/// `prefix` followed by `tail`.
pub fn concat(prefix: &str, tail: &str) -> (r: String)
    ensures
        r@ == prefix@ + tail@,
{
    let mut s = owned(prefix);
    crate::text::push_text(&mut s, tail);
    s
}

/// The answer to a parked request after the user denied its group.
pub fn respond_denied(service: &str) -> (r: Result<String, String>)
    ensures
        answer_view(r) == denied_answer(service@),
{
    if str_eq(service, "permissions.request") {
        return Ok(owned("{\"granted\": false}"));
    }
    match service_permission(service) {
        Some(perm) => Err(concat("permission denied: ", perm.as_str())),
        None => Err(owned("permission denied")),
    }
}

/// Location requests waiting for one position fix: every waiter is
/// answered by the same fix, and only the first waiter starts one.
#[derive(Debug)]
pub struct LocationQueue {
    waiting: Vec<Reply>,
}

impl LocationQueue {
    /// The replies waiting, oldest first.
    pub closed spec fn view(&self) -> Seq<Reply> {
        self.waiting@
    }

    pub fn new() -> (q: LocationQueue)
        ensures
            q.view() == Seq::<Reply>::empty(),
    {
        LocationQueue { waiting: Vec::new() }
    }

    /// Adds a waiter; says whether a fix has to be started (nobody was
    /// waiting before).
    pub fn push(&mut self, reply: Reply) -> (start: bool)
        ensures
            final(self).view() == old(self).view().push(reply),
            start == (old(self).view().len() == 0),
    {
        let start = self.waiting.len() == 0;
        self.waiting.push(reply);
        start
    }

    /// Hands out every waiter, oldest first, leaving none.
    pub fn take_all(&mut self) -> (r: Vec<Reply>)
        ensures
            r@ == old(self).view(),
            final(self).view() == Seq::<Reply>::empty(),
    {
        let mut out: Vec<Reply> = Vec::new();
        std::mem::swap(&mut out, &mut self.waiting);
        out
    }

    pub fn is_empty(&self) -> (r: bool)
        ensures
            r == (self.view().len() == 0),
    {
        self.waiting.len() == 0
    }
}


/// The decimal digits of `n`.
pub open spec fn decimal_text(n: nat) -> Seq<char>
    decreases n,
{
    if n < 10 {
        seq![digit_char(n)]
    } else {
        decimal_text(n / 10) + seq![digit_char(n % 10)]
    }
}

/// The character of a decimal digit.
pub open spec fn digit_char(d: nat) -> char {
    if d == 0 {
        '0'
    } else if d == 1 {
        '1'
    } else if d == 2 {
        '2'
    } else if d == 3 {
        '3'
    } else if d == 4 {
        '4'
    } else if d == 5 {
        '5'
    } else if d == 6 {
        '6'
    } else if d == 7 {
        '7'
    } else if d == 8 {
        '8'
    } else {
        '9'
    }
}

fn digit_of(d: u64) -> (c: char)
    requires
        d < 10,
    ensures
        c == digit_char(d as nat),
{
    match d {
        0 => '0',
        1 => '1',
        2 => '2',
        3 => '3',
        4 => '4',
        5 => '5',
        6 => '6',
        7 => '7',
        8 => '8',
        _ => '9',
    }
}

/// `n` written in decimal, as `format!("{n}")` does.
pub fn decimal(n: u64) -> (s: String)
    ensures
        s@ == decimal_text(n as nat),
    decreases n,
{
    if n < 10 {
        let mut s = String::new();
        s.push(digit_of(n));
        assert(s@ =~= seq![digit_char(n as nat)]);
        s
    } else {
        let mut s = decimal(n / 10);
        s.push(digit_of(n % 10));
        s
    }
}

/// How many bytes a character takes in UTF-8.
pub open spec fn utf8_width(c: char) -> nat {
    let u = c as int;
    if u < 0x80 {
        1
    } else if u < 0x800 {
        2
    } else if u < 0x10000 {
        3
    } else {
        4
    }
}

/// How many bytes a text takes in UTF-8 (`str::len`).
pub open spec fn utf8_len(s: Seq<char>) -> nat
    decreases s.len(),
{
    if s.len() == 0 {
        0
    } else {
        utf8_len(s.drop_last()) + utf8_width(s.last())
    }
}

proof fn lemma_utf8_len_mono(s: Seq<char>, i: int, j: int)
    requires
        0 <= i <= j <= s.len(),
    ensures
        utf8_len(s.take(i)) <= utf8_len(s.take(j)),
    decreases j - i,
{
    if i < j {
        lemma_utf8_len_mono(s, i, j - 1);
        assert(s.take(j).drop_last() =~= s.take(j - 1));
    }
}

fn utf8_width_of(c: char) -> (w: u64)
    ensures
        w == utf8_width(c),
{
    let u = c as u32;
    if u < 0x80 {
        1
    } else if u < 0x800 {
        2
    } else if u < 0x10000 {
        3
    } else {
        4
    }
}

/// Whether a text takes more than `limit` bytes in UTF-8.
pub fn utf8_longer_than(s: &str, limit: u64) -> (r: bool)
    requires
        limit < u64::MAX - 4,
    ensures
        r == (utf8_len(s@) > limit),
{
    let v = crate::text::chars_of(s);
    let mut total: u64 = 0;
    let mut i: usize = 0;
    while i < v.len()
        invariant
            i <= v@.len(),
            v@ == s@,
            limit < u64::MAX - 4,
            total == utf8_len(s@.take(i as int)),
            total <= limit,
        decreases v@.len() - i,
    {
        assert(s@.take(i + 1).drop_last() =~= s@.take(i as int));
        total = total + utf8_width_of(v[i]);
        i = i + 1;
        if total > limit {
            proof {
                lemma_utf8_len_mono(s@, i as int, s@.len() as int);
                assert(s@.take(s@.len() as int) =~= s@);
            }
            return true;
        }
    }
    assert(s@.take(v@.len() as int) =~= s@);
    false
}

/// A link an app may open: `http://`, `https://` or `mailto:`, at most
/// 2048 bytes. Other schemes (`file:` and friends) reach places a sandboxed
/// app must not send the user.
pub open spec fn url_allowed(url: Seq<char>) -> bool {
    ("http://"@.is_prefix_of(url) || "https://"@.is_prefix_of(url) || "mailto:"@.is_prefix_of(url))
        && utf8_len(url) <= 2048
}

fn starts_with(s: &str, p: &str) -> (r: bool)
    ensures
        r == p@.is_prefix_of(s@),
{
    let v = crate::text::chars_of(s);
    assert(v@.subrange(0, v@.len() as int) =~= s@);
    crate::text::starts_with_at(v.as_slice(), 0, v.len(), p)
}

/// Whether a link may be opened.
pub fn url_is_allowed(url: &str) -> (r: bool)
    ensures
        r == url_allowed(url@),
{
    let scheme = starts_with(url, "http://") || starts_with(url, "https://") || starts_with(url, "mailto:");
    scheme && !utf8_longer_than(url, 2048)
}

/// The raw text of a popup: `title: body`, one of them alone, or with
/// neither a count of notifications (at most 999) or a generic line.
pub open spec fn notify_raw(title: Seq<char>, body: Seq<char>, count: Option<u64>) -> Seq<char> {
    let t = trim(title);
    let b = trim(body);
    if t.len() > 0 && b.len() > 0 {
        t + ": "@ + b
    } else if t.len() > 0 {
        t
    } else if b.len() > 0 {
        b
    } else {
        match count {
            Some(n) => decimal_text(if n < 999 { n as nat } else { 999 }) + " notifications"@,
            None => "New notification"@,
        }
    }
}

/// Line breaks flattened to spaces.
pub open spec fn flatten_lines(s: Seq<char>) -> Seq<char> {
    s.map_values(|c: char| if c == '\n' || c == '\r' { ' ' } else { c })
}

/// A popup's text as shown in host chrome: flattened to one line and at
/// most 200 characters. Missing fields count as empty.
pub open spec fn notify_summary(title: Option<Seq<char>>, body: Option<Seq<char>>, count: Option<u64>) -> Seq<char> {
    let t = match title {
        Some(x) => x,
        None => Seq::empty(),
    };
    let b = match body {
        Some(x) => x,
        None => Seq::empty(),
    };
    take_chars(flatten_lines(notify_raw(t, b, count)), 200)
}

/// The popup text for `notify.post`.
pub fn notify_text(title: Option<&str>, body: Option<&str>, count: Option<u64>) -> (s: String)
    ensures
        s@ == notify_summary(
            match title {
                Some(x) => Some(x@),
                None => None,
            },
            match body {
                Some(x) => Some(x@),
                None => None,
            },
            count,
        ),
{
    let tv = match title {
        Some(x) => crate::text::chars_of(x),
        None => Vec::new(),
    };
    let bv = match body {
        Some(x) => crate::text::chars_of(x),
        None => Vec::new(),
    };
    let (t0, t1) = trim_bounds(tv.as_slice(), 0, tv.len());
    let (b0, b1) = trim_bounds(bv.as_slice(), 0, bv.len());
    assert(tv@.subrange(0, tv@.len() as int) =~= tv@);
    assert(bv@.subrange(0, bv@.len() as int) =~= bv@);
    let mut raw = String::new();
    if t0 < t1 && b0 < b1 {
        push_chars(&mut raw, tv.as_slice(), t0, t1);
        crate::text::push_text(&mut raw, ": ");
        push_chars(&mut raw, bv.as_slice(), b0, b1);
    } else if t0 < t1 {
        push_chars(&mut raw, tv.as_slice(), t0, t1);
    } else if b0 < b1 {
        push_chars(&mut raw, bv.as_slice(), b0, b1);
    } else {
        match count {
            Some(n) => {
                let k = if n < 999 {
                    n
                } else {
                    999
                };
                raw = decimal(k);
                crate::text::push_text(&mut raw, " notifications");
            },
            None => {
                raw = owned("New notification");
            },
        }
    }
    let ghost t = match title {
        Some(x) => x@,
        None => Seq::<char>::empty(),
    };
    let ghost b = match body {
        Some(x) => x@,
        None => Seq::<char>::empty(),
    };
    assert(tv@ == t);
    assert(bv@ == b);
    assert(raw@ =~= notify_raw(t, b, count));
    let rv = crate::text::chars_of(raw.as_str());
    let n = if rv.len() < 200 {
        rv.len()
    } else {
        200
    };
    let mut out = String::new();
    let mut i: usize = 0;
    while i < n
        invariant
            i <= n <= rv@.len(),
            n == (if rv@.len() < 200 { rv@.len() } else { 200 }),
            out@ == flatten_lines(rv@).take(i as int),
        decreases n - i,
    {
        let c = rv[i];
        let d = if c == '\n' || c == '\r' {
            ' '
        } else {
            c
        };
        out.push(d);
        i = i + 1;
        assert(out@ =~= flatten_lines(rv@).take(i as int));
    }
    assert(out@ =~= take_chars(flatten_lines(raw@), 200));
    out
}


/// A lower-case hex digit.
pub open spec fn json_hex_digit(n: int) -> char {
    seq!['0', '1', '2', '3', '4', '5', '6', '7', '8', '9', 'a', 'b', 'c', 'd', 'e', 'f'][n]
}

/// How one character stands inside a JSON string: `"` and `\` behind a
/// backslash; backspace, tab, line feed, form feed and carriage return as
/// `\b`, `\t`, `\n`, `\f`, `\r`; every other character below 0x20 as
/// `\u00` and two lower-case hex digits; every other character as itself.
pub open spec fn json_escape(c: char) -> Seq<char> {
    let n = c as u32;
    if c == '"' {
        seq!['\\', '"']
    } else if c == '\\' {
        seq!['\\', '\\']
    } else if n == 0x08 {
        seq!['\\', 'b']
    } else if n == 0x09 {
        seq!['\\', 't']
    } else if n == 0x0A {
        seq!['\\', 'n']
    } else if n == 0x0C {
        seq!['\\', 'f']
    } else if n == 0x0D {
        seq!['\\', 'r']
    } else if n < 0x20 {
        seq!['\\', 'u', '0', '0', json_hex_digit(n as int / 16), json_hex_digit(n as int % 16)]
    } else {
        seq![c]
    }
}

/// The characters of `s`, each as it stands inside a JSON string.
pub open spec fn json_escaped(s: Seq<char>) -> Seq<char>
    decreases s.len(),
{
    if s.len() == 0 {
        Seq::empty()
    } else {
        json_escaped(s.drop_last()) + json_escape(s.last())
    }
}

/// The JSON string holding `s`: its escaped characters between quotes.
pub open spec fn json_quoted(s: Seq<char>) -> Seq<char> {
    seq!['"'] + json_escaped(s) + seq!['"']
}

/// A value of a member of a JSON object that the broker writes.
pub enum JsonScalar {
    Str(String),
    Bool(bool),
}

/// The mathematical content of a [`JsonScalar`].
pub enum JsonScalarView {
    Str(Seq<char>),
    Bool(bool),
}

impl View for JsonScalar {
    type V = JsonScalarView;

    open spec fn view(&self) -> JsonScalarView {
        match self {
            JsonScalar::Str(t) => JsonScalarView::Str(t@),
            JsonScalar::Bool(b) => JsonScalarView::Bool(*b),
        }
    }
}

/// How a member's value is written: a JSON string, or `true` / `false`.
pub open spec fn json_scalar_text(v: JsonScalarView) -> Seq<char> {
    match v {
        JsonScalarView::Str(t) => json_quoted(t),
        JsonScalarView::Bool(b) => if b {
            "true"@
        } else {
            "false"@
        },
    }
}

/// One `"key":value` member of a JSON object.
pub open spec fn json_member(k: Seq<char>, v: JsonScalarView) -> Seq<char> {
    json_quoted(k) + seq![':'] + json_scalar_text(v)
}

/// The members of a JSON object, comma-separated.
pub open spec fn json_members(ps: Seq<(Seq<char>, JsonScalarView)>) -> Seq<char>
    decreases ps.len(),
{
    if ps.len() == 0 {
        Seq::empty()
    } else if ps.len() == 1 {
        json_member(ps[0].0, ps[0].1)
    } else {
        json_members(ps.drop_last()) + seq![','] + json_member(ps.last().0, ps.last().1)
    }
}

/// A JSON object written compactly, its members in the given order.
pub open spec fn json_object(ps: Seq<(Seq<char>, JsonScalarView)>) -> Seq<char> {
    seq!['{'] + json_members(ps) + seq!['}']
}

/// The keys of a run of members.
pub open spec fn member_keys(ps: Seq<(Seq<char>, JsonScalarView)>) -> Seq<Seq<char>> {
    ps.map_values(|e: (Seq<char>, JsonScalarView)| e.0)
}

/// Keys in strictly increasing order.
pub open spec fn keys_increasing(ps: Seq<(Seq<char>, JsonScalarView)>) -> bool {
    forall|i: int, j: int| 0 <= i < j < ps.len() ==> text_lt(#[trigger] ps[i].0, #[trigger] ps[j].0)
}

/// The view of a run of members.
pub open spec fn member_views(v: Seq<(String, JsonScalar)>) -> Seq<(Seq<char>, JsonScalarView)> {
    v.map_values(|e: (String, JsonScalar)| (e.0@, e.1@))
}

/// `text` is a JSON object holding exactly the members `ms`, written with
/// their keys in increasing order.
pub open spec fn written_object(ms: Seq<(Seq<char>, JsonScalarView)>, text: Seq<char>) -> bool {
    exists|ps: Seq<(Seq<char>, JsonScalarView)>|
        keys_increasing(ps) && ps.to_set() == ms.to_set() && text == json_object(ps)
}

/// Builds a `serde_json::Map` from the members (strings as
/// `Value::String`, flags as `Value::Bool`) and writes `Value::Object` of it
/// with `to_string`, serde_json's compact writer. The map is serde_json's
/// default one, a `BTreeMap` (its `preserve_order` feature is not enabled
/// here), so it keeps its keys in `String` order: byte order of UTF-8, which
/// is code-point order, [`text_lt`]. With no key twice, the result is the
/// members in that order, each key and string escaped as [`json_quoted`]
/// says.
#[verifier::external_body]
fn json_object_text(members: Vec<(String, JsonScalar)>) -> (r: String)
    requires
        member_keys(member_views(members@)).no_duplicates(),
    ensures
        written_object(member_views(members@), r@),
{
    let mut map = serde_json::Map::new();
    for (k, v) in members {
        let value = match v {
            JsonScalar::Str(t) => serde_json::Value::String(t),
            JsonScalar::Bool(b) => serde_json::Value::Bool(b),
        };
        map.insert(k, value);
    }
    serde_json::Value::Object(map).to_string()
}

/// Two runs of members with keys in increasing order and the same members
/// are the same run.
pub proof fn lemma_members_unique(a: Seq<(Seq<char>, JsonScalarView)>, b: Seq<(Seq<char>, JsonScalarView)>)
    requires
        keys_increasing(a),
        keys_increasing(b),
        a.to_set() == b.to_set(),
    ensures
        a == b,
{
    let ka = member_keys(a);
    let kb = member_keys(b);
    assert(increasing(ka)) by {
        assert forall|i: int, j: int| 0 <= i < j < ka.len() implies text_lt(#[trigger] ka[i], #[trigger] ka[j]) by {
            assert(text_lt(a[i].0, a[j].0));
        }
    }
    assert(increasing(kb)) by {
        assert forall|i: int, j: int| 0 <= i < j < kb.len() implies text_lt(#[trigger] kb[i], #[trigger] kb[j]) by {
            assert(text_lt(b[i].0, b[j].0));
        }
    }
    assert forall|k: Seq<char>| ka.contains(k) <==> kb.contains(k) by {
        if ka.contains(k) {
            let i = choose|i: int| 0 <= i < ka.len() && ka[i] == k;
            assert(a.to_set().contains(a[i]));
            assert(b.contains(a[i]));
            let j = choose|j: int| 0 <= j < b.len() && b[j] == a[i];
            assert(kb[j] == k);
        }
        if kb.contains(k) {
            let i = choose|i: int| 0 <= i < kb.len() && kb[i] == k;
            assert(b.to_set().contains(b[i]));
            assert(a.contains(b[i]));
            let j = choose|j: int| 0 <= j < a.len() && a[j] == b[i];
            assert(ka[j] == k);
        }
    }
    lemma_increasing_unique(ka, kb);
    assert(a.len() == b.len()) by {
        assert(ka.len() == kb.len());
    }
    assert forall|i: int| 0 <= i < a.len() implies a[i] == b[i] by {
        assert(a.to_set().contains(a[i]));
        assert(b.contains(a[i]));
        let j = choose|j: int| 0 <= j < b.len() && b[j] == a[i];
        assert(kb[j] == ka[i]);
        assert(ka[i] == kb[i]);
        if j < i {
            assert(text_lt(b[j].0, b[i].0));
            crate::text::lemma_text_lt_irreflexive(b[i].0);
        } else if j > i {
            assert(text_lt(b[i].0, b[j].0));
            crate::text::lemma_text_lt_irreflexive(b[i].0);
        }
    }
    assert(a =~= b);
}

/// The members of the `env` answer, in key order.
pub open spec fn env_members(app_id: Seq<char>, room_attached: bool) -> Seq<(Seq<char>, JsonScalarView)> {
    seq![("app_id"@, JsonScalarView::Str(app_id)), ("room_attached"@, JsonScalarView::Bool(room_attached))]
}

/// The answer to `env`: the app's id and whether this instance is attached
/// to a room, as a JSON object with its keys in order.
pub open spec fn env_json(app_id: Seq<char>, room_attached: bool) -> Seq<char> {
    json_object(env_members(app_id, room_attached))
}

/// The answer to `env`.
pub fn env_answer(app_id: &str, room_attached: bool) -> (r: String)
    ensures
        r@ == env_json(app_id@, room_attached),
{
    let mut members: Vec<(String, JsonScalar)> = Vec::new();
    members.push((owned("app_id"), JsonScalar::Str(owned(app_id))));
    members.push((owned("room_attached"), JsonScalar::Bool(room_attached)));
    let ghost want = env_members(app_id@, room_attached);
    proof {
        reveal_strlit("app_id");
        reveal_strlit("room_attached");
        assert(member_views(members@) =~= want);
        assert(text_lt("app_id"@, "room_attached"@));
        assert(keys_increasing(want));
        assert(member_keys(want) =~= seq!["app_id"@, "room_attached"@]);
        assert("app_id"@ != "room_attached"@) by {
            assert("app_id"@[0] != "room_attached"@[0]);
        }
    }
    let r = json_object_text(members);
    proof {
        let ps = choose|ps: Seq<(Seq<char>, JsonScalarView)>|
            keys_increasing(ps) && ps.to_set() == want.to_set() && r@ == json_object(ps);
        lemma_members_unique(ps, want);
    }
    r
}

/// How `permissions.query` names what a group nets out to.
pub open spec fn state_word(e: Effective) -> Seq<char> {
    match e {
        Effective::Granted => "granted"@,
        Effective::Denied => "denied"@,
        _ => "ask"@,
    }
}

fn state_word_of(e: Effective) -> (w: &'static str)
    ensures
        w@ == state_word(e),
{
    match e {
        Effective::Granted => "granted",
        Effective::Denied => "denied",
        _ => "ask",
    }
}

/// The members of the `permissions.query` answer: each known group the app
/// declares, once, in key order, with what it nets out to at `now`.
pub open spec fn query_members(s: StoreView, m: ManifestView, now: u64, ps: Seq<(Seq<char>, JsonScalarView)>) -> bool {
    &&& keys_increasing(ps)
    &&& forall|k: Seq<char>| #[trigger] member_keys(ps).contains(k) <==> (
        m.permissions.contains(k) && is_perm_id(k))
    &&& forall|i: int|
        0 <= i < ps.len() ==> exists|p: Permission|
            perm_id(p) == (#[trigger] ps[i]).0 && ps[i].1 == JsonScalarView::Str(state_word(effective_at(s, m, p, now)))
}

/// The answer to `permissions.query` at `now`.
pub fn permissions_query_answer(store: &PermissionStore, manifest: &MiniAppManifest, now: u64) -> (r: String)
    ensures
        exists|ps: Seq<(Seq<char>, JsonScalarView)>| query_members(store@, manifest@, now, ps) && r@ == json_object(ps),
{
    let rows = store.declared_states(manifest);
    let ghost ids = row_ids(rows@);
    proof {
        lemma_dedup_filter(manifest@.permissions, |x: Seq<char>| is_perm_id(x));
    }
    let mut members: Vec<(String, JsonScalar)> = Vec::new();
    let mut i: usize = 0;
    while i < rows.len()
        invariant
            i <= rows@.len(),
            ids == row_ids(rows@),
            members@.len() == i,
            forall|q: int|
                0 <= q < i ==> #[trigger] member_views(members@)[q] == (
                    perm_id(rows@[q].0),
                    JsonScalarView::Str(state_word(effective_at(store@, manifest@, rows@[q].0, now))),
                ),
        decreases rows@.len() - i,
    {
        let perm = rows[i].0;
        let word = state_word_of(store.effective_at(manifest, perm, now));
        let ghost before = member_views(members@);
        members.push((owned(perm.as_str()), JsonScalar::Str(owned(word))));
        proof {
            assert(member_views(members@) =~= before.push(
                (perm_id(perm), JsonScalarView::Str(state_word(effective_at(store@, manifest@, perm, now)))),
            ));
        }
        i = i + 1;
    }
    let ghost views = member_views(members@);
    proof {
        assert(member_keys(views) =~= ids);
    }
    let r = json_object_text(members);
    proof {
        let ps = choose|ps: Seq<(Seq<char>, JsonScalarView)>|
            keys_increasing(ps) && ps.to_set() == views.to_set() && r@ == json_object(ps);
        assert forall|k: Seq<char>| #[trigger] member_keys(ps).contains(k) <==> (
            manifest@.permissions.contains(k) && is_perm_id(k)) by {
            if member_keys(ps).contains(k) {
                let a = choose|a: int| 0 <= a < ps.len() && member_keys(ps)[a] == k;
                assert(ps.to_set().contains(ps[a]));
                assert(views.contains(ps[a]));
                let b = choose|b: int| 0 <= b < views.len() && views[b] == ps[a];
                assert(ids[b] == k);
                assert(ids.contains(k));
            }
            if manifest@.permissions.contains(k) && is_perm_id(k) {
                assert(ids.contains(k));
                let b = choose|b: int| 0 <= b < ids.len() && ids[b] == k;
                assert(views[b].0 == k);
                assert(views.to_set().contains(views[b]));
                assert(ps.contains(views[b]));
                let a = choose|a: int| 0 <= a < ps.len() && ps[a] == views[b];
                assert(member_keys(ps)[a] == k);
            }
        }
        assert forall|a: int| 0 <= a < ps.len() implies exists|p: Permission|
            perm_id(p) == (#[trigger] ps[a]).0 && ps[a].1 == JsonScalarView::Str(state_word(effective_at(store@, manifest@, p, now))) by {
            assert(ps.to_set().contains(ps[a]));
            assert(views.contains(ps[a]));
            let b = choose|b: int| 0 <= b < views.len() && views[b] == ps[a];
            assert(views[b] == member_views(members@)[b]);
            let p = rows@[b].0;
            assert(perm_id(p) == ps[a].0);
        }
        assert(query_members(store@, manifest@, now, ps));
    }
    r
}

/// The text of an optional string.
pub open spec fn opt_text(o: Option<String>) -> Option<Seq<char>> {
    match o {
        Some(s) => Some(s@),
        None => None,
    }
}

/// What the broker reads of one request from an isolate.
#[derive(Debug)]
pub struct ServiceRequest {
    /// The host-assigned instance tag (`app` or `app@room`); empty for
    /// previews and dry runs.
    pub app_tag: String,
    pub service: String,
    pub heap_key: usize,
    pub req_id: u64,
    /// Whether this surface may show consent prompts.
    pub may_prompt: bool,
}

/// The mathematical content of a [`ServiceRequest`].
pub struct RequestView {
    pub app_tag: Seq<char>,
    pub service: Seq<char>,
    pub heap_key: usize,
    pub req_id: u64,
    pub may_prompt: bool,
}

impl View for ServiceRequest {
    type V = RequestView;

    open spec fn view(&self) -> RequestView {
        RequestView {
            app_tag: self.app_tag@,
            service: self.service@,
            heap_key: self.heap_key,
            req_id: self.req_id,
            may_prompt: self.may_prompt,
        }
    }
}

impl ServiceRequest {
    /// Where the answer to this request goes.
    pub fn reply(&self) -> (r: Reply)
        ensures
            r == (Reply { heap_key: self.heap_key, req_id: self.req_id }),
    {
        Reply { heap_key: self.heap_key, req_id: self.req_id }
    }
}

/// The members of a request's JSON arguments that the broker reads: each
/// string member when it is a string, each count when it is an unsigned
/// integer, `None` otherwise (also when the arguments are not JSON at all);
/// `data_json` is the `data` member written back as JSON (`null` when
/// absent).
#[derive(Debug)]
pub struct ServiceArgs {
    pub to: Option<String>,
    pub perm: Option<String>,
    pub text: Option<String>,
    pub url: Option<String>,
    pub title: Option<String>,
    pub body: Option<String>,
    pub count: Option<u64>,
    pub name: Option<String>,
    pub data: Option<String>,
    pub data_json: String,
    pub reason: Option<String>,
    pub limit: Option<u64>,
}

/// The mathematical content of [`ServiceArgs`].
pub struct ArgsView {
    pub to: Option<Seq<char>>,
    pub perm: Option<Seq<char>>,
    pub text: Option<Seq<char>>,
    pub url: Option<Seq<char>>,
    pub title: Option<Seq<char>>,
    pub body: Option<Seq<char>>,
    pub count: Option<u64>,
    pub name: Option<Seq<char>>,
    pub data: Option<Seq<char>>,
    pub data_json: Seq<char>,
    pub reason: Option<Seq<char>>,
    pub limit: Option<u64>,
}

impl View for ServiceArgs {
    type V = ArgsView;

    open spec fn view(&self) -> ArgsView {
        ArgsView {
            to: opt_text(self.to),
            perm: opt_text(self.perm),
            text: opt_text(self.text),
            url: opt_text(self.url),
            title: opt_text(self.title),
            body: opt_text(self.body),
            count: self.count,
            name: opt_text(self.name),
            data: opt_text(self.data),
            data_json: self.data_json@,
            reason: opt_text(self.reason),
            limit: self.limit,
        }
    }
}

/// The member `key` of the JSON text `args` when it is a string: what
/// `serde_json` parses, a function of the two texts alone.
pub uninterp spec fn json_str_member(args: Seq<char>, key: Seq<char>) -> Option<Seq<char>>;

/// The member `key` of the JSON text `args` when it is a whole number that
/// fits a `u64`, as `serde_json` parses it.
pub uninterp spec fn json_u64_member(args: Seq<char>, key: Seq<char>) -> Option<u64>;

/// The member `key` of the JSON text `args` written back as compact JSON
/// (`null` where it is missing or `args` is no JSON object), as `serde_json`
/// parses and prints it.
pub uninterp spec fn json_member_text(args: Seq<char>, key: Seq<char>) -> Seq<char>;

/// Parses `args_json` with `serde_json::from_str` into a `serde_json::Value`
/// (text that is no JSON counts as `null`), indexes it by `key` and takes
/// `Value::as_str`. The contract only says that the result, as text, is
/// [`json_str_member`] of the two texts; what the parser accepts is not
/// stated.
#[verifier::external_body]
fn args_str(args_json: &str, key: &str) -> (r: Option<String>)
    ensures
        opt_text(r) == json_str_member(args_json@, key@),
{
    let v: serde_json::Value = serde_json::from_str(args_json).unwrap_or(serde_json::Value::Null);
    match v[key].as_str() {
        Some(t) => Some(t.to_string()),
        None => None,
    }
}

/// Parses `args_json` as [`args_str`] does and takes `Value::as_u64` of the
/// member `key`. The contract says that the result is [`json_u64_member`] of
/// the two texts.
#[verifier::external_body]
fn args_u64(args_json: &str, key: &str) -> (r: Option<u64>)
    ensures
        r == json_u64_member(args_json@, key@),
{
    let v: serde_json::Value = serde_json::from_str(args_json).unwrap_or(serde_json::Value::Null);
    v[key].as_u64()
}

/// Parses `args_json` as [`args_str`] does and writes the member `key` back
/// with `Value`'s `to_string`. The contract says that the result is
/// [`json_member_text`] of the two texts.
#[verifier::external_body]
fn args_text(args_json: &str, key: &str) -> (r: String)
    ensures
        r@ == json_member_text(args_json@, key@),
{
    let v: serde_json::Value = serde_json::from_str(args_json).unwrap_or(serde_json::Value::Null);
    v[key].to_string()
}

/// The members of a request's JSON arguments that the broker reads.
pub open spec fn args_of(args_json: Seq<char>) -> ArgsView {
    ArgsView {
        to: json_str_member(args_json, "to"@),
        perm: json_str_member(args_json, "perm"@),
        text: json_str_member(args_json, "text"@),
        url: json_str_member(args_json, "url"@),
        title: json_str_member(args_json, "title"@),
        body: json_str_member(args_json, "body"@),
        count: json_u64_member(args_json, "count"@),
        name: json_str_member(args_json, "name"@),
        data: json_str_member(args_json, "data"@),
        data_json: json_member_text(args_json, "data"@),
        reason: json_str_member(args_json, "reason"@),
        limit: json_u64_member(args_json, "limit"@),
    }
}

/// Reads a request's JSON arguments: each member the broker uses, taken
/// from the parsed text.
pub fn service_args(args_json: &str) -> (a: ServiceArgs)
    ensures
        a@ == args_of(args_json@),
{
    ServiceArgs {
        to: args_str(args_json, "to"),
        perm: args_str(args_json, "perm"),
        text: args_str(args_json, "text"),
        url: args_str(args_json, "url"),
        title: args_str(args_json, "title"),
        body: args_str(args_json, "body"),
        count: args_u64(args_json, "count"),
        name: args_str(args_json, "name"),
        data: args_str(args_json, "data"),
        data_json: args_text(args_json, "data"),
        reason: args_str(args_json, "reason"),
        limit: args_u64(args_json, "limit"),
    }
}

/// What the abuse limiter says about a request that spends from the app's
/// budget (a request replayed after a prompt is passed as `Allow`).
#[derive(Debug)]
pub enum Verdict {
    Allow,
    /// Refuse this one request with the message.
    Refuse(String),
    /// Refuse it and stop the app.
    Stop(String),
}

/// The mathematical content of a [`Verdict`].
pub enum VerdictView {
    Allow,
    Refuse(Seq<char>),
    Stop(Seq<char>),
}

impl View for Verdict {
    type V = VerdictView;

    open spec fn view(&self) -> VerdictView {
        match self {
            Verdict::Allow => VerdictView::Allow,
            Verdict::Refuse(m) => VerdictView::Refuse(m@),
            Verdict::Stop(m) => VerdictView::Stop(m@),
        }
    }
}

/// What the host does with a request.
#[derive(Debug)]
pub enum Action {
    /// Answer at once: `Ok` with the data JSON or `Err` with the error.
    Answer(Result<String, String>),
    /// Drop it unanswered: it is left over from an app already stopped.
    Drop,
    /// Answer with the error, then stop the app and tell the user why.
    Stop { message: String, reason: String },
    /// Park it and ask the user for the group.
    Prompt { perm: Permission },
    /// Get a position fix, then answer.
    Location,
    ClipboardRead,
    /// Put the text on the clipboard, then answer `{}`.
    ClipboardWrite { text: String },
    /// Open the (allowed) link, then answer.
    OpenUrl { url: String },
    Share { text: String },
    /// Show the popup text, then answer `{}`.
    Notify { summary: String },
    FilesPick,
    FilesSave { name: String, data: String },
    /// Ask the user to authenticate, in the app's name.
    AuthCheck { app_name: String, reason: String },
    /// Deliver the message to the app's running isolates, then answer with
    /// how many got it.
    IpcDeliver { to: String, data_json: String },
    /// Run the Matrix call for the room this instance is bound to.
    Matrix { room: Option<String>, call: MatrixServiceCall },
}

/// The mathematical content of an [`Action`].
pub enum ActionView {
    Answer(Result<Seq<char>, Seq<char>>),
    Drop,
    Stop { message: Seq<char>, reason: Seq<char> },
    Prompt { perm: Permission },
    Location,
    ClipboardRead,
    ClipboardWrite { text: Seq<char> },
    OpenUrl { url: Seq<char> },
    Share { text: Seq<char> },
    Notify { summary: Seq<char> },
    FilesPick,
    FilesSave { name: Seq<char>, data: Seq<char> },
    AuthCheck { app_name: Seq<char>, reason: Seq<char> },
    IpcDeliver { to: Seq<char>, data_json: Seq<char> },
    Matrix { room: Option<Seq<char>>, call: MatrixCallView },
}

impl View for Action {
    type V = ActionView;

    open spec fn view(&self) -> ActionView {
        match self {
            Action::Answer(r) => ActionView::Answer(answer_view(*r)),
            Action::Drop => ActionView::Drop,
            Action::Stop { message, reason } => ActionView::Stop { message: message@, reason: reason@ },
            Action::Prompt { perm } => ActionView::Prompt { perm: *perm },
            Action::Location => ActionView::Location,
            Action::ClipboardRead => ActionView::ClipboardRead,
            Action::ClipboardWrite { text } => ActionView::ClipboardWrite { text: text@ },
            Action::OpenUrl { url } => ActionView::OpenUrl { url: url@ },
            Action::Share { text } => ActionView::Share { text: text@ },
            Action::Notify { summary } => ActionView::Notify { summary: summary@ },
            Action::FilesPick => ActionView::FilesPick,
            Action::FilesSave { name, data } => ActionView::FilesSave { name: name@, data: data@ },
            Action::AuthCheck { app_name, reason } => ActionView::AuthCheck { app_name: app_name@, reason: reason@ },
            Action::IpcDeliver { to, data_json } => ActionView::IpcDeliver { to: to@, data_json: data_json@ },
            Action::Matrix { room, call } => ActionView::Matrix { room: opt_text(*room), call: call@ },
        }
    }
}

/// The broker's decision on one request.
#[derive(Debug)]
pub struct Decision {
    /// The app the request came from, once it is known.
    pub app_id: Option<String>,
    /// A group the app is exercising, to be recorded as a use.
    pub used: Option<Permission>,
    pub action: Action,
}

/// The mathematical content of a [`Decision`].
pub struct DecisionView {
    pub app_id: Option<Seq<char>>,
    pub used: Option<Permission>,
    pub action: ActionView,
}

impl View for Decision {
    type V = DecisionView;

    open spec fn view(&self) -> DecisionView {
        DecisionView { app_id: opt_text(self.app_id), used: self.used, action: self.action@ }
    }
}

/// A decision that only answers.
pub open spec fn answered(app_id: Option<Seq<char>>, r: Result<Seq<char>, Seq<char>>) -> DecisionView {
    DecisionView { app_id, used: None, action: ActionView::Answer(r) }
}

/// Which app a request comes from.
#[derive(Debug)]
pub enum Route {
    /// No tag: previews and dry runs get no host services.
    Untagged,
    /// The tag names no installed app.
    UnknownApp,
    /// The app is restricted: its leftovers are dropped.
    Restricted { app_id: String },
    /// An installed app, and the room the instance is bound to.
    App { app_id: String, room: Option<String> },
}

/// The mathematical content of a [`Route`].
pub enum RouteView {
    Untagged,
    UnknownApp,
    Restricted { app_id: Seq<char> },
    App { app_id: Seq<char>, room: Option<Seq<char>> },
}

impl View for Route {
    type V = RouteView;

    open spec fn view(&self) -> RouteView {
        match self {
            Route::Untagged => RouteView::Untagged,
            Route::UnknownApp => RouteView::UnknownApp,
            Route::Restricted { app_id } => RouteView::Restricted { app_id: app_id@ },
            Route::App { app_id, room } => RouteView::App { app_id: app_id@, room: opt_text(*room) },
        }
    }
}

/// Which app a tag names: untagged, unknown, restricted, or installed.
pub open spec fn route_of(reg: Seq<ManifestView>, s: StoreView, tag: Seq<char>) -> RouteView {
    if tag.len() == 0 {
        RouteView::Untagged
    } else {
        let (app, room) = split_tag(tag);
        match find_id(reg, app) {
            None => RouteView::UnknownApp,
            Some(i) => if s.restricted.contains_key(reg[i].id) {
                RouteView::Restricted { app_id: reg[i].id }
            } else {
                RouteView::App { app_id: reg[i].id, room }
            },
        }
    }
}

/// The app an `ipc.send` goes to: its `to`, or the sender itself when that
/// is missing, empty or `self`.
pub open spec fn ipc_target(m: ManifestView, a: ArgsView) -> Seq<char> {
    match a.to {
        Some(t) => if t.len() == 0 || t == "self"@ {
            m.id
        } else {
            t
        },
        None => m.id,
    }
}

/// Services that need no group: `env`, the permission queries, and
/// messages an app sends to itself.
pub open spec fn free_service(m: ManifestView, svc: Seq<char>, a: ArgsView) -> bool {
    svc == "env"@ || svc == "permissions.query"@ || svc == "permissions.request"@ || (svc == "ipc.send"@
        && ipc_target(m, a) == m.id)
}

/// Whether a service is a Matrix call.
pub open spec fn matrix_service(svc: Seq<char>) -> bool {
    svc == "matrix.room_info"@ || svc == "matrix.read_messages"@ || svc == "matrix.send_message"@ || svc
        == "matrix.profile"@ || svc == "matrix.room_members"@ || svc == "matrix.pinned_events"@ || svc
        == "matrix.room_threads"@
}

/// `n` clamped to `lo..=hi`, `dflt` when missing.
pub open spec fn clamp_or(n: Option<u64>, dflt: u64, lo: u64, hi: u64) -> u32 {
    let x = match n {
        Some(v) => v,
        None => dflt,
    };
    (if x < lo {
        lo
    } else if x > hi {
        hi
    } else {
        x
    }) as u32
}

/// The Matrix call a request makes, or the error it gets.
pub open spec fn matrix_call(svc: Seq<char>, a: ArgsView) -> Result<MatrixCallView, Seq<char>> {
    if svc == "matrix.room_info"@ {
        Ok(MatrixCallView::RoomInfo)
    } else if svc == "matrix.profile"@ {
        Ok(MatrixCallView::Profile)
    } else if svc == "matrix.read_messages"@ {
        Ok(MatrixCallView::ReadMessages { limit: clamp_or(a.limit, 10, 1, 30) })
    } else if svc == "matrix.room_members"@ {
        Ok(MatrixCallView::Members { limit: clamp_or(a.limit, 50, 1, 200) })
    } else if svc == "matrix.pinned_events"@ {
        Ok(MatrixCallView::PinnedEvents)
    } else if svc == "matrix.room_threads"@ {
        Ok(MatrixCallView::Threads { limit: clamp_or(a.limit, 20, 1, 50) })
    } else {
        let body = trim(
            match a.body {
                Some(b) => b,
                None => Seq::empty(),
            },
        );
        if body.len() == 0 {
            Err("matrix.send_message needs {body}"@)
        } else if body.len() > 4096 {
            Err("message is too long (4096 characters max)"@)
        } else {
            Ok(MatrixCallView::SendMessage { body })
        }
    }
}

/// The group named by an id, when it names one.
pub open spec fn perm_named(id: Seq<char>) -> Permission {
    choose|p: Permission| perm_id(p) == id
}

/// The canonical members of the `permissions.query` answer.
pub open spec fn query_pairs(s: StoreView, m: ManifestView, now: u64) -> Seq<(Seq<char>, JsonScalarView)> {
    choose|ps: Seq<(Seq<char>, JsonScalarView)>| query_members(s, m, now, ps)
}

/// What the host does for a request whose permission check passed.
pub open spec fn service_action(
    reg: Seq<ManifestView>,
    s: StoreView,
    m: ManifestView,
    room: Option<Seq<char>>,
    rq: RequestView,
    a: ArgsView,
    now: u64,
) -> ActionView {
    let svc = rq.service;
    if svc == "env"@ {
        ActionView::Answer(Ok(env_json(m.id, room is Some)))
    } else if svc == "permissions.query"@ {
        ActionView::Answer(Ok(json_object(query_pairs(s, m, now))))
    } else if svc == "permissions.request"@ {
        match a.perm {
            Some(pid) => if is_perm_id(pid) {
                let p = perm_named(pid);
                match effective_at(s, m, p, now) {
                    Effective::Granted => ActionView::Answer(Ok("{\"granted\": true}"@)),
                    Effective::Denied => ActionView::Answer(Ok("{\"granted\": false}"@)),
                    Effective::Undeclared => ActionView::Answer(Err("permission not declared: "@ + pid)),
                    Effective::NeedsPrompt => if rq.may_prompt {
                        ActionView::Prompt { perm: p }
                    } else {
                        ActionView::Answer(Ok("{\"granted\": false}"@))
                    },
                }
            } else {
                ActionView::Answer(Err("unknown permission"@))
            },
            None => ActionView::Answer(Err("unknown permission"@)),
        }
    } else if svc == "location.get"@ {
        ActionView::Location
    } else if svc == "clipboard.read"@ {
        ActionView::ClipboardRead
    } else if svc == "clipboard.write"@ {
        match a.text {
            Some(t) => ActionView::ClipboardWrite { text: t },
            None => ActionView::Answer(Err("clipboard.write needs {text}"@)),
        }
    } else if svc == "url.open"@ {
        match a.url {
            Some(u) => if url_allowed(u) {
                ActionView::OpenUrl { url: u }
            } else {
                ActionView::Answer(Err("only http(s) and mailto links can be opened"@))
            },
            None => ActionView::Answer(Err("url.open needs {url}"@)),
        }
    } else if svc == "share"@ {
        match a.text {
            Some(t) => ActionView::Share { text: t },
            None => ActionView::Answer(Err("share needs {text}"@)),
        }
    } else if svc == "notify.post"@ {
        ActionView::Notify { summary: notify_summary(a.title, a.body, a.count) }
    } else if svc == "notify.clear"@ {
        ActionView::Answer(Ok("{}"@))
    } else if svc == "files.pick"@ {
        ActionView::FilesPick
    } else if svc == "files.save"@ {
        match (a.name, a.data) {
            (Some(n), Some(d)) => if n.len() > 0 {
                ActionView::FilesSave { name: n, data: d }
            } else {
                ActionView::Answer(Err("files.save needs {name, data}"@))
            },
            _ => ActionView::Answer(Err("files.save needs {name, data}"@)),
        }
    } else if svc == "auth.check"@ {
        ActionView::AuthCheck {
            app_name: m.name,
            reason: match a.reason {
                Some(r) => r,
                None => "Confirm it's you"@,
            },
        }
    } else if svc == "ipc.send"@ {
        let to = ipc_target(m, a);
        if to == m.id {
            ActionView::IpcDeliver { to, data_json: a.data_json }
        } else {
            match find_id(reg, to) {
                None => ActionView::Answer(Err("no such app"@)),
                Some(j) => if !declares(reg[j], Permission::Ipc) || state_of(s, to, Permission::Ipc)
                    == GrantState::Denied {
                    ActionView::Answer(Err("that app doesn't accept messages"@))
                } else {
                    ActionView::IpcDeliver { to, data_json: a.data_json }
                },
            }
        }
    } else if matrix_service(svc) {
        if svc != "matrix.profile"@ && room is None {
            ActionView::Answer(Err("this mini-app is not attached to a room"@))
        } else {
            match matrix_call(svc, a) {
                Ok(call) => ActionView::Matrix { room, call },
                Err(e) => ActionView::Answer(Err(e)),
            }
        }
    } else {
        ActionView::Answer(Err("unknown service '"@ + svc + "'"@))
    }
}

/// The decision for a request from an installed, unrestricted app that the
/// limiter let through: unknown services are refused; a service needing a
/// group goes ahead (recording the use) only when the group nets out to
/// granted, is refused when denied or undeclared, and waits for a prompt
/// only where prompts may be shown.
pub open spec fn gated_decision(
    reg: Seq<ManifestView>,
    s: StoreView,
    m: ManifestView,
    room: Option<Seq<char>>,
    rq: RequestView,
    a: ArgsView,
    now: u64,
) -> DecisionView {
    let svc = rq.service;
    let app = Some(m.id);
    if free_service(m, svc, a) {
        DecisionView { app_id: app, used: None, action: service_action(reg, s, m, room, rq, a, now) }
    } else {
        match service_perm(svc) {
            None => answered(app, Err("unknown service '"@ + svc + "'"@)),
            Some(p) => match effective_at(s, m, p, now) {
                Effective::Granted => DecisionView {
                    app_id: app,
                    used: Some(p),
                    action: service_action(reg, s, m, room, rq, a, now),
                },
                Effective::Denied => answered(app, denied_answer(svc)),
                Effective::Undeclared => answered(app, Err("permission not declared: "@ + perm_id(p))),
                Effective::NeedsPrompt => if rq.may_prompt {
                    DecisionView { app_id: app, used: None, action: ActionView::Prompt { perm: p } }
                } else {
                    answered(app, denied_answer(svc))
                },
            },
        }
    }
}

/// Why a stopped app was stopped, as the user is told.
pub open spec fn stop_reason() -> Seq<char> {
    "made far too many requests to the system"@
}

/// The apps stopped so far in one pass over the queued requests: the rest
/// of their batch is dropped without being dispatched.
pub struct StoppedApps {
    apps: Vec<String>,
}

impl View for StoppedApps {
    type V = Seq<Seq<char>>;

    closed spec fn view(&self) -> Seq<Seq<char>> {
        texts(self.apps@)
    }
}

/// The stopped apps after one decision: an app that is stopped joins them.
pub open spec fn stopped_after(stopped: Seq<Seq<char>>, d: DecisionView) -> Seq<Seq<char>> {
    match (d.action, d.app_id) {
        (ActionView::Stop { .. }, Some(app)) => stopped.push(app),
        _ => stopped,
    }
}

impl StoppedApps {
    /// No app stopped yet.
    pub fn new() -> (s: StoppedApps)
        ensures
            s@ == Seq::<Seq<char>>::empty(),
    {
        let s = StoppedApps { apps: Vec::new() };
        assert(s@ =~= Seq::<Seq<char>>::empty());
        s
    }

    /// Whether a request with host tag `tag` is dropped: its app was stopped
    /// earlier in this pass.
    pub fn skips(&self, tag: &str) -> (b: bool)
        ensures
            b == self@.contains(split_tag(tag@).0),
    {
        let (app, _) = split_instance_tag(tag);
        contains_text(&self.apps, app)
    }

    /// Takes in one decision: a stopped app joins the set.
    pub fn note(&mut self, d: &Decision)
        ensures
            final(self)@ == stopped_after(old(self)@, d@),
    {
        match (&d.action, &d.app_id) {
            (Action::Stop { .. }, Some(app)) => {
                let a = app.clone();
                self.apps.push(a);
                assert(self@ =~= old(self)@.push(app@));
            },
            _ => {},
        }
    }
}

/// The broker's decision on one request at time `now`, given what the
/// limiter said of it.
pub open spec fn dispatch_of(
    reg: Seq<ManifestView>,
    s: StoreView,
    rq: RequestView,
    a: ArgsView,
    v: VerdictView,
    now: u64,
) -> DecisionView {
    match route_of(reg, s, rq.app_tag) {
        RouteView::Untagged => answered(None, Err("host services are not available here"@)),
        RouteView::UnknownApp => answered(None, Err("unknown app"@)),
        RouteView::Restricted { app_id } => DecisionView { app_id: Some(app_id), used: None, action: ActionView::Drop },
        RouteView::App { app_id, room } => match v {
            VerdictView::Refuse(msg) => answered(Some(app_id), Err(msg)),
            VerdictView::Stop(msg) => DecisionView {
                app_id: Some(app_id),
                used: None,
                action: ActionView::Stop { message: msg, reason: stop_reason() },
            },
            VerdictView::Allow => {
                let m = reg[find_id(reg, split_tag(rq.app_tag).0).unwrap()];
                gated_decision(reg, s, m, room, rq, a, now)
            },
        },
    }
}


proof fn lemma_increasing_unique(x: Seq<Seq<char>>, y: Seq<Seq<char>>)
    requires
        increasing(x),
        increasing(y),
        forall|k: Seq<char>| x.contains(k) <==> y.contains(k),
    ensures
        x == y,
    decreases x.len(),
{
    if x.len() == 0 {
        if y.len() > 0 {
            assert(y.contains(y[0]));
        }
        assert(x =~= y);
    } else {
        assert(x.contains(x[0]));
        assert(y.len() > 0);
        assert(y.contains(y[0]));
        if x[0] != y[0] {
            let j = choose|j: int| 0 <= j < y.len() && y[j] == x[0];
            let i = choose|i: int| 0 <= i < x.len() && x[i] == y[0];
            assert(text_lt(y[0], y[j]));
            assert(text_lt(x[0], x[i]));
            crate::text::lemma_text_lt_asymmetric(x[0], y[0]);
        }
        let x1 = x.drop_first();
        let y1 = y.drop_first();
        assert forall|k: Seq<char>| x1.contains(k) <==> y1.contains(k) by {
            if x1.contains(k) {
                let i = choose|i: int| 0 <= i < x1.len() && x1[i] == k;
                assert(x[i + 1] == k);
                assert(text_lt(x[0], x[i + 1]));
                crate::text::lemma_text_lt_irreflexive(k);
                assert(x.contains(k));
                let j = choose|j: int| 0 <= j < y.len() && y[j] == k;
                assert(j != 0);
                assert(y1[j - 1] == k);
            }
            if y1.contains(k) {
                let i = choose|i: int| 0 <= i < y1.len() && y1[i] == k;
                assert(y[i + 1] == k);
                assert(text_lt(y[0], y[i + 1]));
                crate::text::lemma_text_lt_irreflexive(k);
                assert(y.contains(k));
                let j = choose|j: int| 0 <= j < x.len() && x[j] == k;
                assert(j != 0);
                assert(x1[j - 1] == k);
            }
        }
        lemma_increasing_unique(x1, y1);
        assert(x =~= seq![x[0]] + x1);
        assert(y =~= seq![y[0]] + y1);
    }
}

/// There is exactly one way to write the `permissions.query` members.
proof fn lemma_query_members_unique(s: StoreView, m: ManifestView, now: u64, a: Seq<(Seq<char>, JsonScalarView)>, b: Seq<(Seq<char>, JsonScalarView)>)
    requires
        query_members(s, m, now, a),
        query_members(s, m, now, b),
    ensures
        a == b,
{
    let ka = member_keys(a);
    let kb = member_keys(b);
    assert(increasing(ka)) by {
        assert forall|i: int, j: int| 0 <= i < j < ka.len() implies text_lt(#[trigger] ka[i], #[trigger] ka[j]) by {
            assert(text_lt(a[i].0, a[j].0));
        }
    }
    assert(increasing(kb)) by {
        assert forall|i: int, j: int| 0 <= i < j < kb.len() implies text_lt(#[trigger] kb[i], #[trigger] kb[j]) by {
            assert(text_lt(b[i].0, b[j].0));
        }
    }
    lemma_increasing_unique(ka, kb);
    assert forall|i: int| 0 <= i < a.len() implies a[i] == b[i] by {
        assert(ka[i] == kb[i]);
        let p = choose|p: Permission| perm_id(p) == (#[trigger] a[i]).0 && a[i].1 == JsonScalarView::Str(state_word(effective_at(s, m, p, now)));
        assert(exists|q: Permission| perm_id(q) == (#[trigger] b[i]).0 && b[i].1 == JsonScalarView::Str(state_word(effective_at(s, m, q, now))));
        let q = choose|q: Permission| perm_id(q) == (#[trigger] b[i]).0 && b[i].1 == JsonScalarView::Str(state_word(effective_at(s, m, q, now)));
        if p != q {
            crate::permission::lemma_perm_ids_distinct(p, q);
        }
    }
    assert(a =~= b);
}

/// Which app a tag names.
pub fn route(registry: &AppRegistry, store: &PermissionStore, tag: &str) -> (r: Route)
    ensures
        r@ == route_of(registry.view(), store@, tag@),
{
    let tv = crate::text::chars_of(tag);
    if tv.len() == 0 {
        return Route::Untagged;
    }
    let (app, room) = split_instance_tag(tag);
    match registry.get(app) {
        None => Route::UnknownApp,
        Some(m) => {
            if store.is_restricted(m.id.as_str()) {
                Route::Restricted { app_id: m.id.clone() }
            } else {
                let room_owned = match room {
                    Some(x) => Some(owned(x)),
                    None => None,
                };
                Route::App { app_id: m.id.clone(), room: room_owned }
            }
        },
    }
}

fn clamp_limit(n: Option<u64>, dflt: u64, lo: u64, hi: u64) -> (r: u32)
    requires
        lo <= hi <= u32::MAX,
        lo <= dflt <= hi,
    ensures
        r == clamp_or(n, dflt, lo, hi),
{
    let x = match n {
        Some(v) => v,
        None => dflt,
    };
    let y = if x < lo {
        lo
    } else if x > hi {
        hi
    } else {
        x
    };
    y as u32
}

fn matrix_call_of(service: &str, args: &ServiceArgs) -> (r: Result<MatrixServiceCall, String>)
    ensures
        match r {
            Ok(c) => matrix_call(service@, args@) == Ok::<MatrixCallView, Seq<char>>(c@),
            Err(e) => matrix_call(service@, args@) == Err::<MatrixCallView, Seq<char>>(e@),
        },
{
    if str_eq(service, "matrix.room_info") {
        Ok(MatrixServiceCall::RoomInfo)
    } else if str_eq(service, "matrix.profile") {
        Ok(MatrixServiceCall::Profile)
    } else if str_eq(service, "matrix.read_messages") {
        Ok(MatrixServiceCall::ReadMessages { limit: clamp_limit(args.limit, 10, 1, 30) })
    } else if str_eq(service, "matrix.room_members") {
        Ok(MatrixServiceCall::Members { limit: clamp_limit(args.limit, 50, 1, 200) })
    } else if str_eq(service, "matrix.pinned_events") {
        Ok(MatrixServiceCall::PinnedEvents)
    } else if str_eq(service, "matrix.room_threads") {
        Ok(MatrixServiceCall::Threads { limit: clamp_limit(args.limit, 20, 1, 50) })
    } else {
        let bv = match &args.body {
            Some(b) => crate::text::chars_of(b.as_str()),
            None => Vec::new(),
        };
        let ghost raw = match args@.body {
            Some(b) => b,
            None => Seq::<char>::empty(),
        };
        assert(bv@ == raw);
        let (a, b) = trim_bounds(bv.as_slice(), 0, bv.len());
        assert(bv@.subrange(0, bv@.len() as int) =~= bv@);
        if a == b {
            Err(owned("matrix.send_message needs {body}"))
        } else if b - a > 4096 {
            Err(owned("message is too long (4096 characters max)"))
        } else {
            Ok(MatrixServiceCall::SendMessage { body: crate::text::string_of(bv.as_slice(), a, b) })
        }
    }
}


fn ipc_target_of(m: &MiniAppManifest, args: &ServiceArgs) -> (r: String)
    ensures
        r@ == ipc_target(m@, args@),
{
    match &args.to {
        Some(t) => {
            let tv = crate::text::chars_of(t.as_str());
            if tv.len() == 0 || str_eq(t.as_str(), "self") {
                m.id.clone()
            } else {
                t.clone()
            }
        },
        None => m.id.clone(),
    }
}

fn is_free_service(m: &MiniAppManifest, svc: &str, args: &ServiceArgs) -> (r: bool)
    ensures
        r == free_service(m@, svc@, args@),
{
    if str_eq(svc, "env") || str_eq(svc, "permissions.query") || str_eq(svc, "permissions.request") {
        return true;
    }
    if str_eq(svc, "ipc.send") {
        let to = ipc_target_of(m, args);
        return str_eq(to.as_str(), m.id.as_str());
    }
    false
}

fn is_matrix_service(svc: &str) -> (r: bool)
    ensures
        r == matrix_service(svc@),
{
    str_eq(svc, "matrix.room_info") || str_eq(svc, "matrix.read_messages") || str_eq(svc, "matrix.send_message")
        || str_eq(svc, "matrix.profile") || str_eq(svc, "matrix.room_members") || str_eq(svc, "matrix.pinned_events")
        || str_eq(svc, "matrix.room_threads")
}

fn unknown_service(svc: &str) -> (r: String)
    ensures
        r@ == "unknown service '"@ + svc@ + "'"@,
{
    let mut e = concat("unknown service '", svc);
    crate::text::push_text(&mut e, "'");
    e
}

fn err_answer(msg: &str) -> (a: Action)
    ensures
        a@ == ActionView::Answer(Err(msg@)),
{
    Action::Answer(Err(owned(msg)))
}

fn ok_answer(data: &str) -> (a: Action)
    ensures
        a@ == ActionView::Answer(Ok(data@)),
{
    Action::Answer(Ok(owned(data)))
}

fn clone_opt(o: &Option<String>) -> (r: Option<String>)
    ensures
        opt_text(r) == opt_text(*o),
{
    match o {
        Some(x) => Some(x.clone()),
        None => None,
    }
}

/// What the host does for a request whose permission check passed.
fn service_action_exec(
    registry: &AppRegistry,
    store: &PermissionStore,
    m: &MiniAppManifest,
    room: &Option<String>,
    req: &ServiceRequest,
    args: &ServiceArgs,
    now: u64,
) -> (r: Action)
    ensures
        r@ == service_action(registry.view(), store@, m@, opt_text(*room), req@, args@, now),
{
    let svc = req.service.as_str();
    if str_eq(svc, "env") {
        let room_attached = match room {
            Some(_) => true,
            None => false,
        };
        Action::Answer(Ok(env_answer(m.id.as_str(), room_attached)))
    } else if str_eq(svc, "permissions.query") {
        let data = permissions_query_answer(store, m, now);
        proof {
            let ps = choose|ps: Seq<(Seq<char>, JsonScalarView)>| query_members(store@, m@, now, ps) && data@ == json_object(ps);
            lemma_query_members_unique(store@, m@, now, ps, query_pairs(store@, m@, now));
        }
        Action::Answer(Ok(data))
    } else if str_eq(svc, "permissions.request") {
        match &args.perm {
            None => err_answer("unknown permission"),
            Some(pid) => match Permission::from_str(pid.as_str()) {
                None => err_answer("unknown permission"),
                Some(p) => {
                    proof {
                        let q = perm_named(pid@);
                        assert(perm_id(q) == pid@);
                        if q != p {
                            crate::permission::lemma_perm_ids_distinct(q, p);
                        }
                    }
                    match store.effective_at(m, p, now) {
                        Effective::Granted => ok_answer("{\"granted\": true}"),
                        Effective::Denied => ok_answer("{\"granted\": false}"),
                        Effective::Undeclared => Action::Answer(Err(concat("permission not declared: ", pid.as_str()))),
                        Effective::NeedsPrompt => if req.may_prompt {
                            Action::Prompt { perm: p }
                        } else {
                            ok_answer("{\"granted\": false}")
                        },
                    }
                },
            },
        }
    } else if str_eq(svc, "location.get") {
        Action::Location
    } else if str_eq(svc, "clipboard.read") {
        Action::ClipboardRead
    } else if str_eq(svc, "clipboard.write") {
        match &args.text {
            Some(t) => Action::ClipboardWrite { text: t.clone() },
            None => err_answer("clipboard.write needs {text}"),
        }
    } else if str_eq(svc, "url.open") {
        match &args.url {
            Some(u) => if url_is_allowed(u.as_str()) {
                Action::OpenUrl { url: u.clone() }
            } else {
                err_answer("only http(s) and mailto links can be opened")
            },
            None => err_answer("url.open needs {url}"),
        }
    } else if str_eq(svc, "share") {
        match &args.text {
            Some(t) => Action::Share { text: t.clone() },
            None => err_answer("share needs {text}"),
        }
    } else if str_eq(svc, "notify.post") {
        let title = match &args.title {
            Some(t) => Some(t.as_str()),
            None => None,
        };
        let body = match &args.body {
            Some(b) => Some(b.as_str()),
            None => None,
        };
        Action::Notify { summary: notify_text(title, body, args.count) }
    } else if str_eq(svc, "notify.clear") {
        ok_answer("{}")
    } else if str_eq(svc, "files.pick") {
        Action::FilesPick
    } else if str_eq(svc, "files.save") {
        match (&args.name, &args.data) {
            (Some(n), Some(d)) => {
                let nv = crate::text::chars_of(n.as_str());
                if nv.len() > 0 {
                    Action::FilesSave { name: n.clone(), data: d.clone() }
                } else {
                    err_answer("files.save needs {name, data}")
                }
            },
            _ => err_answer("files.save needs {name, data}"),
        }
    } else if str_eq(svc, "auth.check") {
        let reason = match &args.reason {
            Some(r) => r.clone(),
            None => owned("Confirm it's you"),
        };
        Action::AuthCheck { app_name: m.name.clone(), reason }
    } else if str_eq(svc, "ipc.send") {
        let to = ipc_target_of(m, args);
        if str_eq(to.as_str(), m.id.as_str()) {
            Action::IpcDeliver { to, data_json: args.data_json.clone() }
        } else {
            match registry.get(to.as_str()) {
                None => err_answer("no such app"),
                Some(target) => {
                    let blocked = !target.declares(Permission::Ipc) || store.state(to.as_str(), Permission::Ipc)
                        == GrantState::Denied;
                    if blocked {
                        err_answer("that app doesn't accept messages")
                    } else {
                        Action::IpcDeliver { to, data_json: args.data_json.clone() }
                    }
                },
            }
        }
    } else if is_matrix_service(svc) {
        let no_room = match room {
            Some(_) => false,
            None => true,
        };
        if !str_eq(svc, "matrix.profile") && no_room {
            err_answer("this mini-app is not attached to a room")
        } else {
            match matrix_call_of(svc, args) {
                Ok(call) => Action::Matrix { room: clone_opt(room), call },
                Err(e) => Action::Answer(Err(e)),
            }
        }
    } else {
        Action::Answer(Err(unknown_service(svc)))
    }
}

/// The decision for a request from an installed, unrestricted app that
/// the limiter let through.
fn gated(
    registry: &AppRegistry,
    store: &PermissionStore,
    m: &MiniAppManifest,
    room: &Option<String>,
    req: &ServiceRequest,
    args: &ServiceArgs,
    now: u64,
) -> (d: Decision)
    ensures
        d@ == gated_decision(registry.view(), store@, m@, opt_text(*room), req@, args@, now),
{
    let svc = req.service.as_str();
    if is_free_service(m, svc, args) {
        let action = service_action_exec(registry, store, m, room, req, args, now);
        return Decision { app_id: Some(m.id.clone()), used: None, action };
    }
    match service_permission(svc) {
        None => Decision { app_id: Some(m.id.clone()), used: None, action: Action::Answer(Err(unknown_service(svc))) },
        Some(p) => match store.effective_at(m, p, now) {
            Effective::Granted => {
                let action = service_action_exec(registry, store, m, room, req, args, now);
                Decision { app_id: Some(m.id.clone()), used: Some(p), action }
            },
            Effective::Denied => Decision { app_id: Some(m.id.clone()), used: None, action: Action::Answer(respond_denied(svc)) },
            Effective::Undeclared => Decision {
                app_id: Some(m.id.clone()),
                used: None,
                action: Action::Answer(Err(concat("permission not declared: ", p.as_str()))),
            },
            Effective::NeedsPrompt => if req.may_prompt {
                Decision { app_id: Some(m.id.clone()), used: None, action: Action::Prompt { perm: p } }
            } else {
                Decision { app_id: Some(m.id.clone()), used: None, action: Action::Answer(respond_denied(svc)) }
            },
        },
    }
}

/// The broker's decision on one request at time `now`, given what the abuse
/// limiter said of it (`Allow` for a request that is not charged).
pub fn dispatch(
    registry: &AppRegistry,
    store: &PermissionStore,
    req: &ServiceRequest,
    args: &ServiceArgs,
    verdict: &Verdict,
    now: u64,
) -> (d: Decision)
    ensures
        d@ == dispatch_of(registry.view(), store@, req@, args@, verdict@, now),
{
    match route(registry, store, req.app_tag.as_str()) {
        Route::Untagged => Decision { app_id: None, used: None, action: err_answer("host services are not available here") },
        Route::UnknownApp => Decision { app_id: None, used: None, action: err_answer("unknown app") },
        Route::Restricted { app_id } => Decision { app_id: Some(app_id), used: None, action: Action::Drop },
        Route::App { app_id, room } => match verdict {
            Verdict::Refuse(msg) => Decision { app_id: Some(app_id), used: None, action: Action::Answer(Err(msg.clone())) },
            Verdict::Stop(msg) => Decision {
                app_id: Some(app_id),
                used: None,
                action: Action::Stop { message: msg.clone(), reason: owned("made far too many requests to the system") },
            },
            Verdict::Allow => {
                let (app, _) = split_instance_tag(req.app_tag.as_str());
                match registry.get(app) {
                    Some(m) => gated(registry, store, m, &room, req, args, now),
                    None => Decision { app_id: None, used: None, action: err_answer("unknown app") },
                }
            },
        },
    }
}

} // verus!
