//! The permission groups a mini-app can declare, and how each is shown.

use vstd::prelude::*;

use crate::text::{chars_of, chars_eq};

verus! {

/// Every permission group a mini-app can declare. The kebab-case ids are the
/// manifest and wire form; exported bundles carry them.
#[derive(Clone, Copy, Debug, PartialEq, Eq, Structural, PartialOrd, Ord, Hash)]
pub enum Permission {
    Network,
    Location,
    Notifications,
    ClipboardRead,
    Ipc,
    MatrixRoomRead,
    MatrixRoomSend,
    ClipboardWrite,
    OpenUrl,
    Files,
    Share,
    Auth,
    MatrixRoomInfo,
    MatrixProfile,
    DeviceInfo,
    Camera,
    Microphone,
    MatrixAccountRead,
    MatrixAccountWrite,
    MatrixUsers,
    MatrixRoomWatch,
    MatrixRoomInteract,
    MatrixRoomAppData,
    MatrixRoomManage,
    MatrixRoomInvite,
    MatrixMedia,
    MatrixRoomsList,
    MatrixRoomsRead,
    MatrixRoomsSend,
    MatrixMembership,
    MatrixSpaces,
    RobrixNavigation,
    RobrixComposer,
    RobrixUi,
    RobrixPreferences,
    RobrixObserve,
}

/// Runtime permissions prompt the user on first use; normal ones are granted
/// on declaration. Both stay revocable.
#[derive(Clone, Copy, Debug, PartialEq, Eq, Structural)]
pub enum Tier {
    Normal,
    Runtime,
}

/// How many permission groups there are.
pub const PERMISSION_COUNT: usize = 36;

/// The position of a group in declaration order.
pub open spec fn perm_index(p: Permission) -> int {
    match p {
        Permission::Network => 0,
        Permission::Location => 1,
        Permission::Notifications => 2,
        Permission::ClipboardRead => 3,
        Permission::Ipc => 4,
        Permission::MatrixRoomRead => 5,
        Permission::MatrixRoomSend => 6,
        Permission::ClipboardWrite => 7,
        Permission::OpenUrl => 8,
        Permission::Files => 9,
        Permission::Share => 10,
        Permission::Auth => 11,
        Permission::MatrixRoomInfo => 12,
        Permission::MatrixProfile => 13,
        Permission::DeviceInfo => 14,
        Permission::Camera => 15,
        Permission::Microphone => 16,
        Permission::MatrixAccountRead => 17,
        Permission::MatrixAccountWrite => 18,
        Permission::MatrixUsers => 19,
        Permission::MatrixRoomWatch => 20,
        Permission::MatrixRoomInteract => 21,
        Permission::MatrixRoomAppData => 22,
        Permission::MatrixRoomManage => 23,
        Permission::MatrixRoomInvite => 24,
        Permission::MatrixMedia => 25,
        Permission::MatrixRoomsList => 26,
        Permission::MatrixRoomsRead => 27,
        Permission::MatrixRoomsSend => 28,
        Permission::MatrixMembership => 29,
        Permission::MatrixSpaces => 30,
        Permission::RobrixNavigation => 31,
        Permission::RobrixComposer => 32,
        Permission::RobrixUi => 33,
        Permission::RobrixPreferences => 34,
        Permission::RobrixObserve => 35,
    }
}

/// The group at a position in declaration order.
pub open spec fn perm_at(i: int) -> Permission {
    if i == 0 { Permission::Network } else
    if i == 1 { Permission::Location } else
    if i == 2 { Permission::Notifications } else
    if i == 3 { Permission::ClipboardRead } else
    if i == 4 { Permission::Ipc } else
    if i == 5 { Permission::MatrixRoomRead } else
    if i == 6 { Permission::MatrixRoomSend } else
    if i == 7 { Permission::ClipboardWrite } else
    if i == 8 { Permission::OpenUrl } else
    if i == 9 { Permission::Files } else
    if i == 10 { Permission::Share } else
    if i == 11 { Permission::Auth } else
    if i == 12 { Permission::MatrixRoomInfo } else
    if i == 13 { Permission::MatrixProfile } else
    if i == 14 { Permission::DeviceInfo } else
    if i == 15 { Permission::Camera } else
    if i == 16 { Permission::Microphone } else
    if i == 17 { Permission::MatrixAccountRead } else
    if i == 18 { Permission::MatrixAccountWrite } else
    if i == 19 { Permission::MatrixUsers } else
    if i == 20 { Permission::MatrixRoomWatch } else
    if i == 21 { Permission::MatrixRoomInteract } else
    if i == 22 { Permission::MatrixRoomAppData } else
    if i == 23 { Permission::MatrixRoomManage } else
    if i == 24 { Permission::MatrixRoomInvite } else
    if i == 25 { Permission::MatrixMedia } else
    if i == 26 { Permission::MatrixRoomsList } else
    if i == 27 { Permission::MatrixRoomsRead } else
    if i == 28 { Permission::MatrixRoomsSend } else
    if i == 29 { Permission::MatrixMembership } else
    if i == 30 { Permission::MatrixSpaces } else
    if i == 31 { Permission::RobrixNavigation } else
    if i == 32 { Permission::RobrixComposer } else
    if i == 33 { Permission::RobrixUi } else
    if i == 34 { Permission::RobrixPreferences } else
    { Permission::RobrixObserve }
}

/// Every group, in declaration order.
pub open spec fn all_perms() -> Seq<Permission> {
    Seq::new(PERMISSION_COUNT as nat, |i: int| perm_at(i))
}

pub proof fn lemma_perm_index(p: Permission)
    ensures
        0 <= perm_index(p) < PERMISSION_COUNT,
        perm_at(perm_index(p)) == p,
        all_perms()[perm_index(p)] == p,
{
}


/// The stable kebab-case id of a group.
pub open spec fn perm_id(p: Permission) -> Seq<char> {
    match p {
        Permission::Network => "network"@,
        Permission::Location => "location"@,
        Permission::Notifications => "notifications"@,
        Permission::ClipboardRead => "clipboard-read"@,
        Permission::Ipc => "ipc"@,
        Permission::MatrixRoomRead => "matrix-room-read"@,
        Permission::MatrixRoomSend => "matrix-room-send"@,
        Permission::ClipboardWrite => "clipboard-write"@,
        Permission::OpenUrl => "open-url"@,
        Permission::Files => "files"@,
        Permission::Share => "share"@,
        Permission::Auth => "auth"@,
        Permission::MatrixRoomInfo => "matrix-room-info"@,
        Permission::MatrixProfile => "matrix-profile"@,
        Permission::DeviceInfo => "device-info"@,
        Permission::Camera => "camera"@,
        Permission::Microphone => "microphone"@,
        Permission::MatrixAccountRead => "matrix-account-read"@,
        Permission::MatrixAccountWrite => "matrix-account-write"@,
        Permission::MatrixUsers => "matrix-users"@,
        Permission::MatrixRoomWatch => "matrix-room-watch"@,
        Permission::MatrixRoomInteract => "matrix-room-interact"@,
        Permission::MatrixRoomAppData => "matrix-room-app-data"@,
        Permission::MatrixRoomManage => "matrix-room-manage"@,
        Permission::MatrixRoomInvite => "matrix-room-invite"@,
        Permission::MatrixMedia => "matrix-media"@,
        Permission::MatrixRoomsList => "matrix-rooms-list"@,
        Permission::MatrixRoomsRead => "matrix-rooms-read"@,
        Permission::MatrixRoomsSend => "matrix-rooms-send"@,
        Permission::MatrixMembership => "matrix-membership"@,
        Permission::MatrixSpaces => "matrix-spaces"@,
        Permission::RobrixNavigation => "robrix-navigation"@,
        Permission::RobrixComposer => "robrix-composer"@,
        Permission::RobrixUi => "robrix-ui"@,
        Permission::RobrixPreferences => "robrix-preferences"@,
        Permission::RobrixObserve => "robrix-observe"@,
    }
}

/// The short human name of a group.
pub open spec fn perm_title(p: Permission) -> Seq<char> {
    match p {
        Permission::Network => "Network"@,
        Permission::Location => "Location"@,
        Permission::Notifications => "Notifications"@,
        Permission::ClipboardRead => "Read Clipboard"@,
        Permission::Ipc => "App Messaging"@,
        Permission::MatrixRoomRead => "Read room content"@,
        Permission::MatrixRoomSend => "Send room messages"@,
        Permission::ClipboardWrite => "Write Clipboard"@,
        Permission::OpenUrl => "Open Links"@,
        Permission::Files => "Files"@,
        Permission::Share => "Share"@,
        Permission::Auth => "Authentication"@,
        Permission::MatrixRoomInfo => "Room details"@,
        Permission::MatrixProfile => "Your identity"@,
        Permission::DeviceInfo => "Device details"@,
        Permission::Camera => "Camera"@,
        Permission::Microphone => "Microphone"@,
        Permission::MatrixAccountRead => "Your account details"@,
        Permission::MatrixAccountWrite => "Change your account"@,
        Permission::MatrixUsers => "Look up people"@,
        Permission::MatrixRoomWatch => "Watch this room live"@,
        Permission::MatrixRoomInteract => "React in this room"@,
        Permission::MatrixRoomAppData => "Sync app data in this room"@,
        Permission::MatrixRoomManage => "Manage this room"@,
        Permission::MatrixRoomInvite => "Invite to this room"@,
        Permission::MatrixMedia => "Media"@,
        Permission::MatrixRoomsList => "Your room list"@,
        Permission::MatrixRoomsRead => "Read other rooms"@,
        Permission::MatrixRoomsSend => "Send to other rooms"@,
        Permission::MatrixMembership => "Join, leave and start chats"@,
        Permission::MatrixSpaces => "Spaces"@,
        Permission::RobrixNavigation => "Navigate Robrix"@,
        Permission::RobrixComposer => "Prepare messages"@,
        Permission::RobrixUi => "Its own pane"@,
        Permission::RobrixPreferences => "Robrix settings"@,
        Permission::RobrixObserve => "Watch what you're doing"@,
    }
}

/// The emoji shown beside a group.
pub open spec fn perm_glyph(p: Permission) -> Seq<char> {
    match p {
        Permission::Network => "🌐"@,
        Permission::Location => "📍"@,
        Permission::Notifications => "🔔"@,
        Permission::ClipboardRead => "📋"@,
        Permission::Ipc => "✉️"@,
        Permission::MatrixRoomRead => "📖"@,
        Permission::MatrixRoomSend => "💬"@,
        Permission::ClipboardWrite => "📋"@,
        Permission::OpenUrl => "🔗"@,
        Permission::Files => "📁"@,
        Permission::Share => "📤"@,
        Permission::Auth => "🔒"@,
        Permission::MatrixRoomInfo => "🏷"@,
        Permission::MatrixProfile => "👤"@,
        Permission::DeviceInfo => "📱"@,
        Permission::Camera => "📷"@,
        Permission::Microphone => "🎙"@,
        Permission::MatrixAccountRead => "🪪"@,
        Permission::MatrixAccountWrite => "✏️"@,
        Permission::MatrixUsers => "🧑‍🤝‍🧑"@,
        Permission::MatrixRoomWatch => "👁"@,
        Permission::MatrixRoomInteract => "👍"@,
        Permission::MatrixRoomAppData => "🧩"@,
        Permission::MatrixRoomManage => "🛠"@,
        Permission::MatrixRoomInvite => "➕"@,
        Permission::MatrixMedia => "🖼"@,
        Permission::MatrixRoomsList => "🗂"@,
        Permission::MatrixRoomsRead => "📚"@,
        Permission::MatrixRoomsSend => "📣"@,
        Permission::MatrixMembership => "🚪"@,
        Permission::MatrixSpaces => "🌌"@,
        Permission::RobrixNavigation => "🧭"@,
        Permission::RobrixComposer => "⌨️"@,
        Permission::RobrixUi => "🪟"@,
        Permission::RobrixPreferences => "⚙️"@,
        Permission::RobrixObserve => "📡"@,
    }
}

/// What granting a group means, in the user's terms.
pub open spec fn perm_blurb(p: Permission) -> Seq<char> {
    match p {
        Permission::Network => "Connect to the internet to fetch and send data."@,
        Permission::Location => "See your approximate location."@,
        Permission::Notifications => "Show popup notifications from this app."@,
        Permission::ClipboardRead => "Read whatever is on your clipboard."@,
        Permission::Ipc => "Send messages to your other mini-apps."@,
        Permission::MatrixRoomRead => "Read this room's messages, members, pins, and threads."@,
        Permission::MatrixRoomSend => "Send messages to this room as you."@,
        Permission::ClipboardWrite => "Put text on your clipboard."@,
        Permission::OpenUrl => "Open web links in your browser."@,
        Permission::Files => "Open and save files you pick in the system dialog."@,
        Permission::Share => "Open the system share sheet."@,
        Permission::Auth => "Ask you to authenticate (Touch ID / password)."@,
        Permission::MatrixRoomInfo => "See this room's name, topic, and member count."@,
        Permission::MatrixProfile => "Know your Matrix display name and user ID."@,
        Permission::DeviceInfo => "Low-sensitivity facts about this device and connection: platform, locale, time zone, online/offline, sync state."@,
        Permission::Camera => "Take a photo through the system camera."@,
        Permission::Microphone => "Record an audio clip through the system recorder."@,
        Permission::MatrixAccountRead => "See this device's ID and verification state, your homeserver, and app-owned account settings."@,
        Permission::MatrixAccountWrite => "Change your display name or avatar, block people, or store app settings on your account. Asks every time and is off unless 'Apps may change your account' is on."@,
        Permission::MatrixUsers => "Fetch other Matrix users' public profiles and find existing chats with them."@,
        Permission::MatrixRoomWatch => "Be told as messages, edits, reactions, typing, receipts, joins and mentions happen in this room."@,
        Permission::MatrixRoomInteract => "React, show typing, and mark this room read as you. Off unless 'Apps may write to rooms' is on."@,
        Permission::MatrixRoomAppData => "Store and read this app's own data as events in this room so everyone using it sees the same state. Saving is off unless 'Apps may write to rooms' is on."@,
        Permission::MatrixRoomManage => "Pin messages, favorite this room, flag it unread, or change its settings. Writes are off unless 'Apps may write to rooms' is on."@,
        Permission::MatrixRoomInvite => "Invite people to this room as you. Asks every time and is off unless 'Apps may change room membership' is on."@,
        Permission::MatrixMedia => "Fetch images and files from this room, get link previews, and upload files to your homeserver."@,
        Permission::MatrixRoomsList => "See which rooms, DMs and invites you have with unread counts, and be told when that changes."@,
        Permission::MatrixRoomsRead => "Read rooms you pick beyond the one this app is attached to."@,
        Permission::MatrixRoomsSend => "Post to rooms you pick, as you. Asks every time and is off unless 'Apps may write to rooms' is on."@,
        Permission::MatrixMembership => "Join rooms, answer invites, open direct messages, or leave this room as you. Asks every time and is off unless 'Apps may change room membership' is on."@,
        Permission::MatrixSpaces => "See your spaces and the rooms inside them."@,
        Permission::RobrixNavigation => "Take you to a room, message, thread, person, space, screen or another mini-app."@,
        Permission::RobrixComposer => "Put a draft in this room's message box for you to review and send. Nothing is sent by the app."@,
        Permission::RobrixUi => "Resize, move, minimize or break out its pane, badge its tab, and ask for keyboard focus."@,
        Permission::RobrixPreferences => "Know display settings like view mode, zoom and theme so the app can match Robrix."@,
        Permission::RobrixObserve => "Be told which room or screen you switch to."@,
    }
}

/// The prompting tier of a group.
pub open spec fn perm_tier(p: Permission) -> Tier {
    match p {
        Permission::Network => Tier::Runtime,
        Permission::Location => Tier::Runtime,
        Permission::Notifications => Tier::Runtime,
        Permission::ClipboardRead => Tier::Runtime,
        Permission::Ipc => Tier::Runtime,
        Permission::MatrixRoomRead => Tier::Runtime,
        Permission::MatrixRoomSend => Tier::Runtime,
        Permission::ClipboardWrite => Tier::Normal,
        Permission::OpenUrl => Tier::Normal,
        Permission::Files => Tier::Normal,
        Permission::Share => Tier::Normal,
        Permission::Auth => Tier::Normal,
        Permission::MatrixRoomInfo => Tier::Normal,
        Permission::MatrixProfile => Tier::Normal,
        Permission::DeviceInfo => Tier::Normal,
        Permission::Camera => Tier::Runtime,
        Permission::Microphone => Tier::Runtime,
        Permission::MatrixAccountRead => Tier::Runtime,
        Permission::MatrixAccountWrite => Tier::Runtime,
        Permission::MatrixUsers => Tier::Runtime,
        Permission::MatrixRoomWatch => Tier::Runtime,
        Permission::MatrixRoomInteract => Tier::Runtime,
        Permission::MatrixRoomAppData => Tier::Runtime,
        Permission::MatrixRoomManage => Tier::Runtime,
        Permission::MatrixRoomInvite => Tier::Runtime,
        Permission::MatrixMedia => Tier::Runtime,
        Permission::MatrixRoomsList => Tier::Runtime,
        Permission::MatrixRoomsRead => Tier::Runtime,
        Permission::MatrixRoomsSend => Tier::Runtime,
        Permission::MatrixMembership => Tier::Runtime,
        Permission::MatrixSpaces => Tier::Runtime,
        Permission::RobrixNavigation => Tier::Runtime,
        Permission::RobrixComposer => Tier::Runtime,
        Permission::RobrixUi => Tier::Runtime,
        Permission::RobrixPreferences => Tier::Normal,
        Permission::RobrixObserve => Tier::Runtime,
    }
}

impl Permission {
    /// The group at position `i` in declaration order.
    pub fn at(i: usize) -> (p: Permission)
        requires
            i < PERMISSION_COUNT,
        ensures
            p == perm_at(i as int),
    {
        match i {
            0 => Permission::Network,
            1 => Permission::Location,
            2 => Permission::Notifications,
            3 => Permission::ClipboardRead,
            4 => Permission::Ipc,
            5 => Permission::MatrixRoomRead,
            6 => Permission::MatrixRoomSend,
            7 => Permission::ClipboardWrite,
            8 => Permission::OpenUrl,
            9 => Permission::Files,
            10 => Permission::Share,
            11 => Permission::Auth,
            12 => Permission::MatrixRoomInfo,
            13 => Permission::MatrixProfile,
            14 => Permission::DeviceInfo,
            15 => Permission::Camera,
            16 => Permission::Microphone,
            17 => Permission::MatrixAccountRead,
            18 => Permission::MatrixAccountWrite,
            19 => Permission::MatrixUsers,
            20 => Permission::MatrixRoomWatch,
            21 => Permission::MatrixRoomInteract,
            22 => Permission::MatrixRoomAppData,
            23 => Permission::MatrixRoomManage,
            24 => Permission::MatrixRoomInvite,
            25 => Permission::MatrixMedia,
            26 => Permission::MatrixRoomsList,
            27 => Permission::MatrixRoomsRead,
            28 => Permission::MatrixRoomsSend,
            29 => Permission::MatrixMembership,
            30 => Permission::MatrixSpaces,
            31 => Permission::RobrixNavigation,
            32 => Permission::RobrixComposer,
            33 => Permission::RobrixUi,
            34 => Permission::RobrixPreferences,
            _ => Permission::RobrixObserve,
        }
    }

    /// Every group, in declaration order.
    pub fn all() -> (v: Vec<Permission>)
        ensures
            v@ == all_perms(),
    {
        let mut v: Vec<Permission> = Vec::new();
        let mut i: usize = 0;
        while i < PERMISSION_COUNT
            invariant
                i <= PERMISSION_COUNT,
                v@ == all_perms().take(i as int),
            decreases PERMISSION_COUNT - i,
        {
            v.push(Permission::at(i));
            i = i + 1;
            assert(v@ =~= all_perms().take(i as int));
        }
        assert(v@ =~= all_perms());
        v
    }

    /// The stable kebab-case id.
    pub fn as_str(self) -> (s: &'static str)
        ensures
            s@ == perm_id(self),
    {
        match self {
            Permission::Network => "network",
            Permission::Location => "location",
            Permission::Notifications => "notifications",
            Permission::ClipboardRead => "clipboard-read",
            Permission::Ipc => "ipc",
            Permission::MatrixRoomRead => "matrix-room-read",
            Permission::MatrixRoomSend => "matrix-room-send",
            Permission::ClipboardWrite => "clipboard-write",
            Permission::OpenUrl => "open-url",
            Permission::Files => "files",
            Permission::Share => "share",
            Permission::Auth => "auth",
            Permission::MatrixRoomInfo => "matrix-room-info",
            Permission::MatrixProfile => "matrix-profile",
            Permission::DeviceInfo => "device-info",
            Permission::Camera => "camera",
            Permission::Microphone => "microphone",
            Permission::MatrixAccountRead => "matrix-account-read",
            Permission::MatrixAccountWrite => "matrix-account-write",
            Permission::MatrixUsers => "matrix-users",
            Permission::MatrixRoomWatch => "matrix-room-watch",
            Permission::MatrixRoomInteract => "matrix-room-interact",
            Permission::MatrixRoomAppData => "matrix-room-app-data",
            Permission::MatrixRoomManage => "matrix-room-manage",
            Permission::MatrixRoomInvite => "matrix-room-invite",
            Permission::MatrixMedia => "matrix-media",
            Permission::MatrixRoomsList => "matrix-rooms-list",
            Permission::MatrixRoomsRead => "matrix-rooms-read",
            Permission::MatrixRoomsSend => "matrix-rooms-send",
            Permission::MatrixMembership => "matrix-membership",
            Permission::MatrixSpaces => "matrix-spaces",
            Permission::RobrixNavigation => "robrix-navigation",
            Permission::RobrixComposer => "robrix-composer",
            Permission::RobrixUi => "robrix-ui",
            Permission::RobrixPreferences => "robrix-preferences",
            Permission::RobrixObserve => "robrix-observe",
        }
    }

    /// The prompting tier.
    pub fn tier(self) -> (t: Tier)
        ensures
            t == perm_tier(self),
    {
        match self {
            Permission::Network => Tier::Runtime,
            Permission::Location => Tier::Runtime,
            Permission::Notifications => Tier::Runtime,
            Permission::ClipboardRead => Tier::Runtime,
            Permission::Ipc => Tier::Runtime,
            Permission::MatrixRoomRead => Tier::Runtime,
            Permission::MatrixRoomSend => Tier::Runtime,
            Permission::ClipboardWrite => Tier::Normal,
            Permission::OpenUrl => Tier::Normal,
            Permission::Files => Tier::Normal,
            Permission::Share => Tier::Normal,
            Permission::Auth => Tier::Normal,
            Permission::MatrixRoomInfo => Tier::Normal,
            Permission::MatrixProfile => Tier::Normal,
            Permission::DeviceInfo => Tier::Normal,
            Permission::Camera => Tier::Runtime,
            Permission::Microphone => Tier::Runtime,
            Permission::MatrixAccountRead => Tier::Runtime,
            Permission::MatrixAccountWrite => Tier::Runtime,
            Permission::MatrixUsers => Tier::Runtime,
            Permission::MatrixRoomWatch => Tier::Runtime,
            Permission::MatrixRoomInteract => Tier::Runtime,
            Permission::MatrixRoomAppData => Tier::Runtime,
            Permission::MatrixRoomManage => Tier::Runtime,
            Permission::MatrixRoomInvite => Tier::Runtime,
            Permission::MatrixMedia => Tier::Runtime,
            Permission::MatrixRoomsList => Tier::Runtime,
            Permission::MatrixRoomsRead => Tier::Runtime,
            Permission::MatrixRoomsSend => Tier::Runtime,
            Permission::MatrixMembership => Tier::Runtime,
            Permission::MatrixSpaces => Tier::Runtime,
            Permission::RobrixNavigation => Tier::Runtime,
            Permission::RobrixComposer => Tier::Runtime,
            Permission::RobrixUi => Tier::Runtime,
            Permission::RobrixPreferences => Tier::Normal,
            Permission::RobrixObserve => Tier::Runtime,
        }
    }

    /// Short human name for rows and prompts.
    pub fn title(self) -> (s: &'static str)
        ensures
            s@ == perm_title(self),
    {
        match self {
            Permission::Network => "Network",
            Permission::Location => "Location",
            Permission::Notifications => "Notifications",
            Permission::ClipboardRead => "Read Clipboard",
            Permission::Ipc => "App Messaging",
            Permission::MatrixRoomRead => "Read room content",
            Permission::MatrixRoomSend => "Send room messages",
            Permission::ClipboardWrite => "Write Clipboard",
            Permission::OpenUrl => "Open Links",
            Permission::Files => "Files",
            Permission::Share => "Share",
            Permission::Auth => "Authentication",
            Permission::MatrixRoomInfo => "Room details",
            Permission::MatrixProfile => "Your identity",
            Permission::DeviceInfo => "Device details",
            Permission::Camera => "Camera",
            Permission::Microphone => "Microphone",
            Permission::MatrixAccountRead => "Your account details",
            Permission::MatrixAccountWrite => "Change your account",
            Permission::MatrixUsers => "Look up people",
            Permission::MatrixRoomWatch => "Watch this room live",
            Permission::MatrixRoomInteract => "React in this room",
            Permission::MatrixRoomAppData => "Sync app data in this room",
            Permission::MatrixRoomManage => "Manage this room",
            Permission::MatrixRoomInvite => "Invite to this room",
            Permission::MatrixMedia => "Media",
            Permission::MatrixRoomsList => "Your room list",
            Permission::MatrixRoomsRead => "Read other rooms",
            Permission::MatrixRoomsSend => "Send to other rooms",
            Permission::MatrixMembership => "Join, leave and start chats",
            Permission::MatrixSpaces => "Spaces",
            Permission::RobrixNavigation => "Navigate Robrix",
            Permission::RobrixComposer => "Prepare messages",
            Permission::RobrixUi => "Its own pane",
            Permission::RobrixPreferences => "Robrix settings",
            Permission::RobrixObserve => "Watch what you're doing",
        }
    }

    /// The emoji drawn beside the group.
    pub fn glyph(self) -> (s: &'static str)
        ensures
            s@ == perm_glyph(self),
    {
        match self {
            Permission::Network => "🌐",
            Permission::Location => "📍",
            Permission::Notifications => "🔔",
            Permission::ClipboardRead => "📋",
            Permission::Ipc => "✉️",
            Permission::MatrixRoomRead => "📖",
            Permission::MatrixRoomSend => "💬",
            Permission::ClipboardWrite => "📋",
            Permission::OpenUrl => "🔗",
            Permission::Files => "📁",
            Permission::Share => "📤",
            Permission::Auth => "🔒",
            Permission::MatrixRoomInfo => "🏷",
            Permission::MatrixProfile => "👤",
            Permission::DeviceInfo => "📱",
            Permission::Camera => "📷",
            Permission::Microphone => "🎙",
            Permission::MatrixAccountRead => "🪪",
            Permission::MatrixAccountWrite => "✏️",
            Permission::MatrixUsers => "🧑‍🤝‍🧑",
            Permission::MatrixRoomWatch => "👁",
            Permission::MatrixRoomInteract => "👍",
            Permission::MatrixRoomAppData => "🧩",
            Permission::MatrixRoomManage => "🛠",
            Permission::MatrixRoomInvite => "➕",
            Permission::MatrixMedia => "🖼",
            Permission::MatrixRoomsList => "🗂",
            Permission::MatrixRoomsRead => "📚",
            Permission::MatrixRoomsSend => "📣",
            Permission::MatrixMembership => "🚪",
            Permission::MatrixSpaces => "🌌",
            Permission::RobrixNavigation => "🧭",
            Permission::RobrixComposer => "⌨️",
            Permission::RobrixUi => "🪟",
            Permission::RobrixPreferences => "⚙️",
            Permission::RobrixObserve => "📡",
        }
    }

    /// What granting actually means, in the user's terms; shown on the prompt
    /// and under the app's permission rows.
    pub fn blurb(self) -> (s: &'static str)
        ensures
            s@ == perm_blurb(self),
    {
        match self {
            Permission::Network => "Connect to the internet to fetch and send data.",
            Permission::Location => "See your approximate location.",
            Permission::Notifications => "Show popup notifications from this app.",
            Permission::ClipboardRead => "Read whatever is on your clipboard.",
            Permission::Ipc => "Send messages to your other mini-apps.",
            Permission::MatrixRoomRead => "Read this room's messages, members, pins, and threads.",
            Permission::MatrixRoomSend => "Send messages to this room as you.",
            Permission::ClipboardWrite => "Put text on your clipboard.",
            Permission::OpenUrl => "Open web links in your browser.",
            Permission::Files => "Open and save files you pick in the system dialog.",
            Permission::Share => "Open the system share sheet.",
            Permission::Auth => "Ask you to authenticate (Touch ID / password).",
            Permission::MatrixRoomInfo => "See this room's name, topic, and member count.",
            Permission::MatrixProfile => "Know your Matrix display name and user ID.",
            Permission::DeviceInfo => "Low-sensitivity facts about this device and connection: platform, locale, time zone, online/offline, sync state.",
            Permission::Camera => "Take a photo through the system camera.",
            Permission::Microphone => "Record an audio clip through the system recorder.",
            Permission::MatrixAccountRead => "See this device's ID and verification state, your homeserver, and app-owned account settings.",
            Permission::MatrixAccountWrite => "Change your display name or avatar, block people, or store app settings on your account. Asks every time and is off unless 'Apps may change your account' is on.",
            Permission::MatrixUsers => "Fetch other Matrix users' public profiles and find existing chats with them.",
            Permission::MatrixRoomWatch => "Be told as messages, edits, reactions, typing, receipts, joins and mentions happen in this room.",
            Permission::MatrixRoomInteract => "React, show typing, and mark this room read as you. Off unless 'Apps may write to rooms' is on.",
            Permission::MatrixRoomAppData => "Store and read this app's own data as events in this room so everyone using it sees the same state. Saving is off unless 'Apps may write to rooms' is on.",
            Permission::MatrixRoomManage => "Pin messages, favorite this room, flag it unread, or change its settings. Writes are off unless 'Apps may write to rooms' is on.",
            Permission::MatrixRoomInvite => "Invite people to this room as you. Asks every time and is off unless 'Apps may change room membership' is on.",
            Permission::MatrixMedia => "Fetch images and files from this room, get link previews, and upload files to your homeserver.",
            Permission::MatrixRoomsList => "See which rooms, DMs and invites you have with unread counts, and be told when that changes.",
            Permission::MatrixRoomsRead => "Read rooms you pick beyond the one this app is attached to.",
            Permission::MatrixRoomsSend => "Post to rooms you pick, as you. Asks every time and is off unless 'Apps may write to rooms' is on.",
            Permission::MatrixMembership => "Join rooms, answer invites, open direct messages, or leave this room as you. Asks every time and is off unless 'Apps may change room membership' is on.",
            Permission::MatrixSpaces => "See your spaces and the rooms inside them.",
            Permission::RobrixNavigation => "Take you to a room, message, thread, person, space, screen or another mini-app.",
            Permission::RobrixComposer => "Put a draft in this room's message box for you to review and send. Nothing is sent by the app.",
            Permission::RobrixUi => "Resize, move, minimize or break out its pane, badge its tab, and ask for keyboard focus.",
            Permission::RobrixPreferences => "Know display settings like view mode, zoom and theme so the app can match Robrix.",
            Permission::RobrixObserve => "Be told which room or screen you switch to.",
        }
    }

    /// The group with this id, if any. Unknown ids (including ones dropped
    /// from earlier builds) have none.
    pub fn from_str(s: &str) -> (r: Option<Permission>)
        ensures
            match r {
                Some(p) => perm_id(p) == s@,
                None => forall|p: Permission| perm_id(p) != s@,
            },
    {
        let sv = chars_of(s);
        let mut i: usize = 0;
        while i < PERMISSION_COUNT
            invariant
                i <= PERMISSION_COUNT,
                sv@ == s@,
                forall|j: int| 0 <= j < i ==> perm_id(#[trigger] perm_at(j)) != s@,
            decreases PERMISSION_COUNT - i,
        {
            let p = Permission::at(i);
            let pv = chars_of(p.as_str());
            if chars_eq(pv.as_slice(), sv.as_slice()) {
                return Some(p);
            }
            i = i + 1;
        }
        proof {
            assert forall|p: Permission| perm_id(p) != s@ by {
                lemma_perm_index(p);
                assert(perm_id(perm_at(perm_index(p))) != s@);
            }
        }
        None
    }
}

/// A few characters of each id, enough to tell any two apart.
spec fn perm_sig(p: Permission) -> (int, char, char) {
    match p {
        Permission::Network => (7, ' ', 'r'),
        Permission::Location => (8, 'n', 'o'),
        Permission::Notifications => (13, 'a', 'n'),
        Permission::ClipboardRead => (14, 'r', 'a'),
        Permission::Ipc => (3, ' ', 'p'),
        Permission::MatrixRoomRead => (16, 'r', 'a'),
        Permission::MatrixRoomSend => (16, 'r', 'n'),
        Permission::ClipboardWrite => (15, 'r', 't'),
        Permission::OpenUrl => (8, 'l', 'r'),
        Permission::Files => (5, ' ', 'e'),
        Permission::Share => (5, ' ', 'r'),
        Permission::Auth => (4, ' ', 't'),
        Permission::MatrixRoomInfo => (16, 'r', 'f'),
        Permission::MatrixProfile => (14, 'p', 'l'),
        Permission::DeviceInfo => (11, 'i', 'f'),
        Permission::Camera => (6, ' ', 'r'),
        Permission::Microphone => (10, 'o', 'n'),
        Permission::MatrixAccountRead => (19, 'a', 'a'),
        Permission::MatrixAccountWrite => (20, 'a', 't'),
        Permission::MatrixUsers => (12, 'u', 'r'),
        Permission::MatrixRoomWatch => (17, 'r', 'c'),
        Permission::MatrixRoomInteract => (20, 'r', 'c'),
        Permission::MatrixRoomAppData => (20, 'r', 't'),
        Permission::MatrixRoomManage => (18, 'r', 'g'),
        Permission::MatrixRoomInvite => (18, 'r', 't'),
        Permission::MatrixMedia => (12, 'm', 'i'),
        Permission::MatrixRoomsList => (17, 'r', 's'),
        Permission::MatrixRoomsRead => (17, 'r', 'a'),
        Permission::MatrixRoomsSend => (17, 'r', 'n'),
        Permission::MatrixMembership => (17, 'm', 'i'),
        Permission::MatrixSpaces => (13, 's', 'e'),
        Permission::RobrixNavigation => (17, 'n', 'o'),
        Permission::RobrixComposer => (15, 'c', 'e'),
        Permission::RobrixUi => (9, 'u', 'u'),
        Permission::RobrixPreferences => (18, 'p', 'e'),
        Permission::RobrixObserve => (14, 'o', 'v'),
    }
}

proof fn lemma_perm_sig(p: Permission)
    ensures
        perm_id(p).len() == perm_sig(p).0,
        perm_id(p).len() > 7 ==> perm_id(p)[7] == perm_sig(p).1,
        perm_id(p)[perm_id(p).len() - 2] == perm_sig(p).2,
{
    match p {
        Permission::Network => { reveal_strlit("network"); }
        Permission::Location => { reveal_strlit("location"); }
        Permission::Notifications => { reveal_strlit("notifications"); }
        Permission::ClipboardRead => { reveal_strlit("clipboard-read"); }
        Permission::Ipc => { reveal_strlit("ipc"); }
        Permission::MatrixRoomRead => { reveal_strlit("matrix-room-read"); }
        Permission::MatrixRoomSend => { reveal_strlit("matrix-room-send"); }
        Permission::ClipboardWrite => { reveal_strlit("clipboard-write"); }
        Permission::OpenUrl => { reveal_strlit("open-url"); }
        Permission::Files => { reveal_strlit("files"); }
        Permission::Share => { reveal_strlit("share"); }
        Permission::Auth => { reveal_strlit("auth"); }
        Permission::MatrixRoomInfo => { reveal_strlit("matrix-room-info"); }
        Permission::MatrixProfile => { reveal_strlit("matrix-profile"); }
        Permission::DeviceInfo => { reveal_strlit("device-info"); }
        Permission::Camera => { reveal_strlit("camera"); }
        Permission::Microphone => { reveal_strlit("microphone"); }
        Permission::MatrixAccountRead => { reveal_strlit("matrix-account-read"); }
        Permission::MatrixAccountWrite => { reveal_strlit("matrix-account-write"); }
        Permission::MatrixUsers => { reveal_strlit("matrix-users"); }
        Permission::MatrixRoomWatch => { reveal_strlit("matrix-room-watch"); }
        Permission::MatrixRoomInteract => { reveal_strlit("matrix-room-interact"); }
        Permission::MatrixRoomAppData => { reveal_strlit("matrix-room-app-data"); }
        Permission::MatrixRoomManage => { reveal_strlit("matrix-room-manage"); }
        Permission::MatrixRoomInvite => { reveal_strlit("matrix-room-invite"); }
        Permission::MatrixMedia => { reveal_strlit("matrix-media"); }
        Permission::MatrixRoomsList => { reveal_strlit("matrix-rooms-list"); }
        Permission::MatrixRoomsRead => { reveal_strlit("matrix-rooms-read"); }
        Permission::MatrixRoomsSend => { reveal_strlit("matrix-rooms-send"); }
        Permission::MatrixMembership => { reveal_strlit("matrix-membership"); }
        Permission::MatrixSpaces => { reveal_strlit("matrix-spaces"); }
        Permission::RobrixNavigation => { reveal_strlit("robrix-navigation"); }
        Permission::RobrixComposer => { reveal_strlit("robrix-composer"); }
        Permission::RobrixUi => { reveal_strlit("robrix-ui"); }
        Permission::RobrixPreferences => { reveal_strlit("robrix-preferences"); }
        Permission::RobrixObserve => { reveal_strlit("robrix-observe"); }
    }
}

proof fn lemma_perm_sig_distinct(p: Permission, q: Permission)
    requires
        p != q,
    ensures
        perm_sig(p).0 != perm_sig(q).0 || (perm_sig(p).0 > 7 && perm_sig(p).1 != perm_sig(q).1)
            || perm_sig(p).2 != perm_sig(q).2,
{
}

/// No two groups share an id.
pub proof fn lemma_perm_ids_distinct(p: Permission, q: Permission)
    requires
        p != q,
    ensures
        perm_id(p) != perm_id(q),
{
    lemma_perm_sig(p);
    lemma_perm_sig(q);
    lemma_perm_sig_distinct(p, q);
}

} // verus!
