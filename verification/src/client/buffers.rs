//! Buffers — every "view" in the client is a Buffer. Two kinds exist: the
//! room timeline (also used for direct messages) and the help page.

use vstd::prelude::*;
use vstd::string::StringExecFns;

use crate::client::keys::{KeyCode, KeyEvent};
use crate::proto::{Message, MessageBody, RoomId};
use crate::text::{contains_seq, lowercase, lowercase_string, str_contains};

verus! {

#[derive(Debug, Clone, Copy, PartialEq, Eq, Structural)]
pub enum RoomKind {
    Standard,
    Direct,
}

#[derive(Debug, Clone, PartialEq, Eq)]
pub struct RepoBinding {
    pub repo_name: String,
    pub subpath: Option<String>,
}

#[derive(Debug, Clone, Copy, PartialEq, Eq, Structural)]
pub enum BufferKind {
    Room,
    DirectMessage,
    Pins,
    Files,
    Notez,
    Todos,
    Users,
    Help,
    Settings,
}

/// Where the timeline viewport sits: how far it is scrolled up from the
/// newest message, and whether it follows new messages.
#[derive(Debug, Clone, Copy, PartialEq, Eq, Structural)]
pub struct ScrollState {
    pub offset_from_bottom: u16,
    pub stuck_to_bottom: bool,
}

/// A viewport at the bottom that follows new messages.
pub open spec fn at_bottom() -> ScrollState {
    ScrollState { offset_from_bottom: 0, stuck_to_bottom: true }
}

/// The viewport after a new message arrives: it stays put when scrolled up,
/// and stays at the bottom when it was following.
pub open spec fn after_new_message(s: ScrollState) -> ScrollState {
    if s.stuck_to_bottom {
        ScrollState { offset_from_bottom: 0, ..s }
    } else {
        s
    }
}

impl ScrollState {
    /// A viewport that follows the newest message never sits above it.
    pub open spec fn inv(self) -> bool {
        self.stuck_to_bottom ==> self.offset_from_bottom == 0
    }

    pub fn new() -> (r: Self)
        ensures
            r == at_bottom(),
    {
        ScrollState { offset_from_bottom: 0, stuck_to_bottom: true }
    }

    /// Scroll up ten lines; the viewport stops following new messages.
    pub fn page_up(&mut self)
        ensures
            final(self).offset_from_bottom == old(self).offset_from_bottom.saturating_add(10),
            !final(self).stuck_to_bottom,
    {
        self.offset_from_bottom = self.offset_from_bottom.saturating_add(10);
        self.stuck_to_bottom = false;
    }

    /// Scroll down ten lines; reaching the bottom makes the viewport follow again.
    pub fn page_down(&mut self)
        ensures
            final(self).offset_from_bottom == old(self).offset_from_bottom.saturating_sub(10),
            final(self).stuck_to_bottom == (old(self).stuck_to_bottom
                || final(self).offset_from_bottom == 0),
    {
        self.offset_from_bottom = self.offset_from_bottom.saturating_sub(10);
        if self.offset_from_bottom == 0 {
            self.stuck_to_bottom = true;
        }
    }

    pub fn to_bottom(&mut self)
        ensures
            *final(self) == at_bottom(),
    {
        self.offset_from_bottom = 0;
        self.stuck_to_bottom = true;
    }

    pub fn to_top(&mut self)
        ensures
            final(self).offset_from_bottom == u16::MAX,
            !final(self).stuck_to_bottom,
    {
        self.offset_from_bottom = u16::MAX;
        self.stuck_to_bottom = false;
    }

    pub fn stick_to_bottom_if_was(&mut self)
        ensures
            *final(self) == after_new_message(*old(self)),
    {
        if self.stuck_to_bottom {
            self.offset_from_bottom = 0;
        }
    }
}

impl Default for ScrollState {
    fn default() -> (r: Self)
        ensures
            r == at_bottom(),
    {
        Self::new()
    }
}

/// Every operation on a viewport keeps it consistent: one that follows new
/// messages sits at the bottom.
pub proof fn lemma_scroll_ops_keep_inv(s: ScrollState)
    requires
        s.inv(),
    ensures
        at_bottom().inv(),
        after_new_message(s).inv(),
        (ScrollState { offset_from_bottom: s.offset_from_bottom.saturating_add(10), stuck_to_bottom: false }).inv(),
        ({
            let o = s.offset_from_bottom.saturating_sub(10);
            ScrollState { offset_from_bottom: o, stuck_to_bottom: s.stuck_to_bottom || o == 0 }
        }).inv(),
        (ScrollState { offset_from_bottom: u16::MAX, stuck_to_bottom: false }).inv(),
{
}

/// Scrolling a page up and then a page down returns to the same place when
/// the page up did not hit the top.
pub proof fn lemma_page_up_then_down(s: ScrollState)
    requires
        s.offset_from_bottom <= u16::MAX - 10,
    ensures
        s.offset_from_bottom.saturating_add(10).saturating_sub(10) == s.offset_from_bottom,
{
}

/// Chat timeline for a single Room (or DM).
pub struct RoomTimelineBuffer {
    pub room_id: RoomId,
    pub display_name: String,
    pub kind: RoomKind,
    pub repo_binding: Option<RepoBinding>,
    pub topic: Option<String>,
    pub messages: Vec<Message>,
    pub scroll: ScrollState,
    /// Used for mention detection. Set from the identity at construction.
    pub self_display_name: String,
}

/// `b` is `a` with the same room details (everything but messages and scroll).
pub open spec fn same_room(a: RoomTimelineBuffer, b: RoomTimelineBuffer) -> bool {
    &&& b.room_id == a.room_id
    &&& b.display_name == a.display_name
    &&& b.kind == a.kind
    &&& b.repo_binding == a.repo_binding
    &&& b.topic == a.topic
    &&& b.self_display_name == a.self_display_name
}

/// The text of a message body, whatever its kind.
pub open spec fn body_content(b: MessageBody) -> Seq<char> {
    b.content_view()
}

/// The line a message shows as in the timeline:
/// `<author> text`, `* author action` or `-- system: text`.
pub open spec fn timeline_line(m: Message) -> Seq<char> {
    match m.body {
        MessageBody::Text { content } => "<"@ + m.author_display_name@ + "> "@ + content@,
        MessageBody::Action { content } => "* "@ + m.author_display_name@ + " "@ + content@,
        MessageBody::System { content } => "-- system: "@ + content@,
    }
}

/// The needle that marks a mention of `name`: `@name`, lowercased.
pub open spec fn mention_needle(name: Seq<char>) -> Seq<char> {
    lowercase(seq!['@'] + name)
}

/// The text of a body (the content of any kind of body).
pub fn body_text(body: &MessageBody) -> (r: &String)
    ensures
        r@ == body_content(*body),
{
    match body {
        MessageBody::Text { content } => content,
        MessageBody::System { content } => content,
        MessageBody::Action { content } => content,
    }
}

/// The timeline line of a message.
pub fn timeline_line_of(m: &Message) -> (r: String)
    ensures
        r@ == timeline_line(*m),
{
    match &m.body {
        MessageBody::Text { content } => {
            let mut s = String::from_str("<");
            s.append(m.author_display_name.as_str());
            s.append("> ");
            s.append(content.as_str());
            s
        },
        MessageBody::Action { content } => {
            let mut s = String::from_str("* ");
            s.append(m.author_display_name.as_str());
            s.append(" ");
            s.append(content.as_str());
            s
        },
        MessageBody::System { content } => {
            let mut s = String::from_str("-- system: ");
            s.append(content.as_str());
            s
        },
    }
}

impl RoomTimelineBuffer {
    pub fn new(room_id: RoomId, display_name: String, kind: RoomKind, self_display_name: String) -> (r: Self)
        ensures
            r.room_id == room_id,
            r.display_name == display_name,
            r.kind == kind,
            r.repo_binding is None,
            r.topic is None,
            r.messages@.len() == 0,
            r.scroll == at_bottom(),
            r.self_display_name == self_display_name,
    {
        RoomTimelineBuffer {
            room_id,
            display_name,
            kind,
            repo_binding: None,
            topic: None,
            messages: Vec::new(),
            scroll: ScrollState::new(),
            self_display_name,
        }
    }

    /// Append a message; the viewport follows it if it was following.
    pub fn push_message(&mut self, msg: Message)
        ensures
            same_room(*old(self), *final(self)),
            final(self).messages@ == old(self).messages@.push(msg),
            final(self).scroll == after_new_message(old(self).scroll),
    {
        self.messages.push(msg);
        self.scroll.stick_to_bottom_if_was();
    }

    pub fn title(&self) -> (r: &str)
        ensures
            r@ == self.display_name@,
    {
        self.display_name.as_str()
    }

    pub fn kind(&self) -> (r: BufferKind)
        ensures
            r == (match self.kind {
                RoomKind::Standard => BufferKind::Room,
                RoomKind::Direct => BufferKind::DirectMessage,
            }),
    {
        match self.kind {
            RoomKind::Standard => BufferKind::Room,
            RoomKind::Direct => BufferKind::DirectMessage,
        }
    }

    /// Whether the message mentions this user: its text contains `@` and the
    /// user's display name, compared case-insensitively.
    pub fn mentions_self(&self, msg: &Message) -> (r: bool)
        ensures
            r == contains_seq(lowercase(body_content(msg.body)), mention_needle(self.self_display_name@)),
            r == contains_seq(
                lowercase(body_content(msg.body)),
                lowercase(seq!['@'] + self.self_display_name@),
            ),
    {
        let mut needle = String::from_str("@");
        needle.append(self.self_display_name.as_str());
        proof {
            reveal_strlit("@");
        }
        assert(needle@ =~= seq!['@'] + self.self_display_name@);
        let needle_lower = lowercase_string(needle.as_str());
        let hay = lowercase_string(body_text(&msg.body).as_str());
        str_contains(hay.as_str(), needle_lower.as_str())
    }

    /// The timeline lines of the messages, oldest first.
    pub fn timeline_lines(&self) -> (r: Vec<String>)
        ensures
            r@.len() == self.messages@.len(),
            forall|i: int| 0 <= i < r@.len() ==> (#[trigger] r@[i])@ == timeline_line(self.messages@[i]),
    {
        let mut out: Vec<String> = Vec::new();
        let mut k: usize = 0;
        while k < self.messages.len()
            invariant
                k <= self.messages@.len(),
                out@.len() == k,
                forall|i: int| 0 <= i < k ==> (#[trigger] out@[i])@ == timeline_line(self.messages@[i]),
            decreases self.messages@.len() - k,
        {
            out.push(timeline_line_of(&self.messages[k]));
            k = k + 1;
        }
        out
    }

    /// Page up/down, Home and End scroll the timeline; other keys are not handled.
    pub fn handle_key(&mut self, key: KeyEvent) -> (handled: bool)
        ensures
            same_room(*old(self), *final(self)),
            final(self).messages == old(self).messages,
            handled == (room_scroll_after(old(self).scroll, key) is Some),
            final(self).scroll == match room_scroll_after(old(self).scroll, key) {
                Some(s) => s,
                None => old(self).scroll,
            },
    {
        match key.code {
            KeyCode::PageUp => {
                self.scroll.page_up();
                true
            },
            KeyCode::PageDown => {
                self.scroll.page_down();
                true
            },
            KeyCode::Home => {
                self.scroll.to_top();
                true
            },
            KeyCode::End => {
                self.scroll.to_bottom();
                true
            },
            _ => false,
        }
    }
}

/// The timeline viewport after a key, or `None` when the key is not handled:
/// Page Up/Down scroll ten lines (reaching the bottom makes it follow again),
/// Home goes to the top, End to the bottom.
pub open spec fn room_scroll_after(s: ScrollState, key: KeyEvent) -> Option<ScrollState> {
    match key.code {
        KeyCode::PageUp => Some(
            ScrollState {
                offset_from_bottom: s.offset_from_bottom.saturating_add(10),
                stuck_to_bottom: false,
            },
        ),
        KeyCode::PageDown => {
            let o = s.offset_from_bottom.saturating_sub(10);
            Some(ScrollState { offset_from_bottom: o, stuck_to_bottom: s.stuck_to_bottom || o == 0 })
        },
        KeyCode::Home => Some(ScrollState { offset_from_bottom: u16::MAX, stuck_to_bottom: false }),
        KeyCode::End => Some(at_bottom()),
        _ => None,
    }
}

/// The room keys move the viewport as the page and jump operations do:
/// PageUp goes ten lines further up (stopping at the top of the range) and
/// stops following new messages; PageDown comes ten lines back down
/// (stopping at the bottom), following again once at the bottom; Home goes
/// to the very top; End returns to the bottom and follows. Other keys are
/// not the room's.
pub proof fn lemma_room_keys_scroll(s: ScrollState, key: KeyEvent)
    ensures
        key.code == KeyCode::PageUp ==> (room_scroll_after(s, key) matches Some(t) && {
            &&& t.offset_from_bottom >= s.offset_from_bottom
            &&& t.offset_from_bottom == if s.offset_from_bottom + 10 > u16::MAX {
                u16::MAX as int
            } else {
                s.offset_from_bottom + 10
            }
            &&& !t.stuck_to_bottom
        }),
        key.code == KeyCode::PageDown ==> (room_scroll_after(s, key) matches Some(t) && {
            &&& t.offset_from_bottom <= s.offset_from_bottom
            &&& t.offset_from_bottom == if s.offset_from_bottom < 10 {
                0
            } else {
                s.offset_from_bottom - 10
            }
            &&& t.stuck_to_bottom == (s.stuck_to_bottom || t.offset_from_bottom == 0)
        }),
        key.code == KeyCode::Home ==> (room_scroll_after(s, key) matches Some(t)
            && t.offset_from_bottom == u16::MAX && !t.stuck_to_bottom),
        key.code == KeyCode::End ==> (room_scroll_after(s, key) matches Some(t)
            && t.offset_from_bottom == 0 && t.stuck_to_bottom),
        !(key.code == KeyCode::PageUp || key.code == KeyCode::PageDown || key.code
            == KeyCode::Home || key.code == KeyCode::End) ==> room_scroll_after(s, key) is None,
{
}

/// A text that reads `@` and then a user's name mentions that user: the
/// mention needle occurs in the lowercased text, whatever the case mapping
/// makes of it.
pub proof fn lemma_at_name_is_mention(name: Seq<char>)
    ensures
        contains_seq(lowercase(seq!['@'] + name), mention_needle(name)),
        mention_needle(name) == lowercase(seq!['@'] + name),
{
    let hay = lowercase(seq!['@'] + name);
    let needle = mention_needle(name);
    let i: int = 0;
    assert(hay.subrange(i, i + needle.len()) =~= needle);
}

/// Static keybindings reference.
#[derive(Debug, Clone, Copy, PartialEq, Eq)]
pub struct HelpBuffer {
    pub scroll: u16,
}

/// The help page's scroll position after a key, or `None` when the key is not handled:
/// Ctrl+D / Ctrl+U scroll five lines, Up/`k` and Down/`j` (without Control)
/// one line, Home goes to the top. Scrolling saturates at both ends.
pub open spec fn help_scroll_after(scroll: u16, key: KeyEvent) -> Option<u16> {
    let ctrl = key.modifiers.control;
    match key.code {
        KeyCode::Char(c) => if c == 'd' && ctrl {
            Some(scroll.saturating_add(5))
        } else if c == 'u' && ctrl {
            Some(scroll.saturating_sub(5))
        } else if c == 'k' && !ctrl {
            Some(scroll.saturating_sub(1))
        } else if c == 'j' && !ctrl {
            Some(scroll.saturating_add(1))
        } else {
            None
        },
        KeyCode::Up => if !ctrl {
            Some(scroll.saturating_sub(1))
        } else {
            None
        },
        KeyCode::Down => if !ctrl {
            Some(scroll.saturating_add(1))
        } else {
            None
        },
        KeyCode::Home => Some(0),
        _ => None,
    }
}

impl HelpBuffer {
    pub fn new() -> (r: Self)
        ensures
            r.scroll == 0,
    {
        HelpBuffer { scroll: 0 }
    }

    pub fn title(&self) -> (r: &'static str)
        ensures
            r@ == "? help"@,
    {
        "? help"
    }

    pub fn handle_key(&mut self, key: KeyEvent) -> (handled: bool)
        ensures
            handled == (help_scroll_after(old(self).scroll, key) is Some),
            final(self).scroll == match help_scroll_after(old(self).scroll, key) {
                Some(s) => s,
                None => old(self).scroll,
            },
    {
        let ctrl = key.modifiers.control;
        match key.code {
            KeyCode::Char('d') if ctrl => {
                self.scroll = self.scroll.saturating_add(5);
                true
            },
            KeyCode::Char('u') if ctrl => {
                self.scroll = self.scroll.saturating_sub(5);
                true
            },
            KeyCode::Up if !ctrl => {
                self.scroll = self.scroll.saturating_sub(1);
                true
            },
            KeyCode::Char('k') if !ctrl => {
                self.scroll = self.scroll.saturating_sub(1);
                true
            },
            KeyCode::Down if !ctrl => {
                self.scroll = self.scroll.saturating_add(1);
                true
            },
            KeyCode::Char('j') if !ctrl => {
                self.scroll = self.scroll.saturating_add(1);
                true
            },
            KeyCode::Home => {
                self.scroll = 0;
                true
            },
            _ => false,
        }
    }
}

impl Default for HelpBuffer {
    fn default() -> (r: Self)
        ensures
            r.scroll == 0,
    {
        Self::new()
    }
}

pub enum Buffer {
    /// A room timeline (also used for DMs, with `kind == Direct`).
    Room(RoomTimelineBuffer),
    Help(HelpBuffer),
}

/// The kind of a buffer.
pub open spec fn buffer_kind(b: Buffer) -> BufferKind {
    match b {
        Buffer::Room(r) => match r.kind {
            RoomKind::Standard => BufferKind::Room,
            RoomKind::Direct => BufferKind::DirectMessage,
        },
        Buffer::Help(_) => BufferKind::Help,
    }
}

/// The title of a buffer.
pub open spec fn buffer_title(b: Buffer) -> Seq<char> {
    match b {
        Buffer::Room(r) => r.display_name@,
        Buffer::Help(_) => "? help"@,
    }
}

/// Whether the buffer uses the key.
pub open spec fn buffer_handles_key(b: Buffer, key: KeyEvent) -> bool {
    match b {
        Buffer::Room(r) => room_scroll_after(r.scroll, key) is Some,
        Buffer::Help(h) => help_scroll_after(h.scroll, key) is Some,
    }
}

/// `b` is buffer `a` after it handled `key`: only its scroll position moves.
pub open spec fn buffer_after_key(a: Buffer, b: Buffer, key: KeyEvent) -> bool {
    match (a, b) {
        (Buffer::Room(x), Buffer::Room(y)) => {
            &&& same_room(x, y)
            &&& y.messages == x.messages
            &&& y.scroll == match room_scroll_after(x.scroll, key) {
                Some(s) => s,
                None => x.scroll,
            }
        },
        (Buffer::Help(x), Buffer::Help(y)) => y.scroll == match help_scroll_after(x.scroll, key) {
            Some(s) => s,
            None => x.scroll,
        },
        _ => false,
    }
}

impl Buffer {
    pub fn is_room(&self) -> (r: bool)
        ensures
            r == (*self is Room),
    {
        match self {
            Buffer::Room(_) => true,
            Buffer::Help(_) => false,
        }
    }

    pub fn is_help(&self) -> (r: bool)
        ensures
            r == (*self is Help),
    {
        match self {
            Buffer::Room(_) => false,
            Buffer::Help(_) => true,
        }
    }

    pub fn title(&self) -> (r: &str)
        ensures
            r@ == buffer_title(*self),
    {
        match self {
            Buffer::Room(b) => b.title(),
            Buffer::Help(b) => b.title(),
        }
    }

    pub fn kind(&self) -> (r: BufferKind)
        ensures
            r == buffer_kind(*self),
    {
        match self {
            Buffer::Room(b) => b.kind(),
            Buffer::Help(_) => BufferKind::Help,
        }
    }

    /// Hand a key to the buffer; returns whether the buffer used it.
    pub fn handle_key(&mut self, key: KeyEvent) -> (handled: bool)
        ensures
            buffer_after_key(*old(self), *final(self), key),
            handled == buffer_handles_key(*old(self), key),
    {
        match self {
            Buffer::Room(b) => b.handle_key(key),
            Buffer::Help(b) => b.handle_key(key),
        }
    }
}

} // verus!
