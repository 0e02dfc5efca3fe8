//! App state machine — top-level state of the terminal client, and the
//! decisions taken on each key, effect and server frame.

use vstd::prelude::*;
use vstd::string::StringExecFns;

use crate::client::buffers::{
    after_new_message, at_bottom, buffer_after_key, same_room, Buffer, HelpBuffer, RoomKind,
    RoomTimelineBuffer, ScrollState,
};
use crate::client::keys::{KeyCode, KeyEvent};
use crate::client::layout::LayoutRects;
use crate::client::theme::{catppuccin_mocha, is_catppuccin_mocha, Theme};
use crate::commands::effect::{effects_view, Effect, EffectView};
use crate::commands::handlers::{args_view, handler_effects};
use crate::commands::parser::{parse_input, parse_spec, InputKind, ParsedInput};
use crate::commands::registry::{first_answering, is_registered, lookup, Command, HandlerContext};
use crate::proto::{
    CommandOutcome, DeviceId, Message, MessageBody, MessageId, ResponsePayload, RoomId,
    ServerEvent, ServerFrame, UserId,
};
use crate::clock::{clock_millis, read_clock};
use crate::text::{pop_char, push_char};

verus! {

#[derive(Debug, Clone, Copy, PartialEq, Eq, Structural)]
pub enum InputMode {
    Normal,
    Insert,
}

#[derive(Debug, Clone)]
pub enum ConnectionState {
    Connecting,
    Connected { server_url: String },
    Disconnected { reason: String },
}

#[derive(Debug, Clone)]
pub struct Identity {
    pub user_id: UserId,
    pub device_id: DeviceId,
    pub display_name: String,
}

#[derive(Debug, Clone, Copy, PartialEq, Eq, Structural)]
pub enum FocusedRegion {
    Sidebar,
    Tabs,
    Buffer,
    Input,
}

pub struct App {
    pub buffers: Vec<Buffer>,
    pub active: usize,
    pub sidebar_visible: bool,
    pub mode: InputMode,
    pub input_buffer: String,
    pub theme: Theme,
    pub connection: ConnectionState,
    pub identity: Identity,
    pub should_quit: bool,
    pub focus: FocusedRegion,
    pub sidebar_selected: Option<usize>,
    pub last_layout: Option<LayoutRects>,
}

/// The line shown when `/me` is used without a connection.
pub open spec fn not_connected_line() -> Seq<char> {
    "not connected — /me requires an active connection"@
}

/// The index of the first buffer satisfying `p`, if any.
pub open spec fn first_index(b: Seq<Buffer>, p: spec_fn(Buffer) -> bool) -> Option<int>
    decreases b.len(),
{
    if b.len() == 0 {
        None
    } else if p(b[0]) {
        Some(0)
    } else {
        match first_index(b.drop_first(), p) {
            Some(i) => Some(i + 1),
            None => None,
        }
    }
}

pub open spec fn is_room_buffer() -> spec_fn(Buffer) -> bool {
    |b: Buffer| b is Room
}

pub open spec fn is_help_buffer() -> spec_fn(Buffer) -> bool {
    |b: Buffer| b is Help
}

proof fn lemma_first_index(b: Seq<Buffer>, p: spec_fn(Buffer) -> bool, k: int)
    requires
        0 <= k <= b.len(),
        forall|j: int| 0 <= j < k ==> !p(#[trigger] b[j]),
    ensures
        k < b.len() && p(b[k]) ==> first_index(b, p) == Some(k),
        k == b.len() ==> first_index(b, p) is None,
    decreases k,
{
    if k > 0 {
        let t = b.drop_first();
        assert forall|j: int| 0 <= j < k - 1 implies !p(#[trigger] t[j]) by {
            assert(t[j] == b[j + 1]);
        }
        lemma_first_index(t, p, k - 1);
        if k < b.len() {
            assert(t[k - 1] == b[k]);
        }
    }
}

proof fn lemma_first_index_facts(b: Seq<Buffer>, p: spec_fn(Buffer) -> bool)
    ensures
        first_index(b, p) matches Some(i) ==> 0 <= i < b.len() && p(b[i]) && forall|j: int|
            0 <= j < i ==> !p(#[trigger] b[j]),
        first_index(b, p) is None ==> forall|j: int| 0 <= j < b.len() ==> !p(#[trigger] b[j]),
    decreases b.len(),
{
    if b.len() > 0 && !p(b[0]) {
        let t = b.drop_first();
        lemma_first_index_facts(t, p);
        assert forall|j: int| 1 <= j < b.len() implies b[j] == #[trigger] t[j - 1] by {}
        if let Some(i) = first_index(t, p) {
            assert forall|j: int| 0 <= j < i + 1 implies !p(#[trigger] b[j]) by {
                if j > 0 {
                    assert(b[j] == t[j - 1]);
                }
            }
        } else {
            assert forall|j: int| 0 <= j < b.len() implies !p(#[trigger] b[j]) by {
                if j > 0 {
                    assert(b[j] == t[j - 1]);
                }
            }
        }
    }
}

/// Where a local system line goes: the active buffer when it is a room,
/// otherwise the first room buffer (none when there is no room).
pub open spec fn system_target(b: Seq<Buffer>, active: usize) -> Option<int> {
    if active < b.len() && b[active as int] is Room {
        Some(active as int)
    } else {
        first_index(b, is_room_buffer())
    }
}

/// `m` is a locally generated system line with this content: it carries nil
/// ids and the author name `spaze`, and is neither edited nor deleted.
pub open spec fn is_local_system(m: Message, content: Seq<char>) -> bool {
    &&& m.id.0 == 0
    &&& m.room_id.0 == 0
    &&& m.author_id.0 == 0
    &&& m.author_device_id.0 == 0
    &&& m.author_display_name@ == "spaze"@
    &&& m.edited_at_ms is None
    &&& m.deleted_at_ms is None
    &&& m.body matches MessageBody::System { content: c } && c@ == content
}

/// What applying a run of effects amounts to: whether one of them quits,
/// whether the active room's timeline is cleared (only when the active buffer
/// is a room, `clears_apply`), and the system lines added after the last clear.
/// Sending an action message changes no local state.
pub open spec fn effects_outcome(effects: Seq<EffectView>, clears_apply: bool) -> (
    bool,
    bool,
    Seq<Seq<char>>,
)
    decreases effects.len(),
{
    if effects.len() == 0 {
        (false, false, Seq::empty())
    } else {
        let (q, c, l) = effects_outcome(effects.drop_last(), clears_apply);
        match effects.last() {
            EffectView::Quit => (true, c, l),
            EffectView::ClearActiveBuffer => if clears_apply {
                (q, true, Seq::empty())
            } else {
                (q, c, l)
            },
            EffectView::SystemLine(s) => (q, c, l.push(s)),
            EffectView::SendActionMessage(_) => (q, c, l),
        }
    }
}

/// Room buffer `b` is room buffer `a` after `cleared` (timeline emptied and
/// viewport sent to the bottom) and `lines` appended as local system messages.
pub open spec fn room_updated(a: Buffer, b: Buffer, cleared: bool, lines: Seq<Seq<char>>) -> bool {
    &&& a is Room
    &&& b is Room
    &&& {
        let x = a->Room_0;
        let y = b->Room_0;
        let base = if cleared {
            Seq::<Message>::empty()
        } else {
            x.messages@
        };
        &&& same_room(x, y)
        &&& y.messages@.len() == base.len() + lines.len()
        &&& y.messages@.take(base.len() as int) == base
        &&& forall|j: int|
            base.len() <= j < y.messages@.len() ==> is_local_system(
                #[trigger] y.messages@[j],
                lines[j - base.len()],
            )
        &&& y.scroll == if cleared {
            at_bottom()
        } else if lines.len() > 0 {
            after_new_message(x.scroll)
        } else {
            x.scroll
        }
    }
}

/// `new` is `old` after applying `effects` in order, as `App::apply_effect` does.
pub open spec fn effects_applied(old: App, new: App, effects: Seq<EffectView>) -> bool {
    let clears_apply = old.active < old.buffers@.len() && old.buffers@[old.active as int] is Room;
    let (quit, cleared, lines) = effects_outcome(effects, clears_apply);
    &&& new == App { buffers: new.buffers, should_quit: old.should_quit || quit, ..old }
    &&& new.buffers@.len() == old.buffers@.len()
    &&& match system_target(old.buffers@, old.active) {
        None => new.buffers@ == old.buffers@,
        Some(t) => {
            &&& forall|i: int|
                0 <= i < old.buffers@.len() && i != t ==> new.buffers@[i] == old.buffers@[i]
            &&& room_updated(old.buffers@[t], new.buffers@[t], cleared, lines)
        },
    }
}

/// The next tab, wrapping around.
pub open spec fn next_tab(active: usize, len: nat) -> usize {
    ((active + 1) % (len as int)) as usize
}

/// The previous tab, wrapping around.
pub open spec fn prev_tab(active: usize, len: nat) -> usize {
    if active == 0 {
        (len - 1) as usize
    } else {
        (active - 1) as usize
    }
}

/// Cycling the tabs stays among the tabs, and a step backward undoes a step
/// forward (and the other way round).
pub proof fn lemma_tab_cycle_round_trip(active: usize, len: nat)
    requires
        active < len,
        len <= usize::MAX,
    ensures
        next_tab(active, len) < len,
        prev_tab(active, len) < len,
        prev_tab(next_tab(active, len), len) == active,
        next_tab(prev_tab(active, len), len) == active,
{
    if active + 1 < len {
        assert((active + 1) % (len as int) == active + 1) by (nonlinear_arith)
            requires
                0 <= active + 1 < len,
        ;
    } else {
        assert((active + 1) % (len as int) == 0) by (nonlinear_arith)
            requires
                active + 1 == len,
        ;
    }
    if active == 0 {
        assert(((len - 1) as int + 1) % (len as int) == 0) by (nonlinear_arith)
            requires
                len > 0,
        ;
    } else {
        assert(((active - 1) as int + 1) % (len as int) == active) by (nonlinear_arith)
            requires
                0 < active < len,
        ;
    }
}

/// The indices of the room buffers, in order.
pub open spec fn room_indices(b: Seq<Buffer>) -> Seq<usize>
    decreases b.len(),
{
    if b.len() == 0 {
        Seq::empty()
    } else if b.last() is Room {
        room_indices(b.drop_last()).push((b.len() - 1) as usize)
    } else {
        room_indices(b.drop_last())
    }
}

/// Where `cur` first occurs in `sel`, if it does.
pub open spec fn first_pos(sel: Seq<usize>, cur: usize) -> Option<int>
    decreases sel.len(),
{
    if sel.len() == 0 {
        None
    } else if sel[0] == cur {
        Some(0)
    } else {
        match first_pos(sel.drop_first(), cur) {
            Some(i) => Some(i + 1),
            None => None,
        }
    }
}

/// The position of the current selection among the selectable rows (0 when absent).
pub open spec fn selection_pos(sel: Seq<usize>, cur: usize) -> int {
    match first_pos(sel, cur) {
        Some(i) => i,
        None => 0,
    }
}

/// The selection one room up from `selected` (from the first room when
/// nothing is selected), wrapping from the first room to the last. With
/// fewer than two rooms there is nowhere to move and the selection stays.
pub open spec fn moved_up(sel: Seq<usize>, selected: Option<usize>) -> Option<usize> {
    if sel.len() < 2 {
        selected
    } else {
        let cur = match selected {
            Some(c) => c,
            None => sel[0],
        };
        let pos = selection_pos(sel, cur);
        Some(if pos == 0 { sel[sel.len() - 1] } else { sel[pos - 1] })
    }
}

/// The selection one room down, wrapping from the last room to the first.
/// With fewer than two rooms the selection stays.
pub open spec fn moved_down(sel: Seq<usize>, selected: Option<usize>) -> Option<usize> {
    if sel.len() < 2 {
        selected
    } else {
        let cur = match selected {
            Some(c) => c,
            None => sel[0],
        };
        Some(sel[(selection_pos(sel, cur) + 1) % (sel.len() as int)])
    }
}

/// The room indices are increasing, and all index buffers.
proof fn lemma_room_indices_increasing(b: Seq<Buffer>)
    requires
        b.len() <= usize::MAX,
    ensures
        forall|i: int, j: int|
            0 <= i < j < room_indices(b).len() ==> room_indices(b)[i] < room_indices(b)[j],
        forall|i: int| 0 <= i < room_indices(b).len() ==> room_indices(b)[i] < b.len(),
    decreases b.len(),
{
    if b.len() > 0 {
        let r = room_indices(b.drop_last());
        lemma_room_indices_increasing(b.drop_last());
        if b.last() is Room {
            let s = r.push((b.len() - 1) as usize);
            assert(room_indices(b) == s);
            assert forall|i: int, j: int| 0 <= i < j < s.len() implies s[i] < s[j] by {
                if j == s.len() - 1 {
                    assert(s[i] == r[i]);
                    assert(r[i] < b.drop_last().len());
                    assert(s[j] == (b.len() - 1) as usize);
                } else {
                    assert(s[i] == r[i] && s[j] == r[j]);
                }
            }
            assert forall|i: int| 0 <= i < s.len() implies s[i] < b.len() by {
                if i < r.len() {
                    assert(s[i] == r[i]);
                }
            }
        } else {
            assert(room_indices(b) == r);
        }
    }
}

proof fn lemma_first_pos(sel: Seq<usize>, cur: usize, k: int)
    requires
        0 <= k <= sel.len(),
        forall|j: int| 0 <= j < k ==> #[trigger] sel[j] != cur,
    ensures
        k < sel.len() && sel[k] == cur ==> first_pos(sel, cur) == Some(k),
        k == sel.len() ==> first_pos(sel, cur) is None,
    decreases k,
{
    if k > 0 {
        let t = sel.drop_first();
        assert forall|j: int| 0 <= j < k - 1 implies #[trigger] t[j] != cur by {
            assert(t[j] == sel[j + 1]);
        }
        lemma_first_pos(t, cur, k - 1);
        if k < sel.len() {
            assert(t[k - 1] == sel[k]);
        }
    }
}

/// In increasing indices, an entry's position is its index.
proof fn lemma_selection_pos_of_entry(sel: Seq<usize>, k: int)
    requires
        0 <= k < sel.len(),
        forall|i: int, j: int| 0 <= i < j < sel.len() ==> sel[i] < sel[j],
    ensures
        selection_pos(sel, sel[k]) == k,
{
    assert forall|j: int| 0 <= j < k implies #[trigger] sel[j] != sel[k] by {}
    lemma_first_pos(sel, sel[k], k);
}

/// Moving the sidebar selection up and then down, or down and then up,
/// returns to the room that was selected.
pub proof fn lemma_sidebar_up_down(b: Seq<Buffer>, selected: usize)
    requires
        b.len() <= usize::MAX,
        room_indices(b).contains(selected),
    ensures
        moved_down(room_indices(b), moved_up(room_indices(b), Some(selected))) == Some(selected),
        moved_up(room_indices(b), moved_down(room_indices(b), Some(selected))) == Some(selected),
{
    let sel = room_indices(b);
    lemma_room_indices_increasing(b);
    let k = choose|k: int| 0 <= k < sel.len() && sel[k] == selected;
    let n = sel.len() as int;
    lemma_selection_pos_of_entry(sel, k);
    let up: int = if k == 0 { n - 1 } else { k - 1 };
    lemma_selection_pos_of_entry(sel, up);
    assert((up + 1) % n == k) by (nonlinear_arith)
        requires
            0 <= k < n,
            up == if k == 0 { n - 1 } else { k - 1 },
    ;
    let down: int = (k + 1) % n;
    assert(0 <= down < n && (down == 0 <==> k == n - 1) && (down != 0 ==> down == k + 1))
        by (nonlinear_arith)
        requires
            0 <= k < n,
            down == (k + 1) % n,
    ;
    lemma_selection_pos_of_entry(sel, down);
}

/// A room buffer's index is among the room indices.
proof fn lemma_room_indices_contains(b: Seq<Buffer>, i: int)
    requires
        b.len() <= usize::MAX,
        0 <= i < b.len(),
        b[i] is Room,
    ensures
        room_indices(b).contains(i as usize),
    decreases b.len(),
{
    let r = room_indices(b.drop_last());
    if i == b.len() - 1 {
        assert(room_indices(b) == r.push(i as usize));
        assert(room_indices(b)[r.len() as int] == i as usize);
    } else {
        lemma_room_indices_contains(b.drop_last(), i);
        let k = choose|k: int| 0 <= k < r.len() && r[k] == i as usize;
        if b.last() is Room {
            assert(room_indices(b)[k] == r[k]);
        } else {
            assert(room_indices(b) == r);
        }
    }
}

/// With a room selected in the sidebar, moving the selection down and then
/// up, or up and then down, gives back the app as it was: the same room is
/// selected and nothing else changed.
pub proof fn lemma_sidebar_round_trip(a: App, i: usize)
    requires
        a.buffers@.len() <= usize::MAX,
        i < a.buffers@.len(),
        a.buffers@[i as int] is Room,
        a.sidebar_selected == Some(i),
    ensures
        ({
            let d = App { sidebar_selected: moved_down(room_indices(a.buffers@), a.sidebar_selected), ..a };
            App { sidebar_selected: moved_up(room_indices(d.buffers@), d.sidebar_selected), ..d } == a
        }),
        ({
            let u = App { sidebar_selected: moved_up(room_indices(a.buffers@), a.sidebar_selected), ..a };
            App { sidebar_selected: moved_down(room_indices(u.buffers@), u.sidebar_selected), ..u } == a
        }),
{
    lemma_room_indices_contains(a.buffers@, i as int);
    lemma_sidebar_up_down(a.buffers@, i);
}

/// The input has the focus exactly in Insert mode.
pub open spec fn focus_follows_mode(a: App) -> bool {
    (a.focus == FocusedRegion::Input) <==> (a.mode == InputMode::Insert)
}

/// The app's buffers and active index are consistent: there is at least one
/// buffer and the active one exists.
pub open spec fn app_inv(a: App) -> bool {
    a.buffers@.len() > 0 && a.active < a.buffers@.len()
}

/// The message bodies handed out for posting: `t` as a text body.
pub open spec fn is_text_post(b: MessageBody, t: Seq<char>) -> bool {
    b matches MessageBody::Text { content } && content@ == t
}

/// How effects are routed at Enter time: with no connection, an action
/// message is replaced by a notice line.
pub open spec fn route_effects(effects: Seq<EffectView>, connected: bool) -> Seq<EffectView> {
    effects.map_values(
        |e: EffectView|
            if !connected && e is SendActionMessage {
                EffectView::SystemLine(not_connected_line())
            } else {
                e
            },
    )
}

/// The action contents to post, in order: those of the action effects, when connected.
pub open spec fn action_posts(effects: Seq<EffectView>, connected: bool) -> Seq<Seq<char>>
    decreases effects.len(),
{
    if effects.len() == 0 || !connected {
        Seq::empty()
    } else {
        let init = action_posts(effects.drop_last(), connected);
        match effects.last() {
            EffectView::SendActionMessage(s) => init.push(s),
            _ => init,
        }
    }
}

/// The bodies' kinds and contents: each is an action body with that content.
pub open spec fn are_action_posts(posts: Seq<MessageBody>, contents: Seq<Seq<char>>) -> bool {
    &&& posts.len() == contents.len()
    &&& forall|j: int|
        0 <= j < posts.len() ==> (#[trigger] posts[j] matches MessageBody::Action { content }
            && content@ == contents[j])
}

/// What Enter does with a nonempty input line in Insert mode.
pub open spec fn submit_step(old: App, new: App, reg: Seq<Command>, posts: Seq<MessageBody>) -> bool {
    match parse_spec(old.input_buffer@) {
        ParsedInput::Text(t) => {
            &&& new == App { input_buffer: new.input_buffer, ..old }
            &&& new.input_buffer@.len() == 0
            &&& posts.len() == 1 && is_text_post(posts[0], t)
        },
        ParsedInput::EscapedText(t) => {
            &&& new == App { input_buffer: new.input_buffer, ..old }
            &&& new.input_buffer@.len() == 0
            &&& posts.len() == 1 && is_text_post(posts[0], t)
        },
        ParsedInput::Command { name, args } => if !is_registered(reg, name) {
            // Registry miss: the input stays in the bar and nothing is sent.
            new == old && posts.len() == 0
        } else {
            let i = choose|i: int| first_answering(reg, name, i);
            let effects = handler_effects(reg[i].handler, args, reg);
            let connected = old.connection is Connected;
            &&& effects_applied(
                old,
                App { input_buffer: old.input_buffer, ..new },
                route_effects(effects, connected),
            )
            &&& new.input_buffer@.len() == 0
            &&& are_action_posts(posts, action_posts(effects, connected))
        },
    }
}

/// What a key does to the app, and the message bodies it hands out for posting.
///
/// Insert mode: Esc returns to Normal mode and hands the focus from the input
/// to the active buffer (the input is kept); Enter on a
/// nonempty line submits it; Backspace deletes the last char; a char is typed.
///
/// Normal mode: Ctrl+C or `q` quit; Ctrl+B toggles the sidebar; `i` enters
/// Insert mode and focuses the input; `?` focuses the help buffer; Tab and Shift+Tab cycle tabs;
/// any other key goes to the active buffer.
pub open spec fn key_step(old: App, new: App, key: KeyEvent, reg: Seq<Command>, posts: Seq<MessageBody>) -> bool {
    let ctrl = key.modifiers.control;
    let len = old.buffers@.len();
    if old.mode == InputMode::Insert {
        match key.code {
            KeyCode::Esc => new == App {
                mode: InputMode::Normal,
                focus: FocusedRegion::Buffer,
                ..old
            } && posts.len() == 0,
            KeyCode::Enter => if old.input_buffer@.len() == 0 {
                new == old && posts.len() == 0
            } else {
                submit_step(old, new, reg, posts)
            },
            KeyCode::Backspace => {
                &&& new == App { input_buffer: new.input_buffer, ..old }
                &&& new.input_buffer@ == if old.input_buffer@.len() > 0 {
                    old.input_buffer@.drop_last()
                } else {
                    old.input_buffer@
                }
                &&& posts.len() == 0
            },
            KeyCode::Char(c) => {
                &&& new == App { input_buffer: new.input_buffer, ..old }
                &&& new.input_buffer@ == old.input_buffer@.push(c)
                &&& posts.len() == 0
            },
            _ => new == old && posts.len() == 0,
        }
    } else {
        &&& posts.len() == 0
        &&& if key.code == KeyCode::Char('c') && ctrl || key.code == KeyCode::Char('q') && !ctrl {
            new == App { should_quit: true, ..old }
        } else if key.code == KeyCode::Char('b') && ctrl {
            new == App { sidebar_visible: !old.sidebar_visible, ..old }
        } else if key.code == KeyCode::Char('i') && !ctrl {
            new == App { mode: InputMode::Insert, focus: FocusedRegion::Input, ..old }
        } else if key.code == KeyCode::Char('?') && !ctrl {
            match first_index(old.buffers@, is_help_buffer()) {
                Some(i) => new == App { active: i as usize, ..old },
                None => new == old,
            }
        } else if key.code == KeyCode::Tab && !ctrl {
            new == App { active: next_tab(old.active, len), ..old }
        } else if key.code == KeyCode::BackTab {
            new == App { active: prev_tab(old.active, len), ..old }
        } else {
            &&& new == App { buffers: new.buffers, ..old }
            &&& new.buffers@.len() == len
            &&& forall|i: int| 0 <= i < len && i != old.active ==> new.buffers@[i] == old.buffers@[i]
            &&& buffer_after_key(old.buffers@[old.active as int], new.buffers@[old.active as int], key)
        }
    }
}

/// Editing the input line in Insert mode: Backspace removes exactly the last
/// char (an empty line stays empty), a typed char lands at the end with the
/// rest of the line kept, and Esc keeps the line while leaving Insert mode
/// for the active buffer. None of these hands out a post or touches the
/// buffers.
pub proof fn lemma_insert_mode_editing(
    old: App,
    new: App,
    key: KeyEvent,
    reg: Seq<Command>,
    posts: Seq<MessageBody>,
)
    requires
        key_step(old, new, key, reg, posts),
        old.mode == InputMode::Insert,
    ensures
        key.code == KeyCode::Backspace ==> {
            &&& old.input_buffer@.len() > 0 ==> {
                &&& new.input_buffer@.len() + 1 == old.input_buffer@.len()
                &&& forall|i: int| 0 <= i < new.input_buffer@.len()
                    ==> #[trigger] new.input_buffer@[i] == old.input_buffer@[i]
            }
            &&& old.input_buffer@.len() == 0 ==> new.input_buffer@.len() == 0
            &&& new.mode == InputMode::Insert
            &&& new.buffers == old.buffers
            &&& posts.len() == 0
        },
        key.code matches KeyCode::Char(c) ==> {
            &&& new.input_buffer@.len() == old.input_buffer@.len() + 1
            &&& new.input_buffer@[old.input_buffer@.len() as int] == c
            &&& forall|i: int| 0 <= i < old.input_buffer@.len()
                ==> #[trigger] new.input_buffer@[i] == old.input_buffer@[i]
            &&& new.mode == InputMode::Insert
            &&& new.buffers == old.buffers
            &&& posts.len() == 0
        },
        key.code == KeyCode::Esc ==> {
            &&& new.input_buffer == old.input_buffer
            &&& new.mode == InputMode::Normal
            &&& new.focus != FocusedRegion::Input
            &&& new.buffers == old.buffers
            &&& posts.len() == 0
        },
{
}

/// A message taken in from the server is appended at the bottom of the first
/// room's timeline: the earlier messages keep their places and the new one
/// comes last; every other buffer stays as it was.
pub proof fn lemma_pushed_message_is_appended(old: App, new: App, m: Message)
    requires
        pushed_to_first_room(old, new, m),
        first_index(old.buffers@, is_room_buffer()) is Some,
    ensures
        ({
            let t = first_index(old.buffers@, is_room_buffer()).unwrap();
            let before = old.buffers@[t]->Room_0.messages@;
            let after = new.buffers@[t]->Room_0.messages@;
            &&& after.len() == before.len() + 1
            &&& after[before.len() as int] == m
            &&& forall|i: int| 0 <= i < before.len() ==> #[trigger] after[i] == before[i]
            &&& forall|i: int| 0 <= i < old.buffers@.len() && i != t
                ==> #[trigger] new.buffers@[i] == old.buffers@[i]
        }),
{
}

/// The bookkeeping behind `effects_applied`: kinds of buffers never change.
proof fn lemma_effects_outcome_step(effects: Seq<EffectView>, e: EffectView, clears_apply: bool)
    ensures
        effects_outcome(effects.push(e), clears_apply) == ({
            let (q, c, l) = effects_outcome(effects, clears_apply);
            match e {
                EffectView::Quit => (true, c, l),
                EffectView::ClearActiveBuffer => if clears_apply {
                    (q, true, Seq::<Seq<char>>::empty())
                } else {
                    (q, c, l)
                },
                EffectView::SystemLine(s) => (q, c, l.push(s)),
                EffectView::SendActionMessage(_) => (q, c, l),
            }
        }),
{
    assert(effects.push(e).drop_last() =~= effects);
}

/// Applying effects one after another composes: `effects_applied` over a run
/// followed by one more effect is `effects_applied` over the longer run.
proof fn lemma_effects_compose(a: App, b: App, c: App, es: Seq<EffectView>, e: EffectView)
    requires
        effects_applied(a, b, es),
        effects_applied(b, c, seq![e]),
    ensures
        effects_applied(a, c, es.push(e)),
{
    let clears_a = a.active < a.buffers@.len() && a.buffers@[a.active as int] is Room;
    lemma_effects_outcome_step(es, e, clears_a);
    assert(seq![e] =~= Seq::<EffectView>::empty().push(e));
    lemma_effects_outcome_step(Seq::empty(), e, clears_a);
    lemma_first_index_facts(a.buffers@, is_room_buffer());
    lemma_first_index_facts(b.buffers@, is_room_buffer());
    // The room buffers of `b` are those of `a`, so both have the same target.
    assert forall|i: int| 0 <= i < a.buffers@.len() implies (#[trigger] b.buffers@[i] is Room)
        == (a.buffers@[i] is Room) by {
        if let Some(t) = system_target(a.buffers@, a.active) {
            if i != t {
                assert(b.buffers@[i] == a.buffers@[i]);
            }
        }
    }
    if first_index(a.buffers@, is_room_buffer()) != first_index(b.buffers@, is_room_buffer()) {
        if let Some(i) = first_index(a.buffers@, is_room_buffer()) {
            assert(b.buffers@[i] is Room);
            lemma_first_index(b.buffers@, is_room_buffer(), i);
        } else if let Some(i) = first_index(b.buffers@, is_room_buffer()) {
            assert(a.buffers@[i] is Room);
        }
    }
    assert(system_target(a.buffers@, a.active) == system_target(b.buffers@, b.active));
    let (q0, c0, l0) = effects_outcome(es, clears_a);
    if let Some(t) = system_target(a.buffers@, a.active) {
        let x = a.buffers@[t]->Room_0;
        let y = b.buffers@[t]->Room_0;
        let z = c.buffers@[t]->Room_0;
        let (q1, c1, l1) = effects_outcome(seq![e], clears_a);
        let (q2, c2, l2) = effects_outcome(es.push(e), clears_a);
        let base0 = if c0 {
            Seq::<Message>::empty()
        } else {
            x.messages@
        };
        let base2 = if c2 {
            Seq::<Message>::empty()
        } else {
            x.messages@
        };
        if c1 {
            assert(z.messages@.take(0) =~= Seq::<Message>::empty());
        } else {
            let ybase = y.messages@;
            assert(z.messages@.take(ybase.len() as int) == ybase);
            assert(l2 =~= l0 + l1);
            assert(c2 == c0);
            assert(base2 == base0);
            assert forall|j: int| base2.len() <= j < z.messages@.len() implies is_local_system(
                #[trigger] z.messages@[j],
                l2[j - base2.len()],
            ) by {
                if j < ybase.len() {
                    assert(z.messages@.take(ybase.len() as int)[j] == z.messages@[j]);
                    assert(is_local_system(y.messages@[j], l0[j - base0.len()]));
                } else {
                    assert(is_local_system(z.messages@[j], l1[j - ybase.len()]));
                }
            }
            assert(z.messages@.take(base2.len() as int) =~= base2) by {
                assert forall|j: int| 0 <= j < base2.len() implies z.messages@.take(
                    base2.len() as int,
                )[j] == base2[j] by {
                    assert(z.messages@[j] == ybase[j]);
                    assert(ybase[j] == y.messages@.take(base0.len() as int)[j]);
                }
            }
        }
    }
}

impl App {
    /// Construct the initial state: one room (`# general`, nil room id) and a
    /// help buffer, the room active, the sidebar shown and focused, Normal
    /// mode, an empty input line, the Catppuccin Mocha theme, connecting.
    pub fn new(identity: Identity, _server_url: String) -> (r: Self)
        ensures
            app_inv(r),
            r.buffers@.len() == 2,
            r.buffers@[0] matches Buffer::Room(rb) && {
                &&& rb.room_id.0 == 0
                &&& rb.display_name@ == "# general"@
                &&& rb.kind == RoomKind::Standard
                &&& rb.repo_binding is None
                &&& rb.topic is None
                &&& rb.messages@.len() == 0
                &&& rb.scroll == at_bottom()
                &&& rb.self_display_name == identity.display_name
            },
            r.buffers@[1] matches Buffer::Help(h) && h.scroll == 0,
            r.active == 0,
            r.sidebar_visible,
            r.mode == InputMode::Normal,
            r.input_buffer@.len() == 0,
            is_catppuccin_mocha(r.theme),
            r.connection is Connecting,
            r.identity == identity,
            !r.should_quit,
            r.focus == FocusedRegion::Sidebar,
            r.sidebar_selected == Some(0usize),
            r.last_layout is None,
    {
        let room_id = RoomId::from_uuid(0);
        let room = RoomTimelineBuffer::new(
            room_id,
            String::from_str("# general"),
            RoomKind::Standard,
            identity.display_name.clone(),
        );
        let help = HelpBuffer::new();
        let mut buffers: Vec<Buffer> = Vec::new();
        buffers.push(Buffer::Room(room));
        buffers.push(Buffer::Help(help));
        App {
            buffers,
            active: 0,
            sidebar_visible: true,
            mode: InputMode::Normal,
            input_buffer: String::new(),
            theme: catppuccin_mocha(),
            connection: ConnectionState::Connecting,
            identity,
            should_quit: false,
            focus: FocusedRegion::Sidebar,
            sidebar_selected: Some(0),
            last_layout: None,
        }
    }

    /// Cycle to the next tab (wraps around).
    pub fn cycle_tab_forward(&mut self)
        requires
            old(self).buffers@.len() > 0,
            old(self).active < usize::MAX,
        ensures
            *final(self) == (App {
                active: next_tab(old(self).active, old(self).buffers@.len()),
                ..*old(self)
            }),
    {
        self.active = (self.active + 1) % self.buffers.len();
    }

    /// Cycle to the previous tab (wraps around).
    pub fn cycle_tab_backward(&mut self)
        requires
            old(self).buffers@.len() > 0,
        ensures
            *final(self) == (App {
                active: prev_tab(old(self).active, old(self).buffers@.len()),
                ..*old(self)
            }),
    {
        if self.active == 0 {
            self.active = self.buffers.len() - 1;
        } else {
            self.active = self.active - 1;
        }
    }

    /// Toggle the sidebar.
    pub fn toggle_sidebar(&mut self)
        ensures
            *final(self) == (App { sidebar_visible: !old(self).sidebar_visible, ..*old(self) }),
    {
        self.sidebar_visible = !self.sidebar_visible;
    }

    /// Find the index of the first buffer for which `pred` holds.
    pub fn find_buffer<F: Fn(&Buffer) -> bool>(&self, pred: F) -> (r: Option<usize>)
        requires
            forall|i: int| 0 <= i < self.buffers@.len() ==> call_requires(pred, (&self.buffers@[i],)),
        ensures
            r matches Some(i) ==> i < self.buffers@.len() && call_ensures(
                pred,
                (&self.buffers@[i as int],),
                true,
            ) && forall|j: int| 0 <= j < i ==> call_ensures(pred, (&self.buffers@[j],), false),
            r is None ==> forall|j: int|
                0 <= j < self.buffers@.len() ==> call_ensures(pred, (&self.buffers@[j],), false),
    {
        let mut k: usize = 0;
        while k < self.buffers.len()
            invariant
                k <= self.buffers@.len(),
                forall|i: int| 0 <= i < self.buffers@.len() ==> call_requires(pred, (&self.buffers@[i],)),
                forall|j: int| 0 <= j < k ==> call_ensures(pred, (&self.buffers@[j],), false),
            decreases self.buffers@.len() - k,
        {
            if pred(&self.buffers[k]) {
                return Some(k);
            }
            k = k + 1;
        }
        None
    }

    /// The index of the first buffer of the kind (`help` or room), if any.
    fn first_of_kind(&self, help: bool) -> (r: Option<usize>)
        ensures
            r == (match first_index(
                self.buffers@,
                if help {
                    is_help_buffer()
                } else {
                    is_room_buffer()
                },
            ) {
                Some(i) => Some(i as usize),
                None => None,
            }),
    {
        let ghost p = if help {
            is_help_buffer()
        } else {
            is_room_buffer()
        };
        let mut k: usize = 0;
        while k < self.buffers.len()
            invariant
                k <= self.buffers@.len(),
                p == (if help {
                    is_help_buffer()
                } else {
                    is_room_buffer()
                }),
                forall|j: int| 0 <= j < k ==> !p(#[trigger] self.buffers@[j]),
            decreases self.buffers@.len() - k,
        {
            let hit = if help {
                self.buffers[k].is_help()
            } else {
                self.buffers[k].is_room()
            };
            if hit {
                proof {
                    lemma_first_index(self.buffers@, p, k as int);
                }
                return Some(k);
            }
            k = k + 1;
        }
        proof {
            lemma_first_index(self.buffers@, p, k as int);
        }
        None
    }

    /// Set the focused region, maintaining `focus == Input` iff `mode == Insert`.
    ///
    /// Setting `Input` enters Insert mode (click on the input line); setting
    /// another region from Insert mode returns to Normal (click elsewhere).
    pub fn set_focus(&mut self, region: FocusedRegion)
        ensures
            *final(self) == (App {
                focus: region,
                mode: if region == FocusedRegion::Input {
                    InputMode::Insert
                } else {
                    InputMode::Normal
                },
                ..*old(self)
            }),
            (final(self).focus == FocusedRegion::Input) <==> (final(self).mode == InputMode::Insert),
    {
        self.focus = region;
        match region {
            FocusedRegion::Input => self.mode = InputMode::Insert,
            _ => {
                if self.mode == InputMode::Insert {
                    self.mode = InputMode::Normal;
                }
            },
        }
    }

    fn room_indices_exec(&self) -> (r: Vec<usize>)
        ensures
            r@ == room_indices(self.buffers@),
    {
        let mut out: Vec<usize> = Vec::new();
        let mut k: usize = 0;
        while k < self.buffers.len()
            invariant
                k <= self.buffers@.len(),
                out@ == room_indices(self.buffers@.take(k as int)),
            decreases self.buffers@.len() - k,
        {
            let ghost t = self.buffers@.take((k + 1) as int);
            assert(t.drop_last() =~= self.buffers@.take(k as int));
            if self.buffers[k].is_room() {
                out.push(k);
            }
            k = k + 1;
        }
        assert(self.buffers@.take(k as int) =~= self.buffers@);
        out
    }

    fn position_in(sel: &Vec<usize>, cur: usize) -> (pos: usize)
        ensures
            pos as int == selection_pos(sel@, cur),
            sel@.len() > 0 ==> pos < sel@.len(),
    {
        let mut k: usize = 0;
        while k < sel.len()
            invariant
                k <= sel@.len(),
                forall|j: int| 0 <= j < k ==> #[trigger] sel@[j] != cur,
            decreases sel@.len() - k,
        {
            if sel[k] == cur {
                proof {
                    lemma_first_pos(sel@, cur, k as int);
                }
                return k;
            }
            k = k + 1;
        }
        proof {
            lemma_first_pos(sel@, cur, k as int);
        }
        0
    }

    /// Move the sidebar selection to the previous room buffer (wraps around).
    /// No-op when there are fewer than two room buffers.
    pub fn sidebar_move_up(&mut self)
        ensures
            *final(self) == (App {
                sidebar_selected: moved_up(room_indices(old(self).buffers@), old(self).sidebar_selected),
                ..*old(self)
            }),
    {
        let selectable = self.room_indices_exec();
        if selectable.len() < 2 {
            return;
        }
        let cur = match self.sidebar_selected {
            Some(c) => c,
            None => selectable[0],
        };
        let pos = Self::position_in(&selectable, cur);
        let prev = if pos == 0 {
            selectable[selectable.len() - 1]
        } else {
            selectable[pos - 1]
        };
        self.sidebar_selected = Some(prev);
    }

    /// Move the sidebar selection to the next room buffer (wraps around).
    /// No-op when there are fewer than two room buffers.
    pub fn sidebar_move_down(&mut self)
        ensures
            *final(self) == (App {
                sidebar_selected: moved_down(room_indices(old(self).buffers@), old(self).sidebar_selected),
                ..*old(self)
            }),
    {
        let selectable = self.room_indices_exec();
        if selectable.len() < 2 {
            return;
        }
        let cur = match self.sidebar_selected {
            Some(c) => c,
            None => selectable[0],
        };
        let pos = Self::position_in(&selectable, cur);
        let next = selectable[(pos + 1) % selectable.len()];
        self.sidebar_selected = Some(next);
    }

    /// Activate the currently selected sidebar item (switch the active tab).
    /// No-op when nothing is selected or the selection is out of range.
    pub fn sidebar_activate(&mut self)
        ensures
            *final(self) == (match old(self).sidebar_selected {
                Some(idx) => if idx < old(self).buffers@.len() {
                    App { active: idx, ..*old(self) }
                } else {
                    *old(self)
                },
                None => *old(self),
            }),
    {
        if let Some(idx) = self.sidebar_selected {
            if idx < self.buffers.len() {
                self.active = idx;
            }
        }
    }

    /// Empty the active buffer's timeline when it is a room.
    fn clear_active_room(&mut self)
        ensures
            effects_applied(*old(self), *final(self), seq![EffectView::ClearActiveBuffer]),
    {
        proof {
            lemma_effects_outcome_step(Seq::empty(), EffectView::ClearActiveBuffer, true);
            lemma_effects_outcome_step(Seq::empty(), EffectView::ClearActiveBuffer, false);
            assert(seq![EffectView::ClearActiveBuffer] =~= Seq::<EffectView>::empty().push(
                EffectView::ClearActiveBuffer,
            ));
            lemma_first_index_facts(self.buffers@, is_room_buffer());
        }
        if self.active < self.buffers.len() && self.buffers[self.active].is_room() {
            let i = self.active;
            match &mut self.buffers[i] {
                Buffer::Room(rb) => {
                    rb.messages.clear();
                    rb.scroll.to_bottom();
                },
                Buffer::Help(_) => {},
            }
            assert(self.buffers@[i as int]->Room_0.messages@.take(0) =~= Seq::<Message>::empty());
        } else {
            proof {
                if let Some(t) = system_target(self.buffers@, self.active) {
                    let x = self.buffers@[t]->Room_0;
                    assert(x.messages@.take(x.messages@.len() as int) =~= x.messages@);
                }
            }
        }
    }

    /// Push a synthetic system message, stamped with the current time, onto
    /// the active room buffer, or the first room buffer when the active one is
    /// not a room. Locally generated, never sent over the wire. The stamp is
    /// the clock's reading in milliseconds since the Unix epoch, rounded down
    /// (negative for a clock set before the epoch).
    fn push_local_system(&mut self, content: String)
        ensures
            effects_applied(*old(self), *final(self), seq![EffectView::SystemLine(content@)]),
    {
        let (after_epoch, secs, nanos) = read_clock();
        let now_ms = clock_millis(after_epoch, secs, nanos);
        self.push_local_system_at(content, now_ms);
    }

    /// Push a system message stamped `now_ms` (milliseconds since the Unix
    /// epoch) onto the active room buffer, or the first room buffer when the
    /// active one is not a room.
    pub fn push_local_system_at(&mut self, content: String, now_ms: i64)
        ensures
            effects_applied(*old(self), *final(self), seq![EffectView::SystemLine(content@)]),
            system_target(old(self).buffers@, old(self).active) matches Some(t)
                ==> final(self).buffers@[t]->Room_0.messages@.last().created_at_ms == now_ms,
    {
        let msg = Message {
            id: MessageId::from_uuid(0),
            room_id: RoomId::from_uuid(0),
            author_id: UserId::from_uuid(0),
            author_device_id: DeviceId::from_uuid(0),
            author_display_name: String::from_str("spaze"),
            created_at_ms: now_ms,
            edited_at_ms: None,
            deleted_at_ms: None,
            body: MessageBody::System { content },
        };
        proof {
            reveal_strlit("spaze");
            lemma_effects_outcome_step(Seq::empty(), EffectView::SystemLine(content@), true);
            lemma_effects_outcome_step(Seq::empty(), EffectView::SystemLine(content@), false);
            assert(seq![EffectView::SystemLine(content@)] =~= Seq::<EffectView>::empty().push(
                EffectView::SystemLine(content@),
            ));
            lemma_first_index_facts(self.buffers@, is_room_buffer());
        }
        let target = if self.active < self.buffers.len() && self.buffers[self.active].is_room() {
            Some(self.active)
        } else {
            self.first_of_kind(false)
        };
        if let Some(t) = target {
            let ghost before = self.buffers@[t as int]->Room_0.messages@;
            match &mut self.buffers[t] {
                Buffer::Room(rb) => {
                    rb.push_message(msg);
                },
                Buffer::Help(_) => {},
            }
            assert(self.buffers@[t as int]->Room_0.messages@.take(before.len() as int) =~= before);
        }
    }

    /// Apply a command effect. `Quit` sets the quit flag; `ClearActiveBuffer`
    /// empties the active room's timeline; `SystemLine` shows a local system
    /// line. `SendActionMessage` is sent over the wire by the key handler and
    /// changes nothing here.
    pub fn apply_effect(&mut self, effect: Effect)
        ensures
            effects_applied(*old(self), *final(self), seq![effect@]),
    {
        proof {
            lemma_effects_outcome_step(Seq::empty(), effect@, true);
            lemma_effects_outcome_step(Seq::empty(), effect@, false);
            assert(seq![effect@] =~= Seq::<EffectView>::empty().push(effect@));
            lemma_first_index_facts(self.buffers@, is_room_buffer());
        }
        match effect {
            Effect::Quit => {
                self.should_quit = true;
                proof {
                    if let Some(t) = system_target(self.buffers@, self.active) {
                        let x = self.buffers@[t]->Room_0;
                        assert(x.messages@.take(x.messages@.len() as int) =~= x.messages@);
                    }
                }
            },
            Effect::ClearActiveBuffer => {
                self.clear_active_room();
            },
            Effect::SystemLine(content) => {
                self.push_local_system(content);
            },
            Effect::SendActionMessage(_) => {
                proof {
                    if let Some(t) = system_target(self.buffers@, self.active) {
                        let x = self.buffers@[t]->Room_0;
                        assert(x.messages@.take(x.messages@.len() as int) =~= x.messages@);
                    }
                }
            },
        }
    }
}

/// No effects change nothing.
proof fn lemma_effects_none(a: App)
    ensures
        effects_applied(a, a, Seq::empty()),
{
    lemma_first_index_facts(a.buffers@, is_room_buffer());
    if let Some(t) = system_target(a.buffers@, a.active) {
        let x = a.buffers@[t]->Room_0;
        assert(x.messages@.take(x.messages@.len() as int) =~= x.messages@);
    }
}

proof fn lemma_action_posts_step(effects: Seq<EffectView>, e: EffectView, connected: bool)
    ensures
        action_posts(effects.push(e), connected) == if !connected {
            Seq::<Seq<char>>::empty()
        } else {
            match e {
                EffectView::SendActionMessage(s) => action_posts(effects, connected).push(s),
                _ => action_posts(effects, connected),
            }
        },
{
    assert(effects.push(e).drop_last() =~= effects);
}

impl App {
    /// The views of the arguments as borrowed strings.
    fn arg_refs(args: &Vec<String>) -> (r: Vec<&str>)
        ensures
            args_view(r@) == args@.map_values(|a: String| a@),
    {
        let mut out: Vec<&str> = Vec::new();
        let mut k: usize = 0;
        while k < args.len()
            invariant
                k <= args@.len(),
                args_view(out@) == args@.map_values(|a: String| a@).take(k as int),
            decreases args@.len() - k,
        {
            let ghost before = out@;
            out.push(args[k].as_str());
            assert(args_view(out@) =~= args_view(before).push(args@[k as int]@));
            assert(args@.map_values(|a: String| a@).take((k + 1) as int) =~= args@.map_values(
                |a: String| a@,
            ).take(k as int).push(args@[k as int]@));
            k = k + 1;
        }
        assert(args@.map_values(|a: String| a@).take(k as int) =~= args@.map_values(
            |a: String| a@,
        ));
        out
    }

    /// Submit the input line: send text, or run a command and apply its
    /// effects. Returns the message bodies to post.
    fn submit_input(&mut self, registry: &[Command]) -> (posts: Vec<MessageBody>)
        ensures
            submit_step(*old(self), *final(self), registry@, posts@),
    {
        let mut posts: Vec<MessageBody> = Vec::new();
        let kind = parse_input(self.input_buffer.as_str());
        match kind {
            InputKind::Text(content) => {
                posts.push(MessageBody::Text { content });
                self.input_buffer = String::new();
            },
            InputKind::EscapedText(content) => {
                posts.push(MessageBody::Text { content });
                self.input_buffer = String::new();
            },
            InputKind::Command { name, args } => {
                let cmd = match lookup(name.as_str(), registry) {
                    Some(c) => c,
                    None => {
                        // Registry miss: leave the input in the bar, submit nothing.
                        return posts;
                    },
                };
                let arg_refs = Self::arg_refs(&args);
                let ctx = HandlerContext { registry };
                let effects = cmd.handler.call(arg_refs.as_slice(), &ctx);
                let connected = match &self.connection {
                    ConnectionState::Connected { .. } => true,
                    _ => false,
                };
                let ghost start = *self;
                let ghost effs = effects_view(effects@);
                proof {
                    let i = choose|i: int| first_answering(registry@, name@, i);
                    let k = choose|k: int| first_answering(registry@, name@, k) && *cmd == registry@[k];
                    crate::commands::registry::lemma_first_answering_unique(registry@, name@, i, k);
                    lemma_effects_none(start);
                    assert(route_effects(effs, connected).take(0) =~= Seq::<EffectView>::empty());
                    assert(effs.take(0) =~= Seq::<EffectView>::empty());
                    assert(posts@.len() == 0);
                }
                let mut k: usize = 0;
                while k < effects.len()
                    invariant
                        k <= effects@.len(),
                        effs == effects_view(effects@),
                        connected == (start.connection is Connected),
                        effects_applied(start, *self, route_effects(effs, connected).take(k as int)),
                        are_action_posts(posts@, action_posts(effs.take(k as int), connected)),
                    decreases effects@.len() - k,
                {
                    let e = effects[k].clone();
                    let ghost mid = *self;
                    let ghost routed = route_effects(effs, connected);
                    proof {
                        assert(routed.take((k + 1) as int) =~= routed.take(k as int).push(routed[k as int]));
                        assert(effs.take((k + 1) as int) =~= effs.take(k as int).push(effs[k as int]));
                        lemma_action_posts_step(effs.take(k as int), effs[k as int], connected);
                        assert(effs[k as int] == e@);
                    }
                    match e {
                        Effect::SendActionMessage(content) => {
                            if connected {
                                let ghost before = posts@;
                                posts.push(MessageBody::Action { content });
                                proof {
                                    assert(routed[k as int] == e@);
                                    lemma_effects_none(mid);
                                    assert(effects_applied(mid, *self, seq![e@])) by {
                                        lemma_effects_outcome_step(Seq::empty(), e@, true);
                                        lemma_effects_outcome_step(Seq::empty(), e@, false);
                                        assert(seq![e@] =~= Seq::<EffectView>::empty().push(e@));
                                    }
                                    lemma_effects_compose(start, mid, *self, routed.take(k as int), e@);
                                    assert forall|j: int| 0 <= j < posts@.len() implies (
                                    #[trigger] posts@[j] matches MessageBody::Action { content }
                                        && content@ == action_posts(effs.take((k + 1) as int), connected)[j]) by {
                                        if j < before.len() {
                                            assert(posts@[j] == before[j]);
                                        }
                                    }
                                }
                            } else {
                                let line = String::from_str(
                                    "not connected — /me requires an active connection",
                                );
                                let notice = Effect::SystemLine(line);
                                self.apply_effect(notice);
                                proof {
                                    assert(routed[k as int] == notice@);
                                    lemma_effects_compose(start, mid, *self, routed.take(k as int), notice@);
                                }
                            }
                        },
                        other => {
                            let ghost ov = other@;
                            self.apply_effect(other);
                            proof {
                                assert(routed[k as int] == ov);
                                lemma_effects_compose(start, mid, *self, routed.take(k as int), ov);
                            }
                        },
                    }
                    k = k + 1;
                }
                proof {
                    assert(route_effects(effs, connected).take(k as int) =~= route_effects(effs, connected));
                    assert(effs.take(k as int) =~= effs);
                }
                let ghost applied = *self;
                self.input_buffer = String::new();
                assert(applied == (App { input_buffer: start.input_buffer, ..*self }));
            },
        }
        posts
    }

    /// Handle a key: the decisions of the client's key handling. Returns the
    /// message bodies to post to the room, in order; sending them is the
    /// caller's part.
    pub fn handle_key(&mut self, key: KeyEvent, registry: &[Command]) -> (posts: Vec<MessageBody>)
        requires
            app_inv(*old(self)),
        ensures
            app_inv(*final(self)),
            key_step(*old(self), *final(self), key, registry@, posts@),
            focus_follows_mode(*old(self)) ==> focus_follows_mode(*final(self)),
    {
        if self.mode == InputMode::Insert {
            let mut posts: Vec<MessageBody> = Vec::new();
            match key.code {
                KeyCode::Esc => {
                    self.set_focus(FocusedRegion::Buffer);
                },
                KeyCode::Enter => {
                    if !self.input_buffer.as_str().is_empty() {
                        posts = self.submit_input(registry);
                    }
                },
                KeyCode::Backspace => {
                    pop_char(&mut self.input_buffer);
                },
                KeyCode::Char(c) => {
                    push_char(&mut self.input_buffer, c);
                },
                _ => {},
            }
            return posts;
        }
        let posts: Vec<MessageBody> = Vec::new();
        let ctrl = key.modifiers.control;
        if (key.code == KeyCode::Char('c') && ctrl) || (key.code == KeyCode::Char('q') && !ctrl) {
            self.should_quit = true;
        } else if key.code == KeyCode::Char('b') && ctrl {
            self.toggle_sidebar();
        } else if key.code == KeyCode::Char('i') && !ctrl {
            self.set_focus(FocusedRegion::Input);
        } else if key.code == KeyCode::Char('?') && !ctrl {
            if let Some(idx) = self.first_of_kind(true) {
                proof {
                    lemma_first_index_facts(self.buffers@, is_help_buffer());
                }
                self.active = idx;
            }
        } else if key.code == KeyCode::Tab && !ctrl {
            let _n = self.buffers.len();
            self.cycle_tab_forward();
        } else if key.code == KeyCode::BackTab {
            self.cycle_tab_backward();
        } else {
            let a = self.active;
            let _ = self.buffers[a].handle_key(key);
        }
        posts
    }
}

/// `new` is `old` with `m` appended to the first room buffer (unchanged when
/// there is no room buffer).
pub open spec fn pushed_to_first_room(old: App, new: App, m: Message) -> bool {
    match first_index(old.buffers@, is_room_buffer()) {
        None => new == old,
        Some(t) => {
            &&& new == App { buffers: new.buffers, ..old }
            &&& new.buffers@.len() == old.buffers@.len()
            &&& forall|i: int| 0 <= i < old.buffers@.len() && i != t ==> new.buffers@[i] == old.buffers@[i]
            &&& old.buffers@[t] is Room && new.buffers@[t] is Room
            &&& same_room(old.buffers@[t]->Room_0, new.buffers@[t]->Room_0)
            &&& new.buffers@[t]->Room_0.messages@ == old.buffers@[t]->Room_0.messages@.push(m)
            &&& new.buffers@[t]->Room_0.scroll == after_new_message(old.buffers@[t]->Room_0.scroll)
        },
    }
}

/// What a frame from the server carries for the timeline: the posted message,
/// whether it comes back as the response to this client's post or as an
/// event pushed because a peer posted.
pub open spec fn posted_message(f: ServerFrame) -> Option<Message> {
    match f {
        ServerFrame::Response { result: CommandOutcome::Succeeded { payload: ResponsePayload::MessagePosted(m) }, .. } => Some(m),
        ServerFrame::Event(ServerEvent::MessagePosted(m)) => Some(m),
        _ => None,
    }
}

/// What the client hears from its socket.
pub enum SocketEvent {
    /// A server frame (already decoded from its text).
    Frame(ServerFrame),
    /// A text that does not decode as a server frame, or a message of another kind.
    Ignored,
    /// The server sent a close frame.
    Closed,
    /// The socket failed; the error's text.
    Failed(String),
    /// The stream ended.
    Ended,
}

impl App {
    /// Append a message to the first room buffer, if there is one.
    pub fn push_to_room(&mut self, msg: Message)
        ensures
            pushed_to_first_room(*old(self), *final(self), msg),
    {
        proof {
            lemma_first_index_facts(self.buffers@, is_room_buffer());
        }
        let _n = self.buffers.len();
        if let Some(idx) = self.first_of_kind(false) {
            match &mut self.buffers[idx] {
                Buffer::Room(rb) => {
                    rb.push_message(msg);
                },
                Buffer::Help(_) => {},
            }
        }
    }

    /// Handle a frame from the server: a posted message goes to the room
    /// timeline; errors and other frames change nothing.
    pub fn handle_server_frame(&mut self, frame: ServerFrame)
        ensures
            match posted_message(frame) {
                Some(m) => pushed_to_first_room(*old(self), *final(self), m),
                None => *final(self) == *old(self),
            },
    {
        match frame {
            ServerFrame::Response {
                result: CommandOutcome::Succeeded { payload: ResponsePayload::MessagePosted(m) },
                ..
            } => self.push_to_room(m),
            ServerFrame::Event(ServerEvent::MessagePosted(m)) => self.push_to_room(m),
            _ => {},
        }
    }

    /// The connection is up.
    pub fn on_connected(&mut self, server_url: String)
        ensures
            *final(self) == (App { connection: ConnectionState::Connected { server_url }, ..*old(self) }),
    {
        self.connection = ConnectionState::Connected { server_url };
    }

    /// Something ended the session (terminal closed, Ctrl+C): quit.
    pub fn request_quit(&mut self)
        ensures
            *final(self) == (App { should_quit: true, ..*old(self) }),
    {
        self.should_quit = true;
    }

    /// Handle what the socket delivered. A frame is handled as a server frame;
    /// a close, a failure or the end of the stream disconnects (with reason
    /// `server closed`, the error's text, or `stream ended`) and quits.
    pub fn handle_socket_event(&mut self, event: SocketEvent)
        ensures
            match event {
                SocketEvent::Frame(f) => match posted_message(f) {
                    Some(m) => pushed_to_first_room(*old(self), *final(self), m),
                    None => *final(self) == *old(self),
                },
                SocketEvent::Ignored => *final(self) == *old(self),
                SocketEvent::Closed => {
                    &&& *final(self) == App { should_quit: true, connection: final(self).connection, ..*old(self) }
                    &&& final(self).connection matches ConnectionState::Disconnected { reason } && reason@ == "server closed"@
                },
                SocketEvent::Failed(e) => *final(self) == App { should_quit: true, connection: ConnectionState::Disconnected { reason: e }, ..*old(self) },
                SocketEvent::Ended => {
                    &&& *final(self) == App { should_quit: true, connection: final(self).connection, ..*old(self) }
                    &&& final(self).connection matches ConnectionState::Disconnected { reason } && reason@ == "stream ended"@
                },
            },
    {
        match event {
            SocketEvent::Frame(f) => self.handle_server_frame(f),
            SocketEvent::Ignored => {},
            SocketEvent::Closed => {
                proof {
                    reveal_strlit("server closed");
                }
                self.connection = ConnectionState::Disconnected { reason: String::from_str("server closed") };
                self.should_quit = true;
            },
            SocketEvent::Failed(e) => {
                self.connection = ConnectionState::Disconnected { reason: e };
                self.should_quit = true;
            },
            SocketEvent::Ended => {
                proof {
                    reveal_strlit("stream ended");
                }
                self.connection = ConnectionState::Disconnected { reason: String::from_str("stream ended") };
                self.should_quit = true;
            },
        }
    }

    /// The line printed once the terminal is restored, when the connection was lost.
    pub fn disconnect_notice(&self) -> (r: Option<String>)
        ensures
            match self.connection {
                ConnectionState::Disconnected { reason } => r matches Some(s) && s@ == "connection lost: "@ + reason@,
                _ => r is None,
            },
    {
        match &self.connection {
            ConnectionState::Disconnected { reason } => {
                let mut s = String::from_str("connection lost: ");
                s.append(reason.as_str());
                Some(s)
            },
            _ => None,
        }
    }
}

} // verus!
