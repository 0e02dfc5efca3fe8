//! What each screen region shows: its text, split into styled spans, with
//! colours taken from the theme's semantic slots. The terminal layer lays
//! the regions out and paints these spans; every decision about what is
//! shown is made here.

use vstd::prelude::*;
use vstd::string::StringExecFns;

use crate::client::app::{App, ConnectionState, InputMode};
use crate::client::buffers::{
    body_content, buffer_kind, buffer_title, mention_needle, timeline_line, timeline_line_of, Buffer,
    BufferKind, HelpBuffer, RoomTimelineBuffer,
};
use crate::client::layout::Rect;
use crate::client::render::{short_uuid, short_uuid_string};
use crate::client::theme::{Color, Theme};
use crate::commands::parser::{classify_input, classify_spec, InputClass, InputClassView};
use crate::commands::registry::Command;
use crate::proto::Message;
use crate::text::{
    contains_seq, decimal, decimal_string, display_width, lowercase, text_width,
    trim_prefix_repeated, trim_prefix_str,
};

verus! {

/// How a span is painted: an optional foreground and background colour,
/// and whether it is bold. `None` leaves the colour to the enclosing region.
#[derive(Debug, Clone, Copy, PartialEq, Eq)]
pub struct Style {
    pub fg: Option<Color>,
    pub bg: Option<Color>,
    pub bold: bool,
}

/// A run of text painted in one style.
#[derive(Debug, Clone)]
pub struct StyledSpan {
    pub text: String,
    pub style: Style,
}

/// A region's lines and the style of the region as a whole.
#[derive(Debug, Clone)]
pub struct Panel {
    pub lines: Vec<Vec<StyledSpan>>,
    pub style: Style,
}

/// A span as text and style.
pub type SpanView = (Seq<char>, Style);

pub open spec fn span_view(s: StyledSpan) -> SpanView {
    (s.text@, s.style)
}

pub open spec fn line_view(l: Seq<StyledSpan>) -> Seq<SpanView> {
    l.map_values(|s: StyledSpan| span_view(s))
}

pub open spec fn lines_view(ls: Seq<Vec<StyledSpan>>) -> Seq<Seq<SpanView>> {
    ls.map_values(|l: Vec<StyledSpan>| line_view(l@))
}

pub open spec fn panel_view(p: Panel) -> (Seq<Seq<SpanView>>, Style) {
    (lines_view(p.lines@), p.style)
}

/// No colour of its own, not bold.
pub open spec fn plain() -> Style {
    Style { fg: None, bg: None, bold: false }
}

/// A foreground colour only.
pub open spec fn fg_only(c: Color) -> Style {
    Style { fg: Some(c), bg: None, bold: false }
}

/// A bold foreground colour.
pub open spec fn bold_fg(c: Color) -> Style {
    Style { fg: Some(c), bg: None, bold: true }
}

/// A background colour only.
pub open spec fn bg_only(c: Color) -> Style {
    Style { fg: None, bg: Some(c), bold: false }
}

fn make_style(fg: Option<Color>, bg: Option<Color>, bold: bool) -> (r: Style)
    ensures
        r == (Style { fg, bg, bold }),
{
    Style { fg, bg, bold }
}

fn span_of(text: &str, style: Style) -> (r: StyledSpan)
    ensures
        span_view(r) == (text@, style),
{
    StyledSpan { text: String::from_str(text), style }
}

// --- Minimum terminal size --------------------------------------------------

/// Columns needed with the sidebar shown.
pub const MIN_COLS: u16 = 60;

/// Columns needed with the sidebar hidden.
pub const MIN_COLS_NO_SIDEBAR: u16 = 50;

/// Rows needed.
pub const MIN_ROWS: u16 = 20;

/// The terminal is too small to draw the regions.
pub open spec fn too_small(width: u16, height: u16, sidebar_visible: bool) -> bool {
    width < (if sidebar_visible { MIN_COLS } else { MIN_COLS_NO_SIDEBAR }) || height < MIN_ROWS
}

pub fn is_too_small(width: u16, height: u16, sidebar_visible: bool) -> (r: bool)
    ensures
        r == too_small(width, height, sidebar_visible),
{
    let min_cols = if sidebar_visible {
        MIN_COLS
    } else {
        MIN_COLS_NO_SIDEBAR
    };
    width < min_cols || height < MIN_ROWS
}

/// The notice shown in place of the regions when the terminal is too small.
pub open spec fn too_small_message() -> Seq<char> {
    "terminal too small (need "@ + decimal(MIN_COLS as nat) + "×"@ + decimal(MIN_ROWS as nat)
        + ")"@
}

/// The too-small notice, painted in the theme's error colour.
pub fn too_small_notice(theme: &Theme) -> (r: StyledSpan)
    ensures
        span_view(r) == (too_small_message(), fg_only(theme.error)),
{
    let mut s = String::from_str("terminal too small (need ");
    let c = decimal_string(MIN_COLS as u64);
    s.append(c.as_str());
    s.append("×");
    let rows = decimal_string(MIN_ROWS as u64);
    s.append(rows.as_str());
    s.append(")");
    StyledSpan { text: s, style: make_style(Some(theme.error), None, false) }
}

/// Room and DM buffers get a header line above the timeline.
pub open spec fn needs_room_header(k: BufferKind) -> bool {
    k is Room || k is DirectMessage
}

pub fn has_room_header(k: BufferKind) -> (r: bool)
    ensures
        r == needs_room_header(k),
{
    matches!(k, BufferKind::Room | BufferKind::DirectMessage)
}

// --- Top bar ----------------------------------------------------------------

/// The connection part of the top bar.
pub open spec fn connection_span(c: ConnectionState, t: Theme) -> SpanView {
    match c {
        ConnectionState::Connecting => ("  connecting…  "@, fg_only(t.warning)),
        ConnectionState::Connected { server_url } => (
            "  connected  "@ + server_url@ + "  "@,
            fg_only(t.success),
        ),
        ConnectionState::Disconnected { reason } => (
            "  disconnected: "@ + reason@ + "  "@,
            fg_only(t.error),
        ),
    }
}

/// The top bar: who is signed in (display name and the short form of the
/// user id), then the connection state.
pub open spec fn topbar_line(a: App) -> Seq<SpanView> {
    seq![
        (
            " spaze · "@ + a.identity.display_name@ + "@"@ + short_uuid(a.identity.user_id.0)
                + "  "@,
            bold_fg(a.theme.primary),
        ),
        connection_span(a.connection, a.theme),
    ]
}

pub fn topbar_panel(app: &App) -> (r: Panel)
    ensures
        panel_view(r) == (
            seq![topbar_line(*app)],
            Style { fg: Some(app.theme.foreground), bg: Some(app.theme.surface), bold: false },
        ),
{
    let t = &app.theme;
    let mut who = String::from_str(" spaze · ");
    who.append(app.identity.display_name.as_str());
    who.append("@");
    let short = short_uuid_string(app.identity.user_id.as_uuid());
    who.append(short.as_str());
    who.append("  ");
    let first = StyledSpan { text: who, style: make_style(Some(t.primary), None, true) };
    let second = match &app.connection {
        ConnectionState::Connecting => span_of("  connecting…  ", make_style(Some(t.warning), None, false)),
        ConnectionState::Connected { server_url } => {
            let mut s = String::from_str("  connected  ");
            s.append(server_url.as_str());
            s.append("  ");
            StyledSpan { text: s, style: make_style(Some(t.success), None, false) }
        },
        ConnectionState::Disconnected { reason } => {
            let mut s = String::from_str("  disconnected: ");
            s.append(reason.as_str());
            s.append("  ");
            StyledSpan { text: s, style: make_style(Some(t.error), None, false) }
        },
    };
    let mut line: Vec<StyledSpan> = Vec::new();
    line.push(first);
    line.push(second);
    let mut lines: Vec<Vec<StyledSpan>> = Vec::new();
    lines.push(line);
    let r = Panel { lines, style: make_style(Some(t.foreground), Some(t.surface), false) };
    assert(line_view(lines@[0]@) =~= topbar_line(*app));
    assert(lines_view(r.lines@) =~= seq![topbar_line(*app)]);
    r
}

// --- Status bar -------------------------------------------------------------

pub open spec fn mode_name(m: InputMode) -> Seq<char> {
    match m {
        InputMode::Normal => "NORMAL"@,
        InputMode::Insert => "INSERT"@,
    }
}

/// How many messages the buffer holds (none for the help buffer).
pub open spec fn message_count(b: Buffer) -> nat {
    match b {
        Buffer::Room(r) => r.messages@.len(),
        Buffer::Help(_) => 0,
    }
}

/// The left part of the status bar: the input mode, then the active
/// buffer's title and message count.
pub open spec fn status_left(a: App) -> Seq<SpanView> {
    let b = a.buffers@[a.active as int];
    seq![
        (
            " "@ + mode_name(a.mode) + " "@,
            Style { fg: Some(a.theme.background), bg: Some(a.theme.primary), bold: true },
        ),
        (" "@, plain()),
        (
            "· "@ + buffer_title(b) + " · "@ + decimal(message_count(b)) + " messages"@,
            fg_only(a.theme.muted),
        ),
    ]
}

/// The right part of the status bar: the theme's name.
pub open spec fn status_right(t: Theme) -> Seq<SpanView> {
    seq![("theme: "@ + t.syntect_theme_name@ + " "@, fg_only(t.muted))]
}

/// The status bar's left and right panels.
pub fn statusbar_panels(app: &App) -> (r: (Panel, Panel))
    requires
        app.active < app.buffers@.len(),
    ensures
        panel_view(r.0) == (seq![status_left(*app)], bg_only(app.theme.surface)),
        panel_view(r.1) == (seq![status_right(app.theme)], bg_only(app.theme.surface)),
{
    let t = &app.theme;
    let b = &app.buffers[app.active];
    let mut mode = String::from_str(" ");
    match app.mode {
        InputMode::Normal => mode.append("NORMAL"),
        InputMode::Insert => mode.append("INSERT"),
    }
    mode.append(" ");
    let count: usize = match b {
        Buffer::Room(rb) => rb.messages.len(),
        Buffer::Help(_) => 0,
    };
    let mut info = String::from_str("· ");
    info.append(b.title());
    info.append(" · ");
    let n = decimal_string(count as u64);
    info.append(n.as_str());
    info.append(" messages");
    let mut left: Vec<StyledSpan> = Vec::new();
    left.push(StyledSpan { text: mode, style: make_style(Some(t.background), Some(t.primary), true) });
    left.push(span_of(" ", make_style(None, None, false)));
    left.push(StyledSpan { text: info, style: make_style(Some(t.muted), None, false) });
    let mut name = String::from_str("theme: ");
    name.append(t.syntect_theme_name);
    name.append(" ");
    let mut right: Vec<StyledSpan> = Vec::new();
    right.push(StyledSpan { text: name, style: make_style(Some(t.muted), None, false) });
    let mut llines: Vec<Vec<StyledSpan>> = Vec::new();
    llines.push(left);
    let mut rlines: Vec<Vec<StyledSpan>> = Vec::new();
    rlines.push(right);
    let lp = Panel { lines: llines, style: make_style(None, Some(t.surface), false) };
    let rp = Panel { lines: rlines, style: make_style(None, Some(t.surface), false) };
    assert(line_view(llines@[0]@) =~= status_left(*app));
    assert(lines_view(lp.lines@) =~= seq![status_left(*app)]);
    assert(line_view(rlines@[0]@) =~= status_right(app.theme));
    assert(lines_view(rp.lines@) =~= seq![status_right(app.theme)]);
    (lp, rp)
}

// --- Sidebar ----------------------------------------------------------------

/// The server row's label: the server URL without its leading `ws://`
/// prefixes while connected, a dash otherwise.
pub open spec fn server_label(c: ConnectionState) -> Seq<char> {
    match c {
        ConnectionState::Connected { server_url } => trim_prefix_repeated(server_url@, "ws://"@),
        _ => "—"@,
    }
}

pub open spec fn room_row_style(active: bool, t: Theme) -> Style {
    if active {
        Style { fg: Some(t.tab_room), bg: Some(t.overlay), bold: false }
    } else {
        fg_only(t.subtle)
    }
}

/// One sidebar row per room buffer, in buffer order; the active one is
/// highlighted.
pub open spec fn room_rows(b: Seq<Buffer>, active: usize, t: Theme) -> Seq<Seq<SpanView>>
    decreases b.len(),
{
    if b.len() == 0 {
        Seq::empty()
    } else {
        let rest = room_rows(b.drop_last(), active, t);
        match b.last() {
            Buffer::Room(rb) => rest.push(
                seq![("    "@ + rb.display_name@, room_row_style(b.len() - 1 == active, t))],
            ),
            Buffer::Help(_) => rest,
        }
    }
}

pub open spec fn sidebar_head(a: App) -> Seq<Seq<SpanView>> {
    seq![
        seq![(" SERVERS"@, fg_only(a.theme.muted))],
        seq![(" ▼ "@ + server_label(a.connection), bold_fg(a.theme.primary))],
        seq![("    › repo binding TBD"@, fg_only(a.theme.muted))],
        Seq::empty(),
        seq![("    ROOMS"@, fg_only(a.theme.muted))],
    ]
}

pub open spec fn sidebar_tail(t: Theme) -> Seq<Seq<SpanView>> {
    seq![
        Seq::empty(),
        seq![("    DIRECT MESSAGES"@, fg_only(t.muted))],
        seq![("    (none)"@, fg_only(t.subtle))],
    ]
}

pub open spec fn sidebar_footer(t: Theme) -> Seq<Seq<SpanView>> {
    seq![
        seq![(" + add server…"@, fg_only(t.muted))],
        seq![(" 🔍 search   ⚙ settings   ? help"@, fg_only(t.muted))],
    ]
}

/// The sidebar's list: servers, rooms, direct messages.
pub open spec fn sidebar_body(a: App) -> Seq<Seq<SpanView>> {
    sidebar_head(a) + room_rows(a.buffers@, a.active, a.theme) + sidebar_tail(a.theme)
}

/// `n` capped at the largest row number.
pub open spec fn row_cap(n: nat) -> nat {
    if n > u16::MAX {
        u16::MAX as nat
    } else {
        n
    }
}

/// The row the footer starts on: two rows above the bottom of a sidebar of
/// `height` rows, or one row below a list of `n` rows that reaches that far.
pub open spec fn footer_row(height: u16, n: nat) -> nat {
    let f: nat = if height >= 2 { (height - 2) as nat } else { 0 };
    if f < row_cap(n) {
        row_cap(n + 1)
    } else {
        f
    }
}

/// The sidebar's lines: the list, blank rows down to the footer row, then
/// the footer.
pub open spec fn sidebar_lines(a: App, height: u16) -> Seq<Seq<SpanView>> {
    let body = sidebar_body(a);
    let f = footer_row(height, body.len());
    let pad: nat = if f > body.len() { (f - body.len()) as nat } else { 0 };
    body + Seq::new(pad, |i: int| Seq::<SpanView>::empty()) + sidebar_footer(a.theme)
}

fn one_span_line(text: &str, style: Style) -> (r: Vec<StyledSpan>)
    ensures
        line_view(r@) == seq![(text@, style)],
{
    let mut v: Vec<StyledSpan> = Vec::new();
    v.push(span_of(text, style));
    assert(line_view(v@) =~= seq![(text@, style)]);
    v
}

proof fn lemma_lines_push(ls: Seq<Vec<StyledSpan>>, l: Vec<StyledSpan>)
    ensures
        lines_view(ls.push(l)) == lines_view(ls).push(line_view(l@)),
{
    assert(lines_view(ls.push(l)) =~= lines_view(ls).push(line_view(l@)));
}

proof fn lemma_line_push(l: Seq<StyledSpan>, s: StyledSpan)
    ensures
        line_view(l.push(s)) == line_view(l).push(span_view(s)),
{
    assert(line_view(l.push(s)) =~= line_view(l).push(span_view(s)));
}

/// A count as a row number, capped at the largest one.
fn row_number(n: usize) -> (r: u16)
    ensures
        r as nat == row_cap(n as nat),
{
    if n > 65535 {
        65535
    } else {
        n as u16
    }
}

/// The sidebar for a region `height` rows tall.
pub fn sidebar_panel(app: &App, height: u16) -> (r: Panel)
    ensures
        panel_view(r) == (sidebar_lines(*app, height), bg_only(app.theme.surface)),
{
    let t = &app.theme;
    let mut lines: Vec<Vec<StyledSpan>> = Vec::new();
    lines.push(one_span_line(" SERVERS", make_style(Some(t.muted), None, false)));
    let mut label = String::from_str(" ▼ ");
    match &app.connection {
        ConnectionState::Connected { server_url } => {
            label.append(trim_prefix_str(server_url.as_str(), "ws://"));
        },
        _ => {
            label.append("—");
        },
    }
    let mut row: Vec<StyledSpan> = Vec::new();
    row.push(StyledSpan { text: label, style: make_style(Some(t.primary), None, true) });
    proof {
        lemma_line_push(Seq::empty(), row@[0]);
        assert(Seq::<StyledSpan>::empty().push(row@[0]) == row@);
    }
    lines.push(row);
    lines.push(one_span_line("    › repo binding TBD", make_style(Some(t.muted), None, false)));
    lines.push(Vec::new());
    lines.push(one_span_line("    ROOMS", make_style(Some(t.muted), None, false)));
    assert(lines_view(lines@) =~~= sidebar_head(*app));
    let n = app.buffers.len();
    let mut i: usize = 0;
    while i < n
        invariant
            i <= n,
            n == app.buffers@.len(),
            lines_view(lines@) == sidebar_head(*app) + room_rows(app.buffers@.take(i as int), app.active, app.theme),
        decreases n - i,
    {
        let ghost before = lines@;
        assert(app.buffers@.take(i + 1).drop_last() =~= app.buffers@.take(i as int));
        match &app.buffers[i] {
            Buffer::Room(rb) => {
                let mut text = String::from_str("    ");
                text.append(rb.title());
                let style = if i == app.active {
                    make_style(Some(app.theme.tab_room), Some(app.theme.overlay), false)
                } else {
                    make_style(Some(app.theme.subtle), None, false)
                };
                let mut row: Vec<StyledSpan> = Vec::new();
                row.push(StyledSpan { text, style });
                assert(line_view(row@) =~= seq![("    "@ + rb.display_name@, room_row_style(i == app.active, app.theme))]);
                proof {
                    lemma_lines_push(before, row);
                }
                lines.push(row);
            },
            Buffer::Help(_) => {},
        }
        i = i + 1;
    }
    assert(app.buffers@.take(n as int) =~= app.buffers@);
    let ghost mid = lines@;
    lines.push(Vec::new());
    lines.push(one_span_line("    DIRECT MESSAGES", make_style(Some(t.muted), None, false)));
    lines.push(one_span_line("    (none)", make_style(Some(t.subtle), None, false)));
    assert(lines_view(lines@) =~= lines_view(mid) + sidebar_tail(app.theme));
    assert(lines_view(lines@) == sidebar_body(*app));
    let ghost body = lines@;
    let count = lines.len();
    let len16 = row_number(count);
    let mut footer_y: u16 = if height >= 2 {
        height - 2
    } else {
        0
    };
    if footer_y < len16 {
        footer_y = if len16 == 65535 {
            65535
        } else {
            len16 + 1
        };
    }
    assert(footer_y as nat == footer_row(height, body.len()));
    while row_number(lines.len()) < footer_y
        invariant
            body.len() == count,
            count <= lines@.len(),
            footer_y as nat == footer_row(height, count as nat),
            lines@.len() <= count || lines@.len() <= footer_y,
            lines_view(lines@) == lines_view(body) + Seq::new(
                (lines@.len() - count) as nat,
                |i: int| Seq::<SpanView>::empty(),
            ),
        decreases footer_y - lines@.len(),
    {
        let ghost prev = lines@;
        let blank: Vec<StyledSpan> = Vec::new();
        proof {
            lemma_lines_push(prev, blank);
        }
        lines.push(blank);
        assert(lines_view(lines@) =~~= lines_view(body) + Seq::new(
            (lines@.len() - count) as nat,
            |i: int| Seq::<SpanView>::empty(),
        ));
    }
    let ghost padded = lines@;
    lines.push(one_span_line(" + add server…", make_style(Some(t.muted), None, false)));
    lines.push(one_span_line(" 🔍 search   ⚙ settings   ? help", make_style(Some(t.muted), None, false)));
    assert(lines_view(lines@) =~= lines_view(padded) + sidebar_footer(app.theme));
    let r = Panel { lines, style: make_style(None, Some(t.surface), false) };
    assert(padded.len() == if footer_row(height, count as nat) > count {
        footer_row(height, count as nat)
    } else {
        count as nat
    });
    assert(lines_view(r.lines@) =~= sidebar_lines(*app, height));
    r
}

// --- Tab strip --------------------------------------------------------------

/// A tab's colour: by the kind of its buffer.
pub open spec fn tab_fg(k: BufferKind, t: Theme) -> Color {
    match k {
        BufferKind::Room => t.tab_room,
        BufferKind::DirectMessage => t.tab_dm,
        BufferKind::Help => t.muted,
        _ => t.tab_special,
    }
}

/// The active tab is bold on the overlay colour.
pub open spec fn tab_style(k: BufferKind, active: bool, t: Theme) -> Style {
    if active {
        Style { fg: Some(tab_fg(k, t)), bg: Some(t.overlay), bold: true }
    } else {
        fg_only(tab_fg(k, t))
    }
}

pub open spec fn tab_label(b: Buffer) -> Seq<char> {
    " "@ + buffer_title(b) + " "@
}

/// A label's width in cells: its char count, capped at the largest row number.
pub open spec fn label_width(b: Buffer) -> int {
    row_cap(tab_label(b).len()) as int
}

/// The strip's state while its tabs are laid out: the full lines, the line
/// being filled, that line's width, and whether the strip is full.
pub type TabScan = (Seq<Seq<SpanView>>, Seq<SpanView>, int, bool);

/// Lays out one more tab. Each tab takes its label's width and one cell of
/// gutter. A tab that does not fit on a started line begins a new one; once
/// three lines are full, the line being filled shows an ellipsis and no
/// further tab is shown.
pub open spec fn tab_step(st: TabScan, b: Buffer, active: bool, t: Theme, width: u16) -> TabScan {
    if st.3 {
        st
    } else {
        let lw = label_width(b);
        let wrap = st.2 + lw + 1 > width && st.1.len() > 0;
        let lines = if wrap { st.0.push(st.1) } else { st.0 };
        let w = if wrap { 0 } else { st.2 };
        if lines.len() >= 3 {
            (lines, seq![(" … "@, fg_only(t.muted))], w + lw + 1, true)
        } else {
            let cur = if wrap { Seq::empty() } else { st.1 };
            (
                lines,
                cur.push((tab_label(b), tab_style(buffer_kind(b), active, t))).push((" "@, plain())),
                w + lw + 1,
                false,
            )
        }
    }
}

pub open spec fn tab_scan(b: Seq<Buffer>, active: usize, t: Theme, width: u16) -> TabScan
    decreases b.len(),
{
    if b.len() == 0 {
        (Seq::empty(), Seq::empty(), 0, false)
    } else {
        tab_step(tab_scan(b.drop_last(), active, t, width), b.last(), b.len() - 1 == active, t, width)
    }
}

/// The tab strip's lines for a strip `width` cells wide: one tab per buffer,
/// in buffer order.
pub open spec fn tab_strip_lines(b: Seq<Buffer>, active: usize, t: Theme, width: u16) -> Seq<Seq<SpanView>> {
    let st = tab_scan(b, active, t, width);
    if st.1.len() > 0 {
        st.0.push(st.1)
    } else {
        st.0
    }
}

/// The tab strip for a region `width` cells wide.
pub fn tab_strip_panel(app: &App, width: u16) -> (r: Panel)
    ensures
        panel_view(r) == (
            tab_strip_lines(app.buffers@, app.active, app.theme, width),
            bg_only(app.theme.surface),
        ),
{
    let n = app.buffers.len();
    let mut lines: Vec<Vec<StyledSpan>> = Vec::new();
    let mut cur: Vec<StyledSpan> = Vec::new();
    let mut cur_width: u32 = 0;
    let mut done = false;
    let mut i: usize = 0;
    assert(lines_view(lines@) =~= Seq::empty());
    assert(line_view(cur@) =~= Seq::empty());
    while i < n
        invariant
            i <= n,
            n == app.buffers@.len(),
            (lines_view(lines@), line_view(cur@), cur_width as int, done) == tab_scan(
                app.buffers@.take(i as int),
                app.active,
                app.theme,
                width,
            ),
            cur_width <= 65536,
            !done && cur@.len() == 0 ==> cur_width == 0,
        decreases n - i,
    {
        assert(app.buffers@.take(i + 1).drop_last() =~= app.buffers@.take(i as int));
        if !done {
            let b = &app.buffers[i];
            let mut label = String::from_str(" ");
            label.append(b.title());
            label.append(" ");
            let lw: u32 = row_number(label.unicode_len()) as u32;
            let wrap = cur_width + lw + 1 > width as u32 && cur.len() > 0;
            if wrap {
                let ghost prev = lines@;
                let full = cur;
                proof {
                    lemma_lines_push(prev, full);
                }
                lines.push(full);
                cur = Vec::new();
                cur_width = 0;
                assert(line_view(cur@) =~= Seq::empty());
            }
            if lines.len() >= 3 {
                cur = Vec::new();
                cur.push(span_of(" … ", make_style(Some(app.theme.muted), None, false)));
                assert(line_view(cur@) =~= seq![(" … "@, fg_only(app.theme.muted))]);
                done = true;
            } else {
                let kind = b.kind();
                let style = if i == app.active {
                    make_style(Some(tab_color(kind, &app.theme)), Some(app.theme.overlay), true)
                } else {
                    make_style(Some(tab_color(kind, &app.theme)), None, false)
                };
                let ghost c0 = cur@;
                let s1 = StyledSpan { text: label, style };
                let s2 = span_of(" ", make_style(None, None, false));
                proof {
                    lemma_line_push(c0, s1);
                    lemma_line_push(c0.push(s1), s2);
                }
                cur.push(s1);
                cur.push(s2);
            }
            cur_width = cur_width + lw + 1;
        }
        i = i + 1;
    }
    assert(app.buffers@.take(n as int) =~= app.buffers@);
    if cur.len() > 0 {
        let ghost prev = lines@;
        proof {
            lemma_lines_push(prev, cur);
        }
        lines.push(cur);
    }
    Panel { lines, style: make_style(None, Some(app.theme.surface), false) }
}

fn tab_color(k: BufferKind, t: &Theme) -> (r: Color)
    ensures
        r == tab_fg(k, *t),
{
    match k {
        BufferKind::Room => t.tab_room,
        BufferKind::DirectMessage => t.tab_dm,
        BufferKind::Help => t.muted,
        _ => t.tab_special,
    }
}

// --- Room header ------------------------------------------------------------

/// The header above a room timeline: the room's title, its repository
/// binding (the bound subpath, or else the repository's name) and its topic.
/// Only room buffers have one.
pub open spec fn room_header_line(b: Buffer, t: Theme) -> Option<Seq<SpanView>> {
    match b {
        Buffer::Room(rb) => {
            let title = seq![(" "@ + rb.display_name@ + " "@, bold_fg(t.tab_room))];
            let binding = match rb.repo_binding {
                Some(rbind) => seq![
                    (
                        match rbind.subpath {
                            Some(p) => "· "@ + p@ + "/"@,
                            None => "· "@ + rbind.repo_name@,
                        },
                        fg_only(t.tab_special),
                    ),
                ],
                None => Seq::empty(),
            };
            let topic = match rb.topic {
                Some(tp) => seq![("  "@, plain()), ("— "@ + tp@, fg_only(t.muted))],
                None => Seq::empty(),
            };
            Some(title + binding + topic)
        },
        Buffer::Help(_) => None,
    }
}

/// The header of the active buffer, if it is a room.
pub fn room_header_panel(app: &App) -> (r: Option<Panel>)
    requires
        app.active < app.buffers@.len(),
    ensures
        match room_header_line(app.buffers@[app.active as int], app.theme) {
            Some(l) => r matches Some(p) && panel_view(p) == (seq![l], bg_only(app.theme.surface)),
            None => r is None,
        },
{
    let t = &app.theme;
    let rb = match &app.buffers[app.active] {
        Buffer::Room(rb) => rb,
        Buffer::Help(_) => {
            return None;
        },
    };
    let mut spans: Vec<StyledSpan> = Vec::new();
    let mut title = String::from_str(" ");
    title.append(rb.title());
    title.append(" ");
    spans.push(StyledSpan { text: title, style: make_style(Some(t.tab_room), None, true) });
    let ghost first = line_view(spans@);
    match &rb.repo_binding {
        Some(binding) => {
            let mut text = String::from_str("· ");
            match &binding.subpath {
                Some(p) => {
                    text.append(p.as_str());
                    text.append("/");
                },
                None => {
                    text.append(binding.repo_name.as_str());
                },
            }
            let ghost c0 = spans@;
            let sp = StyledSpan { text, style: make_style(Some(t.tab_special), None, false) };
            proof {
                lemma_line_push(c0, sp);
            }
            spans.push(sp);
        },
        None => {},
    }
    let ghost second = line_view(spans@);
    match &rb.topic {
        Some(tp) => {
            let mut text = String::from_str("— ");
            text.append(tp.as_str());
            let ghost c0 = spans@;
            let s1 = span_of("  ", make_style(None, None, false));
            let s2 = StyledSpan { text, style: make_style(Some(t.muted), None, false) };
            proof {
                lemma_line_push(c0, s1);
                lemma_line_push(c0.push(s1), s2);
            }
            spans.push(s1);
            spans.push(s2);
        },
        None => {},
    }
    let ghost l = room_header_line(app.buffers@[app.active as int], app.theme).unwrap();
    assert(line_view(spans@) =~= l);
    let mut lines: Vec<Vec<StyledSpan>> = Vec::new();
    lines.push(spans);
    let p = Panel { lines, style: make_style(None, Some(t.surface), false) };
    assert(lines_view(p.lines@) =~= seq![l]);
    Some(p)
}

// --- Input line -------------------------------------------------------------

/// The input text's colour follows what it would do if sent: plain text in
/// the foreground colour, a known command in the success colour, an unknown
/// one in the error colour.
pub open spec fn class_color(c: InputClassView, t: Theme) -> Color {
    match c {
        InputClassView::Text => t.foreground,
        InputClassView::EscapedText => t.foreground,
        InputClassView::ValidCommand(_) => t.success,
        InputClassView::InvalidCommand(_) => t.error,
    }
}

/// The prompt is muted in Normal mode and bold in Insert mode.
pub open spec fn prompt_style(m: InputMode, t: Theme) -> Style {
    match m {
        InputMode::Normal => fg_only(t.muted),
        InputMode::Insert => bold_fg(t.primary),
    }
}

/// The input line: the prompt, then the text being typed.
pub open spec fn input_line(a: App, reg: Seq<Command>) -> Seq<SpanView> {
    seq![
        ("› "@, prompt_style(a.mode, a.theme)),
        (a.input_buffer@, fg_only(class_color(classify_spec(a.input_buffer@, reg), a.theme))),
    ]
}

pub fn input_panel(app: &App, registry: &[Command]) -> (r: Panel)
    ensures
        panel_view(r) == (seq![input_line(*app, registry@)], bg_only(app.theme.surface)),
{
    let t = &app.theme;
    let prompt = match app.mode {
        InputMode::Normal => span_of("› ", make_style(Some(t.muted), None, false)),
        InputMode::Insert => span_of("› ", make_style(Some(t.primary), None, true)),
    };
    let class = classify_input(app.input_buffer.as_str(), registry);
    let fg = match class {
        InputClass::Text => t.foreground,
        InputClass::EscapedText => t.foreground,
        InputClass::ValidCommand { .. } => t.success,
        InputClass::InvalidCommand { .. } => t.error,
    };
    let body = span_of(app.input_buffer.as_str(), make_style(Some(fg), None, false));
    let mut spans: Vec<StyledSpan> = Vec::new();
    spans.push(prompt);
    spans.push(body);
    assert(line_view(spans@) =~= input_line(*app, registry@));
    let mut lines: Vec<Vec<StyledSpan>> = Vec::new();
    lines.push(spans);
    let p = Panel { lines, style: make_style(None, Some(t.surface), false) };
    assert(lines_view(p.lines@) =~= seq![input_line(*app, registry@)]);
    p
}

/// The cursor's column in Insert mode: after the two-cell prompt and the
/// input's width in cells, kept inside the input region.
pub open spec fn cursor_col(area: Rect, input_width: nat) -> u16 {
    let cursor = row_cap(2 + row_cap(input_width));
    let right = row_cap((area.x + area.width) as nat);
    let max_col: int = if right >= 1 { right - 1 } else { 0 };
    (if area.x + cursor < max_col { area.x + cursor } else { max_col }) as u16
}

/// The cursor's column for an input `input_width` cells wide.
pub fn cursor_column(area: &Rect, input_width: usize) -> (r: u16)
    ensures
        r == cursor_col(*area, input_width as nat),
{
    let w = row_number(input_width) as u32;
    let cursor: u32 = if 2 + w > 65535 {
        65535
    } else {
        2 + w
    };
    let right_edge = area.x as u32 + area.width as u32;
    let right: u32 = if right_edge > 65535 {
        65535
    } else {
        right_edge
    };
    let max_col: u32 = if right >= 1 {
        right - 1
    } else {
        0
    };
    let col = area.x as u32 + cursor;
    if col < max_col {
        col as u16
    } else {
        max_col as u16
    }
}

/// Where the terminal cursor goes: in Insert mode, after the input text,
/// measured in display cells; in Normal mode the cursor is hidden.
pub fn input_cursor(app: &App, area: &Rect) -> (r: Option<u16>)
    ensures
        match app.mode {
            InputMode::Insert => r == Some(cursor_col(*area, display_width(app.input_buffer@))),
            InputMode::Normal => r is None,
        },
{
    match app.mode {
        InputMode::Insert => {
            let w = text_width(app.input_buffer.as_str());
            Some(cursor_column(area, w))
        },
        InputMode::Normal => None,
    }
}

// --- Help buffer ------------------------------------------------------------

/// The keybindings the help buffer lists: global ones (Normal mode), those
/// of Insert mode, then those of single buffers.
pub open spec fn keybindings() -> Seq<(Seq<char>, Seq<char>)> {
    seq![
        ("Tab"@, "next tab"@),
        ("Shift-Tab"@, "previous tab"@),
        ("Ctrl+B"@, "toggle sidebar"@),
        ("i"@, "enter Insert mode (focus input)"@),
        ("?"@, "open this help"@),
        ("q"@, "quit"@),
        ("Ctrl+C"@, "quit"@),
        ("Esc"@, "Insert → Normal (input preserved)"@),
        ("Enter"@, "send message"@),
        ("Backspace"@, "delete char"@),
        ("PageUp/PageDown"@, "scroll timeline (Room)"@),
        ("Home/End"@, "top/bottom (Room)"@),
        ("j/k or Up/Down"@, "scroll help text"@),
    ]
}

pub fn keybinding_table() -> (r: Vec<(&'static str, &'static str)>)
    ensures
        r@.map_values(|p: (&'static str, &'static str)| (p.0@, p.1@)) == keybindings(),
{
    let mut v: Vec<(&'static str, &'static str)> = Vec::new();
    v.push(("Tab", "next tab"));
    v.push(("Shift-Tab", "previous tab"));
    v.push(("Ctrl+B", "toggle sidebar"));
    v.push(("i", "enter Insert mode (focus input)"));
    v.push(("?", "open this help"));
    v.push(("q", "quit"));
    v.push(("Ctrl+C", "quit"));
    v.push(("Esc", "Insert → Normal (input preserved)"));
    v.push(("Enter", "send message"));
    v.push(("Backspace", "delete char"));
    v.push(("PageUp/PageDown", "scroll timeline (Room)"));
    v.push(("Home/End", "top/bottom (Room)"));
    v.push(("j/k or Up/Down", "scroll help text"));
    assert(v@.map_values(|p: (&'static str, &'static str)| (p.0@, p.1@)) =~= keybindings());
    v
}

/// `s` right-aligned in a field `w` chars wide.
pub open spec fn pad_left(s: Seq<char>, w: nat) -> Seq<char> {
    if s.len() < w {
        Seq::new((w - s.len()) as nat, |i: int| ' ') + s
    } else {
        s
    }
}

fn padded_left(s: &str, w: usize) -> (r: String)
    ensures
        r@ == pad_left(s@, w as nat),
{
    let n = s.unicode_len();
    let mut out = String::new();
    let mut k: usize = n;
    while k < w
        invariant
            n == s@.len(),
            n <= k <= w || (k == n && n >= w),
            out@ == Seq::new((k - n) as nat, |i: int| ' '),
        decreases w - k,
    {
        proof {
            reveal_strlit(" ");
        }
        out.append(" ");
        k = k + 1;
        assert(out@ =~= Seq::new((k - n) as nat, |i: int| ' '));
    }
    out.append(s);
    assert(out@ =~= pad_left(s@, w as nat));
    out
}

pub open spec fn keybinding_line(kb: (Seq<char>, Seq<char>), t: Theme) -> Seq<SpanView> {
    seq![("  "@ + pad_left(kb.0, 16) + "  "@, fg_only(t.primary)), (kb.1, fg_only(t.muted))]
}

/// The help buffer's text: a title, a blank line, then one line per
/// keybinding with the key right-aligned in a 16-char column.
pub open spec fn help_lines(t: Theme) -> Seq<Seq<SpanView>> {
    seq![seq![("Spaze · Phase 1.B keybindings"@, bold_fg(t.foreground))], Seq::empty()]
        + keybindings().map_values(|kb: (Seq<char>, Seq<char>)| keybinding_line(kb, t))
}

pub fn help_text(theme: &Theme) -> (r: Vec<Vec<StyledSpan>>)
    ensures
        lines_view(r@) == help_lines(*theme),
{
    let mut lines: Vec<Vec<StyledSpan>> = Vec::new();
    lines.push(one_span_line("Spaze · Phase 1.B keybindings", make_style(Some(theme.foreground), None, true)));
    lines.push(Vec::new());
    assert(lines_view(lines@) =~~= seq![seq![("Spaze · Phase 1.B keybindings"@, bold_fg(theme.foreground))], Seq::<SpanView>::empty()]);
    let table = keybinding_table();
    let ghost kbs = keybindings();
    let n = table.len();
    let mut i: usize = 0;
    while i < n
        invariant
            i <= n,
            n == table@.len(),
            table@.map_values(|p: (&'static str, &'static str)| (p.0@, p.1@)) == kbs,
            kbs == keybindings(),
            lines_view(lines@) == seq![seq![("Spaze · Phase 1.B keybindings"@, bold_fg(theme.foreground))], Seq::<SpanView>::empty()]
                + kbs.take(i as int).map_values(|kb: (Seq<char>, Seq<char>)| keybinding_line(kb, *theme)),
        decreases n - i,
    {
        let (key, desc) = table[i];
        assert(kbs[i as int] == (key@, desc@));
        let mut head = String::from_str("  ");
        let padded = padded_left(key, 16);
        head.append(padded.as_str());
        head.append("  ");
        let mut row: Vec<StyledSpan> = Vec::new();
        row.push(StyledSpan { text: head, style: make_style(Some(theme.primary), None, false) });
        row.push(span_of(desc, make_style(Some(theme.muted), None, false)));
        assert(line_view(row@) =~= keybinding_line(kbs[i as int], *theme));
        let ghost prev = lines@;
        proof {
            lemma_lines_push(prev, row);
        }
        lines.push(row);
        assert(kbs.take(i + 1).map_values(|kb: (Seq<char>, Seq<char>)| keybinding_line(kb, *theme))
            =~= kbs.take(i as int).map_values(|kb: (Seq<char>, Seq<char>)| keybinding_line(kb, *theme)).push(keybinding_line(kbs[i as int], *theme)));
        i = i + 1;
    }
    assert(kbs.take(n as int) =~= kbs);
    lines
}

// --- Buffer contents --------------------------------------------------------

/// The message mentions the buffer's user (see
/// [`RoomTimelineBuffer::mentions_self`]).
pub open spec fn mentions(rb: RoomTimelineBuffer, m: Message) -> bool {
    contains_seq(lowercase(body_content(m.body)), mention_needle(rb.self_display_name@))
}

/// A timeline row: the message's line, bold in the mention colour when it
/// mentions the buffer's user.
pub open spec fn timeline_row(rb: RoomTimelineBuffer, m: Message, t: Theme) -> Seq<SpanView> {
    seq![(timeline_line(m), if mentions(rb, m) { bold_fg(t.mention) } else { plain() })]
}

/// The lines a buffer's body shows, top first: one row per message, oldest
/// first, for a room; the help text for the help buffer.
pub open spec fn buffer_lines(b: Buffer, t: Theme) -> Seq<Seq<SpanView>> {
    match b {
        Buffer::Room(rb) => rb.messages@.map_values(|m: Message| timeline_row(rb, m, t)),
        Buffer::Help(_) => help_lines(t),
    }
}

/// The first row of a room's lines shown in a body `height` rows tall: the
/// newest lines fill the body, shifted up by the scroll offset (never above
/// the first line).
pub open spec fn first_visible(total: nat, height: u16, offset: u16) -> nat {
    let bottom_start: int = if total > height { total - height } else { 0 };
    let start: int = if bottom_start > offset { bottom_start - offset } else { 0 };
    row_cap(start as nat)
}

pub fn first_visible_row(total: usize, height: u16, offset: u16) -> (r: u16)
    ensures
        r as nat == first_visible(total as nat, height, offset),
{
    let bottom_start: usize = if total > height as usize {
        total - height as usize
    } else {
        0
    };
    let start: usize = if bottom_start > offset as usize {
        bottom_start - offset as usize
    } else {
        0
    };
    row_number(start)
}

impl RoomTimelineBuffer {
    pub fn render(&self, theme: &Theme) -> (r: Vec<Vec<StyledSpan>>)
        ensures
            lines_view(r@) == buffer_lines(Buffer::Room(*self), *theme),
    {
        let ghost rows = self.messages@.map_values(|m: Message| timeline_row(*self, m, *theme));
        let mut lines: Vec<Vec<StyledSpan>> = Vec::new();
        let n = self.messages.len();
        let mut k: usize = 0;
        while k < n
            invariant
                k <= n,
                n == self.messages@.len(),
                rows == self.messages@.map_values(|m: Message| timeline_row(*self, m, *theme)),
                lines_view(lines@) == rows.take(k as int),
            decreases n - k,
        {
            let m = &self.messages[k];
            let text = timeline_line_of(m);
            let style = if self.mentions_self(m) {
                make_style(Some(theme.mention), None, true)
            } else {
                make_style(None, None, false)
            };
            let mut row: Vec<StyledSpan> = Vec::new();
            row.push(StyledSpan { text, style });
            assert(line_view(row@) =~= timeline_row(*self, self.messages@[k as int], *theme));
            let ghost prev = lines@;
            proof {
                lemma_lines_push(prev, row);
            }
            lines.push(row);
            assert(rows.take(k + 1) =~= rows.take(k as int).push(rows[k as int]));
            k = k + 1;
        }
        assert(rows.take(n as int) =~= rows);
        lines
    }
}

impl HelpBuffer {
    pub fn render(&self, theme: &Theme) -> (r: Vec<Vec<StyledSpan>>)
        ensures
            lines_view(r@) == buffer_lines(Buffer::Help(*self), *theme),
    {
        help_text(theme)
    }
}

impl Buffer {
    pub fn render(&self, theme: &Theme) -> (r: Vec<Vec<StyledSpan>>)
        ensures
            lines_view(r@) == buffer_lines(*self, *theme),
    {
        match self {
            Buffer::Room(b) => b.render(theme),
            Buffer::Help(b) => b.render(theme),
        }
    }
}

} // verus!
