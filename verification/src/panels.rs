//! Where text stands in the panels that are drawn over the video, and what it
//! says.
use vstd::prelude::*;
use crate::bitmap::{highlight_places, highlighted, finish_text, text_pixel, Bitmap, Pixel, TextStyle};
use crate::overlay::Size;
use crate::text::{from_chars, from_range, is_blank, owned, same_text, to_chars, trim_seq};
use crate::time::Duration;
use crate::window::Rect;

verus! {

/// A name cut to a number of characters, with an ellipsis in place of the rest;
/// without room for the ellipsis nothing is left.
pub open spec fn truncated(name: Seq<char>, max: int) -> Seq<char> {
    if name.len() <= max {
        name
    } else if max <= 0 {
        Seq::empty()
    } else {
        name.take(max - 1).push('\u{2026}')
    }
}

/// Cuts a name to at most a number of characters.
pub fn truncate_chars(name: &str, max: usize) -> (r: String)
    ensures
        r@ == truncated(name@, max as int),
        r@.len() <= max,
{
    let x = to_chars(name);
    if x.len() <= max {
        return from_chars(&x);
    }
    if max == 0 {
        return String::new();
    }
    let mut out = from_range(&x, 0, max - 1);
    out.push('\u{2026}');
    proof {
        assert(name@.subrange(0, max - 1) =~= name@.take(max - 1));
    }
    out
}

/// A cut name is within its bound, and a name within the bound is not cut.
pub proof fn truncated_is_bounded(name: Seq<char>, max: nat)
    ensures
        truncated(name, max as int).len() <= max,
        name.len() <= max ==> truncated(name, max as int) == name,
{
}

/// The sizes by which a subtitle is drawn.
#[derive(Clone, Copy, Debug, PartialEq, Eq, Structural)]
pub struct SubtitleMetrics {
    pub font_height: i32,
    pub padding: i32,
    pub max_text_width: i32,
}

/// The sizes by which a subtitle is drawn: an eighteenth of the height, three
/// quarters of the width, neither too small.
pub fn subtitle_metrics(text: &str, viewport: Size) -> (r: Option<SubtitleMetrics>)
    requires
        viewport.width * 3 <= i32::MAX,
    ensures
        match r {
            Some(m) => {
                &&& trim_seq(text@).len() > 0
                &&& m.font_height == (if viewport.height / 18 >= 24 {
                    (viewport.height / 18) as int
                } else {
                    24
                })
                &&& m.padding == (if m.font_height / 2 >= 12 {
                    m.font_height / 2
                } else {
                    12
                })
                &&& m.max_text_width == (if viewport.width * 3 / 4 >= 320 {
                    viewport.width * 3 / 4
                } else {
                    320
                })
            },
            None => trim_seq(text@).len() == 0,
        },
{
    if is_blank(text) {
        return None;
    }
    let eighteenth: u32 = viewport.height / 18;
    let font_height: i32 = if eighteenth >= 24 {
        eighteenth as i32
    } else {
        24
    };
    let padding: i32 = if font_height / 2 >= 12 {
        font_height / 2
    } else {
        12
    };
    let wide: i32 = viewport.width as i32 * 3 / 4;
    let max_text_width: i32 = if wide >= 320 {
        wide
    } else {
        320
    };
    Some(SubtitleMetrics { font_height, padding, max_text_width })
}

/// The size of a picture for measured text with room around it; at least one
/// pixel.
pub fn padded_size(text: Rect, padding_x: i32, padding_y: i32) -> (r: Size)
    requires
        text.right - text.left + padding_x * 2 <= i32::MAX,
        text.bottom - text.top + padding_y * 2 <= i32::MAX,
    ensures
        r.width == (if text.right - text.left + padding_x * 2 >= 1 {
            text.right - text.left + padding_x * 2
        } else {
            1
        }),
        r.height == (if text.bottom - text.top + padding_y * 2 >= 1 {
            text.bottom - text.top + padding_y * 2
        } else {
            1
        }),
{
    let w: i64 = text.right as i64 - text.left as i64 + padding_x as i64 * 2;
    let h: i64 = text.bottom as i64 - text.top as i64 + padding_y as i64 * 2;
    Size {
        width: if w >= 1 {
            w as u32
        } else {
            1
        },
        height: if h >= 1 {
            h as u32
        } else {
            1
        },
    }
}

/// The text area of a picture with room around it.
pub fn inner_rect(size: Size, padding_x: i32, padding_y: i32) -> (r: Rect)
    requires
        i32::MIN <= size.width - padding_x <= i32::MAX,
        i32::MIN <= size.height - padding_y <= i32::MAX,
    ensures
        r == (Rect {
            left: padding_x,
            top: padding_y,
            right: (size.width - padding_x) as i32,
            bottom: (size.height - padding_y) as i32,
        }),
{
    Rect {
        left: padding_x,
        top: padding_y,
        right: (size.width as i64 - padding_x as i64) as i32,
        bottom: (size.height as i64 - padding_y as i64) as i32,
    }
}

/// A line of the help panel.
#[derive(Clone, Copy, Debug, PartialEq, Eq)]
pub struct HelpRow {
    pub key: &'static str,
    pub text: &'static str,
}

fn help_row(key: &'static str, text: &'static str) -> (r: HelpRow)
    ensures
        r.key@ == key@,
        r.text@ == text@,
{
    HelpRow { key, text }
}

/// How many lines the help panel has.
pub const HELP_ROW_COUNT: usize = 24;

/// The lines of the help panel.
pub fn help_rows() -> (r: Vec<HelpRow>)
    ensures
        r@.len() == HELP_ROW_COUNT,
        r@[0].key@ == "Space"@ && r@[0].text@ == "Pause / resume"@,
        r@[1].key@ == "\u{2190} / \u{2192}"@ && r@[1].text@ == "Seek 5 s  (hold: 15 s)"@,
        r@[2].key@ == "Ctrl+F / B"@ && r@[2].text@ == "Step frame \u{00B1}1"@,
        r@[3].key@ == "Ctrl+O"@ && r@[3].text@ == "Open media file"@,
        r@[4].key@ == "Ctrl+Shift+O"@ && r@[4].text@ == "Recent files"@,
        r@[5].key@ == "PgUp / PgDn"@ && r@[5].text@ == "Previous / next in queue"@,
        r@[6].key@ == "Ctrl+S"@ && r@[6].text@ == "Save screenshot"@,
        r@[7].key@ == "S"@ && r@[7].text@ == "Toggle subtitles"@,
        r@[8].key@ == "I / O"@ && r@[8].text@ == "Set in / out point"@,
        r@[9].key@ == "Shift+I / O"@ && r@[9].text@ == "Clear in / out point"@,
        r@[10].key@ == "R"@ && r@[10].text@ == "Loop range \u{00B7} auto-replay"@,
        r@[11].key@ == "[ / ]"@ && r@[11].text@ == "Speed \u{2212} / +"@,
        r@[12].key@ == "\\"@ && r@[12].text@ == "Reset speed"@,
        r@[13].key@ == "Backspace"@ && r@[13].text@ == "Cancel scrub"@,
        r@[14].key@ == "Esc"@ && r@[14].text@ == "Exit fullscreen"@,
        r@[15].key@ == "Ctrl+H"@ && r@[15].text@ == "Toggle fullscreen"@,
        r@[16].key@ == "Ctrl+W"@ && r@[16].text@ == "Fill screen height"@,
        r@[17].key@ == "Ctrl+Q"@ && r@[17].text@ == "Half native resolution"@,
        r@[18].key@ == "Ctrl+R / E"@ && r@[18].text@ == "Rotate \u{00B1}90\u{00B0}"@,
        r@[19].key@ == "Ctrl+Scroll"@ && r@[19].text@ == "Zoom at cursor"@,
        r@[20].key@ == "Ctrl+Drag"@ && r@[20].text@ == "Pan  (when zoomed)"@,
        r@[21].key@ == "Ctrl+0"@ && r@[21].text@ == "Reset view"@,
        r@[22].key@ == "`"@ && r@[22].text@ == "Toggle HW/SW decode"@,
        r@[23].key@ == "Mousewheel"@ && r@[23].text@ == "Volume"@,
{
    vec![
        help_row("Space", "Pause / resume"),
        help_row("\u{2190} / \u{2192}", "Seek 5 s  (hold: 15 s)"),
        help_row("Ctrl+F / B", "Step frame \u{00B1}1"),
        help_row("Ctrl+O", "Open media file"),
        help_row("Ctrl+Shift+O", "Recent files"),
        help_row("PgUp / PgDn", "Previous / next in queue"),
        help_row("Ctrl+S", "Save screenshot"),
        help_row("S", "Toggle subtitles"),
        help_row("I / O", "Set in / out point"),
        help_row("Shift+I / O", "Clear in / out point"),
        help_row("R", "Loop range \u{00B7} auto-replay"),
        help_row("[ / ]", "Speed \u{2212} / +"),
        help_row("\\", "Reset speed"),
        help_row("Backspace", "Cancel scrub"),
        help_row("Esc", "Exit fullscreen"),
        help_row("Ctrl+H", "Toggle fullscreen"),
        help_row("Ctrl+W", "Fill screen height"),
        help_row("Ctrl+Q", "Half native resolution"),
        help_row("Ctrl+R / E", "Rotate \u{00B1}90\u{00B0}"),
        help_row("Ctrl+Scroll", "Zoom at cursor"),
        help_row("Ctrl+Drag", "Pan  (when zoomed)"),
        help_row("Ctrl+0", "Reset view"),
        help_row("`", "Toggle HW/SW decode"),
        help_row("Mousewheel", "Volume"),
    ]
}

/// A panel of lines: its size and where its parts stand.
#[derive(Clone, Copy, Debug, PartialEq, Eq, Structural)]
pub struct PanelLayout {
    pub width: i32,
    pub height: i32,
    pub pad_x: i32,
    pub pad_y: i32,
    pub header_height: i32,
    pub gap: i32,
    pub line_height: i32,
    /// Where the right column begins.
    pub column_x: i32,
    /// Where the left column ends.
    pub left_end: i32,
    pub rows: i32,
    pub footer_height: i32,
}

/// The help panel.
pub open spec fn help_layout_spec() -> PanelLayout {
    PanelLayout {
        width: 390,
        height: 544,
        pad_x: 20,
        pad_y: 16,
        header_height: 24,
        gap: 8,
        line_height: 20,
        column_x: 138,
        left_end: 130,
        rows: 24,
        footer_height: 0,
    }
}

/// The help panel.
pub fn help_layout() -> (r: PanelLayout)
    ensures
        r == help_layout_spec(),
        r.height == r.pad_y + r.header_height + r.gap + r.rows * r.line_height + r.pad_y,
        r.wf(),
{
    PanelLayout {
        width: 390,
        height: 544,
        pad_x: 20,
        pad_y: 16,
        header_height: 24,
        gap: 8,
        line_height: 20,
        column_x: 138,
        left_end: 130,
        rows: 24,
        footer_height: 0,
    }
}

/// The panel of recent files: a line for each, or one that says there are none.
pub open spec fn recent_layout_spec(row_count: int) -> PanelLayout {
    let rows = if row_count >= 1 {
        row_count
    } else {
        1
    };
    PanelLayout {
        width: 560,
        height: (48 + rows * 22 + 8 + 22 + 16) as i32,
        pad_x: 22,
        pad_y: 16,
        header_height: 24,
        gap: 8,
        line_height: 22,
        column_x: 460,
        left_end: 460,
        rows: rows as i32,
        footer_height: 22,
    }
}

/// The panel of recent files.
pub fn recent_layout(row_count: usize) -> (r: PanelLayout)
    requires
        row_count <= 1_000_000,
    ensures
        r == recent_layout_spec(row_count as int),
        r.height == r.rows_top() + r.rows * r.line_height + r.gap + r.footer_height + r.pad_y,
        r.wf(),
{
    let rows: i32 = if row_count >= 1 {
        row_count as i32
    } else {
        1
    };
    PanelLayout {
        width: 560,
        height: 48 + rows * 22 + 8 + 22 + 16,
        pad_x: 22,
        pad_y: 16,
        header_height: 24,
        gap: 8,
        line_height: 22,
        column_x: 460,
        left_end: 460,
        rows,
        footer_height: 22,
    }
}

impl PanelLayout {
    /// Where the lines begin.
    pub open spec fn rows_top(self) -> int {
        self.pad_y + self.header_height + self.gap
    }

    /// The parts lie within the panel, and the numbers are small.
    pub open spec fn wf(self) -> bool {
        &&& 0 < self.width <= 1000
        &&& 0 <= self.pad_x <= 100
        &&& 0 <= self.pad_y <= 100
        &&& 0 <= self.header_height <= 100
        &&& 0 <= self.gap <= 100
        &&& 0 < self.line_height <= 100
        &&& 0 <= self.footer_height <= 100
        &&& 0 <= self.rows <= 1_000_000
        &&& self.pad_x <= self.left_end <= self.column_x <= self.width - self.pad_x
        &&& self.rows_top() + self.rows * self.line_height <= self.height <= 0x1000_0000
    }

    /// The top of a line.
    pub open spec fn line_top(self, i: int) -> int {
        self.rows_top() + i * self.line_height
    }

    fn top_of_line(&self, i: usize) -> (r: i32)
        requires
            self.wf(),
            i < self.rows,
        ensures
            r == self.line_top(i as int),
            r + self.line_height <= self.height,
    {
        assert(0 <= i * self.line_height && i * self.line_height + self.line_height <= self.rows
            * self.line_height) by (nonlinear_arith)
            requires
                0 <= i,
                i + 1 <= self.rows,
                self.line_height > 0,
        ;
        self.pad_y + self.header_height + self.gap + i as i32 * self.line_height
    }

    /// Where the heading stands.
    pub fn header_rect(&self) -> (r: Rect)
        requires
            self.wf(),
        ensures
            r == self.header_rect_spec(),
    {
        Rect {
            left: self.pad_x,
            top: self.pad_y,
            right: self.width - self.pad_x,
            bottom: self.pad_y + self.header_height,
        }
    }

    /// Where the left part of a line stands.
    pub fn left_rect(&self, i: usize) -> (r: Rect)
        requires
            self.wf(),
            i < self.rows,
        ensures
            r == self.left_rect_spec(i as int),
            0 <= r.top < r.bottom <= self.height,
    {
        let top: i32 = self.top_of_line(i);
        assert(i * self.line_height >= 0) by (nonlinear_arith)
            requires
                i >= 0,
                self.line_height > 0,
        ;
        Rect { left: self.pad_x, top, right: self.left_end, bottom: top + self.line_height }
    }

    /// Where the right part of a line stands.
    pub fn right_rect(&self, i: usize) -> (r: Rect)
        requires
            self.wf(),
            i < self.rows,
        ensures
            r == self.right_rect_spec(i as int),
            0 <= r.top < r.bottom <= self.height,
    {
        let top: i32 = self.top_of_line(i);
        assert(i * self.line_height >= 0) by (nonlinear_arith)
            requires
                i >= 0,
                self.line_height > 0,
        ;
        Rect {
            left: self.column_x,
            top,
            right: self.width - self.pad_x,
            bottom: top + self.line_height,
        }
    }

    /// Where a line stands that takes the whole width.
    pub fn line_rect(&self, i: usize) -> (r: Rect)
        requires
            self.wf(),
            i < self.rows,
        ensures
            r == self.line_rect_spec(i as int),
    {
        let top: i32 = self.top_of_line(i);
        Rect {
            left: self.pad_x,
            top,
            right: self.width - self.pad_x,
            bottom: top + self.line_height,
        }
    }

    /// Where a line stands that takes the whole width.
    pub open spec fn line_rect_spec(self, i: int) -> Rect {
        Rect {
            left: self.pad_x,
            top: self.line_top(i) as i32,
            right: (self.width - self.pad_x) as i32,
            bottom: (self.line_top(i) + self.line_height) as i32,
        }
    }

    /// Where the heading stands.
    pub open spec fn header_rect_spec(self) -> Rect {
        Rect {
            left: self.pad_x,
            top: self.pad_y,
            right: (self.width - self.pad_x) as i32,
            bottom: (self.pad_y + self.header_height) as i32,
        }
    }

    /// Where the left part of a line stands.
    pub open spec fn left_rect_spec(self, i: int) -> Rect {
        Rect { right: self.left_end, ..self.line_rect_spec(i) }
    }

    /// Where the right part of a line stands.
    pub open spec fn right_rect_spec(self, i: int) -> Rect {
        Rect { left: self.column_x, ..self.line_rect_spec(i) }
    }

    /// The top of the last line, below all others.
    pub open spec fn footer_top(self) -> int {
        self.line_top(self.rows as int) + self.gap
    }

    /// Where the last line stands, below all others.
    pub open spec fn footer_rect_spec(self) -> Rect {
        Rect {
            left: self.pad_x,
            top: self.footer_top() as i32,
            right: (self.width - self.pad_x) as i32,
            bottom: (self.footer_top() + self.footer_height) as i32,
        }
    }

    /// Where the last line stands, below all others.
    pub fn footer_rect(&self) -> (r: Rect)
        requires
            self.wf(),
        ensures
            r == self.footer_rect_spec(),
    {
        let lines: i32 = self.rows * self.line_height;
        let top: i32 = self.pad_y + self.header_height + self.gap + lines + self.gap;
        Rect {
            left: self.pad_x,
            top,
            right: self.width - self.pad_x,
            bottom: top + self.footer_height,
        }
    }

    /// The row of pixels between the heading and the lines.
    pub fn separator_y(&self) -> (r: u32)
        requires
            self.wf(),
        ensures
            r == self.pad_y + self.header_height + self.gap / 2,
    {
        (self.pad_y + self.header_height + self.gap / 2) as u32
    }
}

/// The lines of a panel do not overlap.
pub proof fn panel_lines_do_not_overlap(p: PanelLayout, i: int, j: int)
    requires
        p.wf(),
        0 <= i < j,
    ensures
        p.line_top(i) + p.line_height <= p.line_top(j),
{
    assert(i * p.line_height + p.line_height <= j * p.line_height) by (nonlinear_arith)
        requires
            i + 1 <= j,
            p.line_height > 0,
    ;
}

/// How many characters of a recent file's name are shown.
pub const MAX_RECENT_NAME_CHARS: usize = 56;

/// The name of a recent file in its line: a mark for the chosen one, then the
/// name, cut if it is too long.
pub fn recent_row_text(name: &str, chosen: bool) -> (r: String)
    ensures
        r@ == recent_name(name@, chosen),
{
    let cut = truncate_chars(name, MAX_RECENT_NAME_CHARS);
    let mut out = if chosen {
        owned("\u{203A} ")
    } else {
        owned("  ")
    };
    out.append(cut.as_str());
    out
}

/// Where a text stands in its place.
#[derive(Clone, Copy, Debug, PartialEq, Eq, Structural)]
pub enum Align {
    Left,
    Center,
    Right,
}

/// A text in a panel.
#[derive(Clone, Debug, PartialEq, Eq)]
pub struct PanelText {
    pub text: String,
    pub place: Rect,
    pub align: Align,
}

/// The model of a text in a panel.
#[verifier::ext_equal]
pub struct PanelTextModel {
    pub text: Seq<char>,
    pub place: Rect,
    pub align: Align,
}

impl View for PanelText {
    type V = PanelTextModel;

    open spec fn view(&self) -> PanelTextModel {
        PanelTextModel { text: self.text@, place: self.place, align: self.align }
    }
}

/// The models of texts.
pub open spec fn text_models(s: Seq<PanelText>) -> Seq<PanelTextModel> {
    s.map_values(|t: PanelText| t@)
}

fn push_panel_text(out: &mut Vec<PanelText>, text: String, place: Rect, align: Align)
    ensures
        text_models(final(out)@) == text_models(old(out)@).push(
            PanelTextModel { text: text@, place, align },
        ),
{
    out.push(PanelText { text, place, align });
    proof {
        assert(text_models(out@) =~= text_models(old(out)@).push(
            PanelTextModel { text: text@, place, align },
        ));
    }
}

/// A line of the panel of recent files: the name, and where playback stopped.
#[derive(Clone, Debug, PartialEq, Eq)]
pub struct RecentRow {
    pub name: String,
    pub position: String,
}

/// A line's name, with a mark if it is the chosen one.
pub open spec fn recent_name(name: Seq<char>, chosen: bool) -> Seq<char> {
    (if chosen {
        "\u{203A} "@
    } else {
        "  "@
    }) + truncated(name, MAX_RECENT_NAME_CHARS as int)
}

/// The texts of the first lines of the panel of recent files: of each its name at
/// the left, marked if it is the chosen one, and its position at the right.
pub open spec fn recent_lines(rows: Seq<RecentRow>, chosen: int, count: nat) -> Seq<PanelTextModel>
    decreases count,
{
    if count == 0 {
        Seq::empty()
    } else {
        let i = count - 1;
        let layout = recent_layout_spec(rows.len() as int);
        recent_lines(rows, chosen, i as nat).push(
            PanelTextModel {
                text: recent_name(rows[i].name@, i == chosen),
                place: layout.left_rect_spec(i),
                align: Align::Left,
            },
        ).push(
            PanelTextModel {
                text: rows[i].position@,
                place: layout.right_rect_spec(i),
                align: Align::Right,
            },
        )
    }
}

/// The texts of the panel of recent files: its heading, its lines or the one that
/// says there are none, and what the keys do.
pub open spec fn recent_texts(rows: Seq<RecentRow>, chosen: int) -> Seq<PanelTextModel> {
    let layout = recent_layout_spec(rows.len() as int);
    let heading = PanelTextModel {
        text: "Recent Files"@,
        place: layout.header_rect_spec(),
        align: Align::Left,
    };
    let none = PanelTextModel {
        text: "No recent files"@,
        place: layout.line_rect_spec(0),
        align: Align::Left,
    };
    let keys = PanelTextModel {
        text: "Enter Open   \u{2191}\u{2193} Select   Del Remove   Esc Close"@,
        place: layout.footer_rect_spec(),
        align: Align::Left,
    };
    let lines = if rows.len() == 0 {
        seq![none]
    } else {
        recent_lines(rows, chosen, rows.len())
    };
    seq![heading] + lines + seq![keys]
}

/// The texts of the panel of recent files.
pub fn recent_panel(rows: &Vec<RecentRow>, chosen: usize) -> (r: Vec<PanelText>)
    requires
        rows@.len() <= 1_000_000,
    ensures
        text_models(r@) == recent_texts(rows@, chosen as int),
{
    let layout = recent_layout(rows.len());
    let mut out: Vec<PanelText> = Vec::new();
    push_panel_text(&mut out, owned("Recent Files"), layout.header_rect(), Align::Left);
    let ghost heading = text_models(out@);
    proof {
        assert(heading =~= seq![recent_texts(rows@, chosen as int)[0]]);
    }
    if rows.len() == 0 {
        push_panel_text(&mut out, owned("No recent files"), layout.line_rect(0), Align::Left);
    } else {
        let mut i: usize = 0;
        proof {
            assert(text_models(out@) =~= heading + recent_lines(rows@, chosen as int, 0));
        }
        while i < rows.len()
            invariant
                i <= rows@.len() <= 1_000_000,
                rows@.len() > 0,
                layout == recent_layout_spec(rows@.len() as int),
                layout.wf(),
                text_models(out@) == heading + recent_lines(rows@, chosen as int, i as nat),
            decreases rows@.len() - i,
        {
            let name = recent_row_text(rows[i].name.as_str(), i == chosen);
            push_panel_text(&mut out, name, layout.left_rect(i), Align::Left);
            let position = owned(rows[i].position.as_str());
            push_panel_text(&mut out, position, layout.right_rect(i), Align::Right);
            proof {
                assert(text_models(out@) =~= heading + recent_lines(
                    rows@,
                    chosen as int,
                    (i + 1) as nat,
                ));
            }
            i = i + 1;
        }
    }
    push_panel_text(
        &mut out,
        owned("Enter Open   \u{2191}\u{2193} Select   Del Remove   Esc Close"),
        layout.footer_rect(),
        Align::Left,
    );
    proof {
        assert(text_models(out@) =~= recent_texts(rows@, chosen as int));
    }
    out
}

/// The texts of the first lines of the help panel.
pub open spec fn help_lines(rows: Seq<HelpRow>, count: nat) -> Seq<PanelTextModel>
    decreases count,
{
    if count == 0 {
        Seq::empty()
    } else {
        let i = count - 1;
        help_lines(rows, i as nat).push(
            PanelTextModel {
                text: rows[i].key@,
                place: help_layout_spec().left_rect_spec(i),
                align: Align::Left,
            },
        ).push(
            PanelTextModel {
                text: rows[i].text@,
                place: help_layout_spec().right_rect_spec(i),
                align: Align::Left,
            },
        )
    }
}

/// The texts of the help panel: its heading, then a key and what it does in each
/// line.
pub fn help_panel(rows: &Vec<HelpRow>) -> (r: Vec<PanelText>)
    requires
        rows@.len() == HELP_ROW_COUNT,
    ensures
        text_models(r@) == seq![
            PanelTextModel {
                text: "Controls"@,
                place: help_layout_spec().header_rect_spec(),
                align: Align::Center,
            },
        ] + help_lines(rows@, HELP_ROW_COUNT as nat),
{
    let layout = help_layout();
    let mut out: Vec<PanelText> = Vec::new();
    push_panel_text(&mut out, owned("Controls"), layout.header_rect(), Align::Center);
    let ghost heading = text_models(out@);
    let mut i: usize = 0;
    proof {
        assert(heading =~= seq![
            PanelTextModel {
                text: "Controls"@,
                place: help_layout_spec().header_rect_spec(),
                align: Align::Center,
            },
        ]);
        assert(text_models(out@) =~= heading + help_lines(rows@, 0));
    }
    while i < rows.len()
        invariant
            i <= rows@.len(),
            rows@.len() == HELP_ROW_COUNT,
            layout == help_layout_spec(),
            layout.wf(),
            text_models(out@) == heading + help_lines(rows@, i as nat),
        decreases rows@.len() - i,
    {
        push_panel_text(&mut out, owned(rows[i].key), layout.left_rect(i), Align::Left);
        push_panel_text(&mut out, owned(rows[i].text), layout.right_rect(i), Align::Left);
        proof {
            assert(text_models(out@) =~= heading + help_lines(rows@, (i + 1) as nat));
        }
        i = i + 1;
    }
    out
}

/// Which line of the panel of recent files is brighter: the chosen one, if there
/// is such a line.
pub open spec fn bright_line(row_count: int, chosen: int) -> Option<usize> {
    if 0 <= chosen < row_count {
        Some(chosen as usize)
    } else {
        None
    }
}

/// Turns the drawn panel of recent files into a picture.
pub fn finish_recent_panel(row_count: usize, chosen: usize, drawn: &Vec<Pixel>) -> (r: Bitmap)
    requires
        row_count <= 1_000_000,
        drawn@.len() == recent_layout_spec(row_count as int).width * recent_layout_spec(
            row_count as int,
        ).height,
    ensures
        r.wf(),
        ({
            let layout = recent_layout_spec(row_count as int);
            &&& r.width == layout.width
            &&& r.height == layout.height
            &&& forall|x: int, y: int|
                0 <= x < layout.width && 0 <= y < layout.height ==> #[trigger] r.at(x, y)
                    == panel_pixel(
                    layout,
                    drawn@[y * layout.width + x],
                    bright_line(row_count as int, chosen as int),
                    x,
                    y,
                )
        }),
{
    let layout = recent_layout(row_count);
    let bright = if chosen < row_count {
        Some(chosen)
    } else {
        None
    };
    finish_panel(layout, drawn, bright)
}

/// Turns the drawn help panel into a picture.
pub fn finish_help_panel(drawn: &Vec<Pixel>) -> (r: Bitmap)
    requires
        drawn@.len() == 390 * 544,
    ensures
        r.wf(),
        r.width == 390,
        r.height == 544,
        forall|x: int, y: int|
            0 <= x < 390 && 0 <= y < 544 ==> #[trigger] r.at(x, y) == panel_pixel(
                help_layout_spec(),
                drawn@[y * 390 + x],
                None,
                x,
                y,
            ),
{
    finish_panel(help_layout(), drawn, None)
}

/// The line between the heading and the lines of a panel.
pub open spec fn separator_pixel() -> Pixel {
    Pixel { b: 255, g: 255, r: 255, a: 60 }
}

/// Turns a drawn panel into a picture: text on a dark ground, the chosen line
/// brighter, and a line below the heading.
fn finish_panel(layout: PanelLayout, drawn: &Vec<Pixel>, chosen: Option<usize>) -> (r: Bitmap)
    requires
        layout.wf(),
        layout.height > 0,
        drawn@.len() == layout.width * layout.height,
        chosen matches Some(i) ==> i < layout.rows,
    ensures
        r.wf(),
        r.width == layout.width,
        r.height == layout.height,
        forall|x: int, y: int|
            0 <= x < layout.width && 0 <= y < layout.height ==> #[trigger] r.at(x, y)
                == panel_pixel(layout, drawn@[y * layout.width + x], chosen, x, y),
{
    let base = finish_text(drawn, TextStyle::Panel);
    let width: u32 = layout.width as u32;
    let height: u32 = layout.height as u32;
    let n: usize = drawn.len();
    let (from, to): (usize, usize) = match chosen {
        Some(i) => {
            let top: i32 = layout.top_of_line(i);
            proof {
                let w = layout.width as int;
                let t = layout.line_top(i as int);
                let b = t + layout.line_height;
                assert(i * layout.line_height >= 0) by (nonlinear_arith)
                    requires
                        i >= 0,
                        layout.line_height > 0,
                ;
                assert(0 <= t * w && t * w <= b * w && b * w <= layout.height * w)
                    by (nonlinear_arith)
                    requires
                        0 <= t <= b,
                        b <= layout.height,
                        w > 0,
                ;
                assert(layout.height * w == layout.width * layout.height) by (nonlinear_arith)
                    requires
                        w == layout.width,
                ;
            }
            let first: usize = top as usize * layout.width as usize;
            let last: usize = (top + layout.line_height) as usize * layout.width as usize;
            (first, last)
        },
        None => (0, 0),
    };
    let pixels = highlight_places(&base, from, to);
    let mut picture = Bitmap { width, height, pixels };
    let ghost before = picture;
    let line_y: u32 = layout.separator_y();
    picture.fill_rect(
        layout.pad_x as u32,
        line_y,
        (layout.width - layout.pad_x) as u32,
        line_y + 1,
        Pixel { b: 255, g: 255, r: 255, a: 60 },
    );
    proof {
        assert forall|x: int, y: int| 0 <= x < layout.width && 0 <= y < layout.height implies
            #[trigger] picture.at(x, y) == panel_pixel(
            layout,
            drawn@[y * layout.width + x],
            chosen,
            x,
            y,
        ) by {
            let w = layout.width as int;
            let k = y * w + x;
            assert(0 <= y * w && y * w + w <= layout.height * w) by (nonlinear_arith)
                requires
                    0 <= y,
                    y + 1 <= layout.height,
                    w > 0,
            ;
            assert(layout.height * w == layout.width * layout.height) by (nonlinear_arith)
                requires
                    w == layout.width,
            ;
            assert(before.at(x, y) == pixels@[k]);
            assert(base@[k] == text_pixel(TextStyle::Panel, drawn@[k]));
            if let Some(i) = chosen {
                let t = layout.line_top(i as int);
                row_of_place(w, x, y, t, t + layout.line_height);
            }
        }
    }
    picture
}

proof fn row_of_place(w: int, x: int, y: int, top: int, bottom: int)
    requires
        0 <= x < w,
    ensures
        (top * w <= y * w + x < bottom * w) == (top <= y < bottom),
{
    if y >= top {
        assert(top * w <= y * w) by (nonlinear_arith)
            requires
                top <= y,
                w > 0,
        ;
    } else {
        assert(y * w + w <= top * w) by (nonlinear_arith)
            requires
                y + 1 <= top,
                w > 0,
        ;
    }
    if y < bottom {
        assert(y * w + w <= bottom * w) by (nonlinear_arith)
            requires
                y + 1 <= bottom,
                w > 0,
        ;
    } else {
        assert(bottom * w <= y * w) by (nonlinear_arith)
            requires
                bottom <= y,
                w > 0,
        ;
    }
}

/// A pixel of a finished panel.
pub open spec fn panel_pixel(
    layout: PanelLayout,
    drawn: Pixel,
    chosen: Option<usize>,
    x: int,
    y: int,
) -> Pixel {
    if y == layout.pad_y + layout.header_height + layout.gap / 2 && layout.pad_x <= x
        < layout.width - layout.pad_x {
        separator_pixel()
    } else if chosen matches Some(i) && layout.line_top(i as int) <= y < layout.line_top(i as int)
        + layout.line_height {
        highlighted(text_pixel(TextStyle::Panel, drawn))
    } else {
        text_pixel(TextStyle::Panel, drawn)
    }
}

/// The left label of the timeline: where playback is, and where a scrub leads if
/// that is elsewhere.
pub fn timeline_left_label(current: &str, preview: Option<&str>) -> (r: String)
    ensures
        r@ == (match preview {
            Some(p) if p@ != current@ => current@ + "  \u{2192}  "@ + p@,
            _ => current@,
        }),
{
    let mut out = owned(current);
    if let Some(p) = preview {
        if !same_text(p, current) {
            out.append("  \u{2192}  ");
            out.append(p);
        }
    }
    out
}

/// The right label of the timeline: how long the file is, with a mark if it
/// repeats.
pub fn timeline_right_label(duration: &str, repeats: bool) -> (r: String)
    ensures
        r@ == (if repeats {
            "\u{27F3}  "@ + duration@
        } else {
            duration@
        }),
{
    if repeats {
        let mut out = owned("\u{27F3}  ");
        out.append(duration);
        out
    } else {
        owned(duration)
    }
}

/// What is drawn on the track of the timeline, in columns.
#[derive(Clone, Copy, Debug, PartialEq, Eq)]
pub struct TrackSpans {
    /// Between the marks, if both are set and in order.
    pub range: Option<(u32, u32)>,
    /// What was played, from the in mark on, if anything was.
    pub played: Option<(u32, u32)>,
    /// Where the in mark begins.
    pub in_mark: Option<u32>,
    /// Where the out mark begins.
    pub out_mark: Option<u32>,
    /// The column of the handle.
    pub handle: u32,
}

/// A coordinate that is at least zero.
pub open spec fn not_negative(n: int) -> int {
    if n >= 0 {
        n
    } else {
        0
    }
}

/// A coordinate between two bounds.
pub open spec fn between(n: int, low: int, high: int) -> int {
    if n < low {
        low
    } else if n > high {
        high
    } else {
        n
    }
}

fn clamp_to(n: i32, low: i32, high: i32) -> (r: i32)
    requires
        low <= high,
    ensures
        r == between(n as int, low as int, high as int),
{
    if n < low {
        low
    } else if n > high {
        high
    } else {
        n
    }
}

fn raised(n: i32) -> (r: u32)
    ensures
        r == not_negative(n as int),
{
    if n >= 0 {
        n as u32
    } else {
        0
    }
}

/// A coordinate as a column: a negative one counts down from the largest column.
pub open spec fn as_column(n: int) -> int {
    if n >= 0 {
        n
    } else {
        n + 0x1_0000_0000
    }
}

fn column_of(n: i32) -> (r: u32)
    ensures
        r == as_column(n as int),
{
    if n >= 0 {
        n as u32
    } else {
        (n as i64 + 0x1_0000_0000) as u32
    }
}

/// The column where the track ends: it is at least one column wide.
pub open spec fn track_end(track_left: i32, track_right: i32) -> int {
    as_column(
        if track_right > track_left {
            track_right as int
        } else {
            track_left + 1
        },
    )
}

fn end_of_track(track_left: i32, track_right: i32) -> (r: u32)
    requires
        track_left < i32::MAX,
    ensures
        r == track_end(track_left, track_right),
{
    if track_right > track_left {
        column_of(track_right)
    } else {
        column_of(track_left + 1)
    }
}

/// Whether the parts of the track stand where they belong.
pub open spec fn spans_are(
    r: TrackSpans,
    width: u32,
    track_left: i32,
    track_right: i32,
    played_px: u32,
    in_x: Option<i32>,
    out_x: Option<i32>,
    handle_x: i32,
) -> bool {
    &&& r.range == (match (in_x, out_x) {
        (Some(i), Some(o)) => if not_negative(o as int) > not_negative(i as int) {
            Some((not_negative(i as int) as u32, not_negative(o as int) as u32))
        } else {
            None
        },
        _ => None,
    })
    &&& ({
        let start = not_negative(track_left as int);
        let left = match in_x {
            Some(i) => if i > start {
                i as int
            } else {
                start
            },
            None => start,
        };
        let end = track_end(track_left, track_right);
        let right = if start + played_px <= end {
            start + played_px
        } else {
            end
        };
        r.played == (if right > left {
            Some((left as u32, right as u32))
        } else {
            None
        })
    })
    &&& r.in_mark == (match in_x {
        Some(i) => Some(between(i as int, 0, width - 2) as u32),
        None => None,
    })
    &&& r.out_mark == (match out_x {
        Some(o) => Some(between(o - 1, 0, width - 2) as u32),
        None => None,
    })
    &&& r.handle == as_column(between(handle_x as int, track_left as int, track_right as int))
}

/// Where the parts of the track stand. The marks are two columns wide and lie in
/// the picture; the played part ends with the track.
pub fn track_spans(
    width: u32,
    track_left: i32,
    track_right: i32,
    played_px: u32,
    in_x: Option<i32>,
    out_x: Option<i32>,
    handle_x: i32,
) -> (r: TrackSpans)
    requires
        width <= i32::MAX,
        in_x is Some || out_x is Some ==> 2 <= width,
        track_left <= track_right,
        track_left < i32::MAX,
        not_negative(track_left as int) + played_px <= u32::MAX,
        out_x matches Some(x) ==> x > i32::MIN,
    ensures
        spans_are(r, width, track_left, track_right, played_px, in_x, out_x, handle_x),
{
    let range = match (in_x, out_x) {
        (Some(i), Some(o)) => {
            let a: u32 = raised(i);
            let b: u32 = raised(o);
            if b > a {
                Some((a, b))
            } else {
                None
            }
        },
        _ => None,
    };
    let start: u32 = raised(track_left);
    let left: u32 = match in_x {
        Some(i) => if raised(i) > start {
            raised(i)
        } else {
            start
        },
        None => start,
    };
    let reached: u32 = start + played_px;
    let end: u32 = end_of_track(track_left, track_right);
    let right: u32 = if reached <= end {
        reached
    } else {
        end
    };
    let played = if right > left {
        Some((left, right))
    } else {
        None
    };
    let in_mark = match in_x {
        Some(i) => Some(clamp_to(i, 0, width as i32 - 2) as u32),
        None => None,
    };
    let out_mark = match out_x {
        Some(o) => Some(clamp_to(o - 1, 0, width as i32 - 2) as u32),
        None => None,
    };
    let handle: u32 = column_of(clamp_to(handle_x, track_left, track_right));
    TrackSpans { range, played, in_mark, out_mark, handle }
}

/// Where the timeline keeps its track, in the window.
#[derive(Clone, Copy, Debug, PartialEq, Eq, Structural)]
pub struct TrackLayout {
    /// The top of the timeline.
    pub top: i32,
    pub track_top: i32,
    pub track_bottom: i32,
    pub track_left: i32,
    pub track_right: i32,
}

/// The rows of the track in the picture of the timeline.
#[derive(Clone, Copy, Debug, PartialEq, Eq, Structural)]
pub struct TrackRows {
    pub top: u32,
    pub bottom: u32,
    /// The row of the handle.
    pub middle: u32,
    pub mark_top: u32,
    pub mark_bottom: u32,
}

/// How the timeline is drawn.
#[derive(Clone, Copy, Debug, PartialEq, Eq)]
pub struct TimelinePlan {
    pub size: Size,
    pub track_left: u32,
    pub track_right: u32,
    pub rows: TrackRows,
    pub spans: TrackSpans,
}

impl TrackLayout {
    /// The first row of the track.
    pub open spec fn first_row(self) -> int {
        not_negative(self.track_top - self.top)
    }

    /// The row below the track, which is at least one row high.
    pub open spec fn end_row(self) -> int {
        if self.track_bottom - self.top > self.first_row() {
            self.track_bottom - self.top
        } else {
            self.first_row() + 1
        }
    }

    /// The rows of the track in a picture of this height: the handle in its
    /// middle, and the marks three rows longer at both ends.
    pub open spec fn rows_in(self, height: u32) -> TrackRows {
        let top = self.first_row();
        let bottom = self.end_row();
        TrackRows {
            top: top as u32,
            bottom: bottom as u32,
            middle: (top + (bottom - top) / 2) as u32,
            mark_top: not_negative(top - 3) as u32,
            mark_bottom: (if bottom + 3 <= height {
                bottom + 3
            } else {
                height as int
            }) as u32,
        }
    }

    /// Whether the rows can be computed.
    pub open spec fn is_measurable(self) -> bool {
        &&& i32::MIN <= self.track_top - self.top < i32::MAX
        &&& i32::MIN <= self.track_bottom - self.top <= i32::MAX
    }

    fn rows(&self, height: u32) -> (r: TrackRows)
        requires
            self.is_measurable(),
        ensures
            r == self.rows_in(height),
    {
        let top: u32 = raised(self.track_top - self.top);
        let below: i32 = self.track_bottom - self.top;
        let bottom: u32 = if below > top as i32 {
            below as u32
        } else {
            top + 1
        };
        let mark_top: u32 = if top >= 3 {
            top - 3
        } else {
            0
        };
        let mark_bottom: u32 = if bottom + 3 <= height {
            bottom + 3
        } else {
            height
        };
        TrackRows { top, bottom, middle: top + (bottom - top) / 2, mark_top, mark_bottom }
    }
}

/// Whether a timeline is drawn: the view has an area, and the file lasts at least
/// a second.
pub open spec fn timeline_is_drawn(viewport: Size, duration: Duration) -> bool {
    viewport.width != 0 && viewport.height != 0 && duration@ >= 1_000_000_000
}

/// Plans the picture of the timeline, as wide as the view and of the given height.
pub fn plan_timeline(
    viewport: Size,
    height: u32,
    duration: Duration,
    layout: TrackLayout,
    played_px: u32,
    in_x: Option<i32>,
    out_x: Option<i32>,
    handle_x: i32,
) -> (r: Option<TimelinePlan>)
    requires
        timeline_is_drawn(viewport, duration) ==> {
            &&& viewport.width <= i32::MAX
            &&& (in_x is Some || out_x is Some ==> 2 <= viewport.width)
            &&& layout.is_measurable()
            &&& layout.track_left <= layout.track_right
            &&& layout.track_left < i32::MAX
            &&& not_negative(layout.track_left as int) + played_px <= u32::MAX
            &&& (out_x matches Some(x) ==> x > i32::MIN)
        },
    ensures
        match r {
            Some(plan) => {
                &&& timeline_is_drawn(viewport, duration)
                &&& plan.size == (Size { width: viewport.width, height })
                &&& plan.track_left == not_negative(layout.track_left as int)
                &&& plan.track_right == track_end(layout.track_left, layout.track_right)
                &&& plan.rows == layout.rows_in(height)
                &&& spans_are(
                    plan.spans,
                    viewport.width,
                    layout.track_left,
                    layout.track_right,
                    played_px,
                    in_x,
                    out_x,
                    handle_x,
                )
            },
            None => !timeline_is_drawn(viewport, duration),
        },
{
    if viewport.width == 0 || viewport.height == 0 || duration.as_secs() == 0 {
        return None;
    }
    let spans = track_spans(
        viewport.width,
        layout.track_left,
        layout.track_right,
        played_px,
        in_x,
        out_x,
        handle_x,
    );
    Some(
        TimelinePlan {
            size: Size { width: viewport.width, height },
            track_left: raised(layout.track_left),
            track_right: end_of_track(layout.track_left, layout.track_right),
            rows: layout.rows(height),
            spans,
        },
    )
}

/// How a label is drawn: the height of its font, the room around it, and how wide
/// it may be.
#[derive(Clone, Copy, Debug, PartialEq, Eq, Structural)]
pub struct LabelMetrics {
    pub font_height: i32,
    pub padding_x: i32,
    pub padding_y: i32,
    pub max_width: i32,
}

/// How the volume is drawn; a blank text is not.
pub fn volume_metrics(text: &str) -> (r: Option<LabelMetrics>)
    ensures
        r == (if trim_seq(text@).len() == 0 {
            None::<LabelMetrics>
        } else {
            Some(
                LabelMetrics { font_height: 18, padding_x: 14, padding_y: 8, max_width: 160 },
            )
        }),
{
    if is_blank(text) {
        return None;
    }
    Some(LabelMetrics { font_height: 18, padding_x: 14, padding_y: 8, max_width: 160 })
}

/// What stands on an empty picture, and how it is drawn.
pub fn idle_label() -> (r: (&'static str, LabelMetrics))
    ensures
        r.0@ == "Drop a file to play"@,
        r.1 == (LabelMetrics { font_height: 16, padding_x: 24, padding_y: 16, max_width: 400 }),
{
    (
        "Drop a file to play",
        LabelMetrics { font_height: 16, padding_x: 24, padding_y: 16, max_width: 400 },
    )
}

/// The height of the font of the timeline.
pub const TIMELINE_FONT_HEIGHT: i32 = 14;

/// The height of the font of the help panel.
pub const HELP_FONT_HEIGHT: i32 = 13;

/// The height of the font of the panel of recent files.
pub const RECENT_FONT_HEIGHT: i32 = 14;

/// Where the labels of the timeline stand in its picture.
pub fn timeline_label_place(width: u32) -> (r: Rect)
    requires
        width <= i32::MAX,
    ensures
        r == (Rect { left: 16, top: 4, right: (width - 16) as i32, bottom: 24 }),
{
    Rect { left: 16, top: 4, right: width as i32 - 16, bottom: 24 }
}

/// A name that is short enough stands as it is; one that is cut is as long as
/// allowed, begins as the name does and ends in an ellipsis.
pub proof fn cut_name_ends_in_an_ellipsis(name: Seq<char>, max: int, k: int)
    requires
        0 < max,
        0 <= k < max - 1,
    ensures
        name.len() <= max ==> truncated(name, max) == name,
        name.len() > max ==> {
            &&& truncated(name, max).len() == max
            &&& truncated(name, max)[k] == name[k]
            &&& truncated(name, max).last() == '\u{2026}'
        },
{
}

/// The panel of recent files grows by 22 with every file, has room for one line
/// at least, and its last line stands below all files.
pub proof fn recent_panel_grows_with_its_files(n: int)
    requires
        0 <= n < 1_000_000,
    ensures
        recent_layout_spec(0) == recent_layout_spec(1),
        n >= 1 ==> recent_layout_spec(n + 1).height == recent_layout_spec(n).height + 22,
        recent_layout_spec(1).height == 116,
        recent_layout_spec(n).width == 560,
        n >= 1 ==> recent_layout_spec(n).footer_top() == recent_layout_spec(n).line_top(n) + 8,
        recent_layout_spec(n).line_top(0) == 48,
        recent_layout_spec(n).line_top(n + 1) == recent_layout_spec(n).line_top(n) + 22,
{
}

/// The parts of a line stand side by side: the left one ends before the right one
/// begins, and both lie within the panel.
pub proof fn parts_of_a_line_stand_side_by_side(p: PanelLayout, i: int)
    requires
        p.wf(),
        0 <= i < p.rows,
    ensures
        p.left_rect_spec(i).left == p.pad_x,
        p.left_rect_spec(i).right <= p.right_rect_spec(i).left,
        p.right_rect_spec(i).right == p.width - p.pad_x,
        p.left_rect_spec(i).top == p.right_rect_spec(i).top,
        p.left_rect_spec(i).bottom == p.right_rect_spec(i).bottom,
        p.header_rect_spec().top == p.pad_y,
        p.header_rect_spec().bottom == p.pad_y + p.header_height,
{
}

/// The parts of the track stand where their marks are: the chosen range between
/// its two marks if they are in order, the part that was played from the in point
/// or the start of the track, and the handle within the track.
pub proof fn track_parts_stand_at_their_marks(
    r: TrackSpans,
    width: u32,
    track_left: i32,
    track_right: i32,
    played_px: u32,
    i: i32,
    o: i32,
    handle_x: i32,
)
    requires
        spans_are(r, width, track_left, track_right, played_px, Some(i), Some(o), handle_x),
        0 <= track_left < track_right < width <= i32::MAX,
        track_left <= i < o <= track_right,
    ensures
        r.range == Some((i as u32, o as u32)),
        r.played matches Some(p) ==> p.0 == i && p.1 <= track_right && p.1 <= track_left
            + played_px,
        r.played is Some <==> track_left + played_px > i,
        r.in_mark == Some(
            if i <= width - 2 {
                i as u32
            } else {
                (width - 2) as u32
            },
        ),
        r.out_mark == Some((o - 1) as u32),
        track_left <= r.handle <= track_right,
        track_left <= handle_x <= track_right ==> r.handle == handle_x,
        handle_x < track_left ==> r.handle == track_left,
        handle_x > track_right ==> r.handle == track_right,
{
}

/// The panel of recent files names the files in their order: of each its name at the
/// left, with a mark in front of the chosen one alone, and its position at the right
/// of the same line. The heading stands before them and the keys behind.
pub proof fn recent_panel_names_its_files(rows: Seq<RecentRow>, chosen: int, i: int)
    requires
        0 <= i < rows.len(),
    ensures
        ({
            let t = recent_texts(rows, chosen);
            &&& t.len() == 2 * rows.len() + 2
            &&& t[0].text == "Recent Files"@
            &&& t[2 * i + 1].text == (if i == chosen {
                "\u{203A} "@
            } else {
                "  "@
            }) + truncated(rows[i].name@, 56)
            &&& t[2 * i + 1].align == Align::Left
            &&& t[2 * i + 2].text == rows[i].position@
            &&& t[2 * i + 2].align == Align::Right
            &&& t[2 * i + 1].place.top == 48 + 22 * i || rows.len() > 1_000_000
            &&& t[2 * i + 2].place.top == t[2 * i + 1].place.top
            &&& t[2 * i + 1].place.left == 22
            &&& t[2 * i + 2].place.left == 460
            &&& t[2 * i + 2].place.right == 538
        }),
        recent_texts(Seq::empty(), chosen).len() == 3,
        recent_texts(Seq::empty(), chosen)[1].text == "No recent files"@,
{
    recent_line_stands_at(rows, chosen, rows.len(), i);
    let lines = recent_lines(rows, chosen, rows.len());
    let t = recent_texts(rows, chosen);
    assert(t[2 * i + 1] == lines[2 * i]);
    assert(t[2 * i + 2] == lines[2 * i + 1]);
}

proof fn recent_line_stands_at(rows: Seq<RecentRow>, chosen: int, count: nat, i: int)
    requires
        0 <= i < count <= rows.len(),
    ensures
        ({
            let lines = recent_lines(rows, chosen, count);
            let layout = recent_layout_spec(rows.len() as int);
            &&& lines.len() == 2 * count
            &&& lines[2 * i] == (PanelTextModel {
                text: recent_name(rows[i].name@, i == chosen),
                place: layout.left_rect_spec(i),
                align: Align::Left,
            })
            &&& lines[2 * i + 1] == (PanelTextModel {
                text: rows[i].position@,
                place: layout.right_rect_spec(i),
                align: Align::Right,
            })
        }),
    decreases count,
{
    if count > 1 {
        let k = if i < count - 1 {
            i
        } else {
            0
        };
        recent_line_stands_at(rows, chosen, (count - 1) as nat, k);
    } else {
        assert(recent_lines(rows, chosen, 0).len() == 0);
    }
}

/// The help panel names each key at the left of its line and what it does at the
/// right, in the order of the rows.
pub proof fn help_panel_names_its_keys(rows: Seq<HelpRow>, count: nat, i: int)
    requires
        0 <= i < count <= rows.len(),
        count <= 24,
    ensures
        ({
            let lines = help_lines(rows, count);
            &&& lines.len() == 2 * count
            &&& lines[2 * i].text == rows[i].key@
            &&& lines[2 * i].place.left == 20
            &&& lines[2 * i].place.top == 48 + 20 * i
            &&& lines[2 * i + 1].text == rows[i].text@
            &&& lines[2 * i + 1].place.left == 138
            &&& lines[2 * i + 1].place.top == 48 + 20 * i
            &&& lines[2 * i].align == Align::Left
            &&& lines[2 * i + 1].align == Align::Left
        }),
    decreases count,
{
    if count > 1 {
        let k = if i < count - 1 {
            i
        } else {
            0
        };
        help_panel_names_its_keys(rows, (count - 1) as nat, k);
    } else {
        assert(help_lines(rows, 0).len() == 0);
    }
}

/// A finished panel has a thin line below its heading, and of its lines only the
/// chosen one is brightened.
pub proof fn chosen_line_is_brightened(
    layout: PanelLayout,
    drawn: Pixel,
    chosen: usize,
    x: int,
    y: int,
)
    requires
        layout.wf(),
        layout.gap > 0,
    ensures
        ({
            let thin = y == layout.pad_y + layout.header_height + layout.gap / 2 && layout.pad_x
                <= x < layout.width - layout.pad_x;
            let top = layout.pad_y + layout.header_height + layout.gap + chosen
                * layout.line_height;
            let plain = text_pixel(TextStyle::Panel, drawn);
            &&& (thin ==> panel_pixel(layout, drawn, Some(chosen), x, y) == (Pixel {
                b: 255,
                g: 255,
                r: 255,
                a: 60,
            }))
            &&& (!thin && top <= y < top + layout.line_height ==> panel_pixel(
                layout,
                drawn,
                Some(chosen),
                x,
                y,
            ) == highlighted(plain))
            &&& (!thin && !(top <= y < top + layout.line_height) ==> panel_pixel(
                layout,
                drawn,
                Some(chosen),
                x,
                y,
            ) == plain)
            &&& (!thin ==> panel_pixel(layout, drawn, None, x, y) == plain)
        }),
{
}

/// The chosen line is brightened where there is such a line.
pub proof fn line_that_is_not_there_is_not_brightened(row_count: int, chosen: usize)
    ensures
        chosen < row_count ==> bright_line(row_count, chosen as int) == Some(chosen),
        chosen >= row_count ==> bright_line(row_count, chosen as int) is None,
{
}

/// The handle stands in the middle of the track, and the marks reach three rows beyond
/// it at both ends as far as the picture has them.
pub proof fn marks_reach_beyond_the_track(t: TrackLayout, height: u32, thick: int)
    requires
        3 <= t.track_top - t.top,
        t.track_bottom - t.track_top == thick,
        thick > 0,
        t.track_bottom - t.top + 3 <= height,
        t.is_measurable(),
    ensures
        ({
            let r = t.rows_in(height);
            &&& r.top == t.track_top - t.top
            &&& r.bottom == r.top + thick
            &&& r.middle == r.top + thick / 2
            &&& r.mark_top == r.top - 3
            &&& r.mark_bottom == r.bottom + 3
        }),
{
}

/// A timeline is drawn for a file of a second or more in a view with an area, and
/// for no other.
pub proof fn short_files_have_no_timeline(viewport: Size, duration: Duration)
    ensures
        timeline_is_drawn(viewport, duration) <==> viewport.width > 0 && viewport.height > 0
            && duration@ >= 1_000_000_000,
{
}

} // verus!
