//! Rendering: the fixed layout rules (marker, label column, separator,
//! title indent), the plain frame content, and the styled lines of a redraw.

use vstd::prelude::*;
use vstd::string::StrSliceExecFns;
use vstd::string::StringExecFns;

use crate::menu::Menu;
use crate::menu::MenuOption;
use crate::nav::highlight_of;
use crate::style::decorates;
use crate::style::lemma_decorates_refl;
use crate::style::style_hint;
use crate::style::style_normal;
use crate::style::style_selected;
use crate::style::style_title;

verus! {

/// The column width every label is left-justified to.
pub const LABEL_WIDTH: usize = 25;

/// `n` space characters.
pub open spec fn spaces(n: nat) -> Seq<char>
    decreases n,
{
    if n == 0 {
        Seq::empty()
    } else {
        spaces((n - 1) as nat).push(' ')
    }
}

/// A label left-justified to the label column: padded with spaces up to
/// `LABEL_WIDTH` characters, and kept as it is when already that wide.
pub open spec fn spec_padded(label: Seq<char>) -> Seq<char> {
    if label.len() >= LABEL_WIDTH {
        label
    } else {
        label + spaces((LABEL_WIDTH - label.len()) as nat)
    }
}

/// The hint text a row shows: the hint itself, or nothing when absent.
pub open spec fn spec_hint_text(h: Option<String>) -> Seq<char> {
    match h {
        Some(s) => s@,
        None => Seq::empty(),
    }
}

/// One row of a rendered frame: the padded label, the hint text (empty when
/// the option has none), and whether this row is the highlighted one.
#[derive(Debug, PartialEq)]
pub struct FrameRow {
    pub label: String,
    pub hint: String,
    pub selected: bool,
}

/// The plain visible content of one full redraw: the title, if any, and one
/// row per option, in option order.
#[derive(Debug, PartialEq)]
pub struct Frame {
    pub title: Option<String>,
    pub rows: Vec<FrameRow>,
}

/// Holds when frame `f` is the rendering of the given title, options and
/// session state: same title, one row per option in order, every label
/// padded to the label column, every hint carried over, and exactly the
/// highlighted row marked selected.
pub open spec fn frame_matches<A>(
    f: Frame,
    title: Option<String>,
    options: Seq<MenuOption<A>>,
    state: crate::nav::NavState,
) -> bool {
    &&& (f.title is Some <==> title is Some)
    &&& (title is Some ==> f.title->0@ == title->0@)
    &&& f.rows@.len() == options.len()
    &&& forall|i: int|
        0 <= i < options.len() ==> {
            &&& (#[trigger] f.rows@[i]).label@ == spec_padded(options[i].label@)
            &&& f.rows@[i].hint@ == spec_hint_text(options[i].hint)
            &&& f.rows@[i].selected == (highlight_of(state) == Some(i as usize))
        }
}

/// The content of a frame as plain mathematical values: the title text and
/// the sequence of (label, hint, selected) triples.
pub open spec fn frame_content(f: Frame) -> (Option<Seq<char>>, Seq<(Seq<char>, Seq<char>, bool)>) {
    (
        match f.title {
            Some(t) => Some(t@),
            None => None,
        },
        f.rows@.map_values(|r: FrameRow| (r.label@, r.hint@, r.selected)),
    )
}

/// Drawing is a pure function of the menu's visible fields: any two frames
/// drawn from the same title, options and state carry the same visible
/// content. No hidden counter or accumulating state can leak into a frame.
pub proof fn lemma_render_deterministic<A>(m: &Menu<A>, f1: Frame, f2: Frame)
    requires
        frame_matches(f1, m.title, m.options@, m.state),
        frame_matches(f2, m.title, m.options@, m.state),
    ensures
        frame_content(f1) == frame_content(f2),
{
    let c1 = frame_content(f1).1;
    let c2 = frame_content(f2).1;
    assert(c1 =~= c2) by {
        assert forall|i: int| 0 <= i < c1.len() implies c1[i] == c2[i] by {
            assert(f1.rows@[i].label@ == f2.rows@[i].label@);
            assert(f1.rows@[i].hint@ == f2.rows@[i].hint@);
            assert(f1.rows@[i].selected == f2.rows@[i].selected);
        }
    }
}

/// Holds when `line` is one option's styled line: the row marker, a span
/// decorating the padded label, the tab separator, and a span decorating
/// the hint text. An unselected row's label span is the padded label
/// itself, undecorated.
pub open spec fn line_matches(
    line: Seq<char>,
    label: Seq<char>,
    hint: Seq<char>,
    selected: bool,
) -> bool {
    exists|a: Seq<char>, b: Seq<char>|
        #![trigger decorates(a, spec_padded(label)), decorates(b, hint)]
        {
            &&& line == "- "@ + a + "\t"@ + b
            &&& decorates(a, spec_padded(label))
            &&& decorates(b, hint)
            &&& (!selected ==> a == spec_padded(label))
        }
}

/// Holds when `line` is the styled title line: the title indent followed by
/// a span decorating the title text.
pub open spec fn title_line_matches(line: Seq<char>, title: Seq<char>) -> bool {
    exists|t: Seq<char>|
        #![trigger decorates(t, title)]
        {
            &&& line == "  "@ + t
            &&& decorates(t, title)
        }
}

/// The number of lines the title takes at the top of a redraw.
pub open spec fn title_offset(title: Option<String>) -> int {
    if title is Some {
        1
    } else {
        0
    }
}

/// Left-justifies a label to the label column, exactly as the rendered rows
/// show it.
pub fn pad_label(label: &str) -> (r: String)
    ensures
        r@ == spec_padded(label@),
{
    let len: usize = label.unicode_len();
    let mut r: String = label.to_owned();
    proof {
        assert(label@ + spaces(0) =~= label@);
    }
    let mut i: usize = len;
    while i < LABEL_WIDTH
        invariant
            len == label@.len(),
            len <= i,
            len < LABEL_WIDTH ==> i <= LABEL_WIDTH,
            len >= LABEL_WIDTH ==> i == len,
            r@ == label@ + spaces((i - len) as nat),
        decreases LABEL_WIDTH - i,
    {
        r.append(" ");
        proof {
            reveal_strlit(" ");
            assert(" "@ =~= seq![' ']);
            assert(spaces((i + 1 - len) as nat) == spaces((i - len) as nat).push(' '));
            assert(label@ + spaces((i - len) as nat) + " "@ =~= label@ + spaces(
                (i + 1 - len) as nat,
            ));
        }
        i = i + 1;
    }
    r
}

impl<A> Menu<A> {
    /// The plain content of one full redraw of this menu, before styling.
    pub fn frame(&self) -> (f: Frame)
        ensures
            frame_matches(f, self.title, self.options@, self.state),
    {
        let hl = self.highlight();
        let mut rows: Vec<FrameRow> = Vec::new();
        let mut i: usize = 0;
        while i < self.options.len()
            invariant
                i <= self.options@.len(),
                rows@.len() == i,
                hl == highlight_of(self.state),
                forall|j: int|
                    0 <= j < i ==> {
                        &&& (#[trigger] rows@[j]).label@ == spec_padded(self.options@[j].label@)
                        &&& rows@[j].hint@ == spec_hint_text(self.options@[j].hint)
                        &&& rows@[j].selected == (highlight_of(self.state) == Some(j as usize))
                    },
            decreases self.options@.len() - i,
        {
            let opt = &self.options[i];
            let label = pad_label(opt.label.as_str());
            let hint = match &opt.hint {
                Some(h) => h.clone(),
                None => String::new(),
            };
            let selected = match hl {
                Some(j) => j == i,
                None => false,
            };
            rows.push(FrameRow { label, hint, selected });
            i = i + 1;
        }
        let title = match &self.title {
            Some(t) => Some(t.clone()),
            None => None,
        };
        Frame { title, rows }
    }

    /// The styled lines of one full redraw, in order and ready for the
    /// terminal: the indented, emphasized title line when a title is
    /// present, then one line per option. The highlighted row's label span
    /// carries the selection decoration; every other label span is the
    /// padded label itself; hint spans carry the hint decoration. No line
    /// is skipped and no row is reordered.
    pub fn draw_lines(&self) -> (lines: Vec<String>)
        ensures
            lines@.len() == self.options@.len() + title_offset(self.title),
            self.title is Some ==> title_line_matches(lines@[0]@, self.title->0@),
            forall|i: int|
                0 <= i < self.options@.len() ==> line_matches(
                    #[trigger] lines@[i + title_offset(self.title)]@,
                    self.options@[i].label@,
                    spec_hint_text(self.options@[i].hint),
                    highlight_of(self.state) == Some(i as usize),
                ),
    {
        let ghost off: int = title_offset(self.title);
        let mut lines: Vec<String> = Vec::new();
        match &self.title {
            Some(t) => {
                let styled = style_title(t.as_str());
                let mut line: String = "  ".to_owned();
                line.append(styled.as_str());
                proof {
                    assert(line@ == "  "@ + styled@);
                    assert(title_line_matches(line@, t@));
                }
                lines.push(line);
            },
            None => {},
        }
        let hl = self.highlight();
        let mut i: usize = 0;
        while i < self.options.len()
            invariant
                i <= self.options@.len(),
                lines@.len() == i + off,
                off == title_offset(self.title),
                hl == highlight_of(self.state),
                self.title is Some ==> title_line_matches(lines@[0]@, self.title->0@),
                forall|j: int|
                    0 <= j < i ==> line_matches(
                        #[trigger] lines@[j + off]@,
                        self.options@[j].label@,
                        spec_hint_text(self.options@[j].hint),
                        highlight_of(self.state) == Some(j as usize),
                    ),
            decreases self.options@.len() - i,
        {
            let opt = &self.options[i];
            let padded = pad_label(opt.label.as_str());
            let selected = match hl {
                Some(j) => j == i,
                None => false,
            };
            let styled_label = if selected {
                style_selected(padded.as_str())
            } else {
                style_normal(padded.as_str())
            };
            let styled_hint = match &opt.hint {
                Some(h) => style_hint(h.as_str()),
                None => style_hint(""),
            };
            let mut line: String = "- ".to_owned();
            line.append(styled_label.as_str());
            line.append("\t");
            line.append(styled_hint.as_str());
            proof {
                if !selected {
                    lemma_decorates_refl(spec_padded(opt.label@));
                }
                if opt.hint is None {
                    reveal_strlit("");
                    assert(""@ =~= Seq::<char>::empty());
                }
                assert(decorates(styled_hint@, spec_hint_text(opt.hint)));
                assert(line@ == "- "@ + styled_label@ + "\t"@ + styled_hint@);
                assert(line_matches(
                    line@,
                    opt.label@,
                    spec_hint_text(opt.hint),
                    highlight_of(self.state) == Some(i as usize),
                ));
            }
            lines.push(line);
            i = i + 1;
        }
        lines
    }
}

} // verus!
