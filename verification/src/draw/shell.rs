//! What the shell looks like.

use crate::containers::shell::{ShellKind, ShellPopup, ShellView};
use crate::draw::page::{push_plain, push_span};
use crate::geometry::{
    framed, inside_frame, may_split_into, overlay, overlay_of, three_rows, Direction, Rect, Slot,
};
use crate::pull::{spinner, spinner_frame};
use crate::text;
use crate::theme::{bold, colored, plain_style, span, Color, Span, SpanView, Style, Theme};
use vstd::prelude::*;

verus! {

/// The box of a shell: its output, the line that is typed, and its keys.
pub struct ShellBox {
    pub area: Rect,
    pub title: String,
    pub output_area: Rect,
    pub output: Vec<Span>,
    pub input_area: Rect,
    pub input: Vec<Span>,
    pub hint_area: Rect,
    pub hint: Vec<Span>,
}

impl ShellView {
    /// The lines of the output, where there is room for `rows` of them, and what runs.
    pub open spec fn output(self, rows: int, tick: u64, theme: Theme) -> Seq<SpanView> {
        let (start, end) = self.shown(rows);
        let lines = Seq::new(
            (end - start) as nat,
            |i: int| span(self.lines[start + i], plain_style()),
        );
        if self.running && end > start {
            lines.push(span(spinner_frame(tick) + " running…"@, colored(theme.accent)))
        } else {
            lines
        }
    }

    pub open spec fn input_line(self, theme: Theme) -> Seq<SpanView> {
        seq![
            span(self.prompt(), bold(theme.muted)),
            span(self.input, plain_style()),
            span("█"@, colored(theme.accent)),
        ]
    }

    pub open spec fn hint_line(self, theme: Theme) -> Seq<SpanView> {
        seq![
            span(
                "enter: run  |  esc/q: close  |  ↑/↓: history  |  PgUp/PgDn: scroll  |  ctrl-l: clear  |  Tab/⇧Tab: cd autocomplete"@,
                colored(theme.muted),
            ),
            span("   "@, plain_style()),
            span(
                "(cd, cd -, cd ~)  ("@ + (match self.shell {
                    ShellKind::Sh => "sh"@,
                    ShellKind::Bash => "bash"@,
                }) + ")"@,
                colored(Color::Rgb(120, 160, 255)),
            ),
        ]
    }

    pub open spec fn drawn(self, b: ShellBox, area: Rect, tick: u64, theme: Theme) -> bool {
        &&& overlay_of(area, 4, 5, 60, 16) == Some(b.area)
        &&& may_split_into(
            framed(b.area),
            Direction::Rows,
            seq![
                Slot::Min((b.area.height - 6) as u16),
                Slot::Length(1),
                Slot::Length(1),
            ],
            seq![b.output_area, b.input_area, b.hint_area],
        )
        &&& b.title@ == "Shell — "@ + self.name + " ("@ + text::first_chars(self.id, 12) + ")"@
        &&& b.output.deep_view() == self.output(b.output_area.height as int, tick, theme)
        &&& b.input.deep_view() == self.input_line(theme)
        &&& b.hint.deep_view() == self.hint_line(theme)
    }
}

impl ShellPopup {
    fn make_output(&self, rows: u16, tick: u64, theme: Theme) -> (r: Vec<Span>)
        ensures
            r.deep_view() == self@.output(rows as int, tick, theme),
    {
        let (start, end) = self.output_window(rows as usize);
        let ghost m = self@;
        let ghost all = Seq::new(
            (end - start) as nat,
            |i: int| span(m.lines[start + i], plain_style()),
        );
        let mut out: Vec<Span> = Vec::new();
        let mut i: usize = start;
        assert(m.lines.len() == self.lines@.len());
        assert(out.deep_view() == all.take(0));
        while i < end
            invariant
                start <= i <= end <= self.lines@.len(),
                m == self@,
                all == Seq::new(
                    (end - start) as nat,
                    |i: int| span(m.lines[start + i], plain_style()),
                ),
                out.deep_view() == all.take(i - start),
            decreases end - i,
        {
            assert(m.lines[i as int] == self.lines@[i as int]@);
            push_plain(&mut out, self.lines[i].as_str());
            assert(all.take(i + 1 - start) == all.take(i - start).push(all[i - start]));
            i += 1;
        }
        assert(all.take(end - start) == all);
        if self.running && end > start {
            let t = text::cat(spinner(tick).as_str(), " running…");
            push_span(&mut out, t.as_str(), Style::fg(theme.accent));
        }
        out
    }

    /// What the shell looks like, or `None` where there is no room for it.
    pub fn draw(&self, area: Rect, tick: u64, theme: Theme) -> (r: Option<ShellBox>)
        ensures
            match r {
                Some(b) => self@.drawn(b, area, tick, theme),
                None => overlay_of(area, 4, 5, 60, 16) is None,
            },
    {
        let o = match overlay(area, 4, 5, 60, 16) {
            Some(o) => o,
            None => {
                return None;
            },
        };
        assert(o.height >= 16);
        let (output_area, input_area, hint_area) = three_rows(
            inside_frame(o),
            Slot::Min(o.height - 6),
            Slot::Length(1),
            Slot::Length(1),
        );
        let mut input: Vec<Span> = Vec::new();
        push_span(&mut input, self.prompt().as_str(), Style::bold(theme.muted));
        push_plain(&mut input, self.input.as_str());
        push_span(&mut input, "█", Style::fg(theme.accent));
        assert(input.deep_view() == self@.input_line(theme));
        let mut hint: Vec<Span> = Vec::new();
        push_span(
            &mut hint,
            "enter: run  |  esc/q: close  |  ↑/↓: history  |  PgUp/PgDn: scroll  |  ctrl-l: clear  |  Tab/⇧Tab: cd autocomplete",
            Style::fg(theme.muted),
        );
        push_plain(&mut hint, "   ");
        push_span(&mut hint, self.shell_hint().as_str(), Style::fg(Color::Rgb(120, 160, 255)));
        assert(hint.deep_view() == self@.hint_line(theme));
        Some(
            ShellBox {
                area: o,
                title: self.title(),
                output_area,
                output: self.make_output(output_area.height, tick, theme),
                input_area,
                input,
                hint_area,
                hint,
            },
        )
    }
}

} // verus!
