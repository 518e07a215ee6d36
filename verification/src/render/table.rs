//! Box-drawing table renderer: fixed-format header, dividers and rows
//! with exact character-level layout.

use vstd::prelude::*;
use vstd::string::*;
use crate::config::BoxChars;
use crate::text::{char_repeat, push_char};

verus! {

/// A run of `n` copies of one character.
pub open spec fn rep(c: char, n: nat) -> Seq<char> {
    Seq::new(n, |i: int| c)
}

/// Table renderer with fixed column widths.
pub struct TableRenderer {
    /// Label column width.
    pub label_width: usize,
    /// Data column width.
    pub data_width: usize,
    /// Box-drawing characters.
    pub chars: BoxChars,
    /// Total table width.
    pub total_width: usize,
}

impl TableRenderer {
    /// The renderer's layout invariant: the total width accounts for
    /// both columns, the three vertical borders and the four padding
    /// spaces.
    pub open spec fn wf(&self) -> bool {
        self.total_width == self.label_width + self.data_width + 7
    }

    /// The label column width.
    pub open spec fn spec_label_width(&self) -> nat {
        self.label_width as nat
    }

    /// The data column width.
    pub open spec fn spec_data_width(&self) -> nat {
        self.data_width as nat
    }

    /// The box-drawing characters in use.
    pub open spec fn spec_chars(&self) -> BoxChars {
        self.chars
    }

    /// Create a renderer with the given column widths.
    pub fn new(label_width: usize, data_width: usize, chars: BoxChars) -> (r: Self)
        requires
            label_width + data_width + 7 <= usize::MAX,
        ensures
            r.wf(),
            r.spec_label_width() == label_width,
            r.spec_data_width() == data_width,
            r.spec_chars() == chars,
    {
        let total_width = label_width + data_width + 7;
        TableRenderer { label_width, data_width, chars, total_width }
    }

    /// The top header line: corners around a run of down-tees.
    pub open spec fn spec_top_header(&self) -> Seq<char> {
        seq![self.chars.top_left] + rep(self.chars.t_down, (self.total_width - 2) as nat) + seq![
            self.chars.top_right,
            '\n',
        ]
    }

    /// Render the top header line.
    pub fn render_top_header(&self) -> (r: String)
        requires
            self.wf(),
        ensures
            r@ == self.spec_top_header(),
    {
        let mut line = String::new();
        push_char(&mut line, self.chars.top_left);
        let run = char_repeat(self.chars.t_down, self.total_width - 2);
        line.append(run.as_str());
        push_char(&mut line, self.chars.top_right);
        push_char(&mut line, '\n');
        proof {
            assert(line@ =~= self.spec_top_header());
        }
        line
    }

    /// The line under the header: side-tees around a run of up-tees.
    pub open spec fn spec_header_bottom(&self) -> Seq<char> {
        seq![self.chars.t_right] + rep(self.chars.t_up, (self.total_width - 2) as nat) + seq![
            self.chars.t_left,
            '\n',
        ]
    }

    /// Render the line below the top header.
    pub fn render_header_bottom(&self) -> (r: String)
        requires
            self.wf(),
        ensures
            r@ == self.spec_header_bottom(),
    {
        let mut line = String::new();
        push_char(&mut line, self.chars.t_right);
        let run = char_repeat(self.chars.t_up, self.total_width - 2);
        line.append(run.as_str());
        push_char(&mut line, self.chars.t_left);
        push_char(&mut line, '\n');
        proof {
            assert(line@ =~= self.spec_header_bottom());
        }
        line
    }

    /// A centered line: the text between the side borders, padded on
    /// both sides (the right side takes the odd space), or truncated
    /// with an ellipsis when it exceeds the inner width.
    pub open spec fn spec_centered(&self, text: Seq<char>) -> Seq<char> {
        let inner = self.total_width - 2;
        if text.len() > inner {
            seq![self.chars.vertical] + text.take(inner - 3) + "..."@ + seq![
                self.chars.vertical,
                '\n',
            ]
        } else {
            let pad = (inner - text.len()) / 2;
            let extra = (inner - text.len()) % 2;
            seq![self.chars.vertical] + rep(' ', pad as nat) + text + rep(' ', (pad + extra) as nat)
                + seq![self.chars.vertical, '\n']
        }
    }

    /// Render a centered text line (title or subtitle).
    pub fn render_centered(&self, text: &str) -> (r: String)
        requires
            self.wf(),
        ensures
            r@ == self.spec_centered(text@),
    {
        let text_len = text.unicode_len();
        let inner = self.total_width - 2;
        let mut line = String::new();
        push_char(&mut line, self.chars.vertical);
        if text_len > inner {
            let truncated = text.substring_char(0, inner - 3);
            line.append(truncated);
            line.append("...");
            push_char(&mut line, self.chars.vertical);
            push_char(&mut line, '\n');
            proof {
                assert(text@.subrange(0, self.total_width - 2 - 3) =~= text@.take(
                    self.total_width - 2 - 3,
                ));
                assert(line@ =~= self.spec_centered(text@));
            }
            line
        } else {
            let pad = (inner - text_len) / 2;
            let extra = (inner - text_len) % 2;
            let left = char_repeat(' ', pad);
            line.append(left.as_str());
            line.append(text);
            let right = char_repeat(' ', pad + extra);
            line.append(right.as_str());
            push_char(&mut line, self.chars.vertical);
            push_char(&mut line, '\n');
            proof {
                assert(line@ =~= self.spec_centered(text@));
            }
            line
        }
    }

    /// A divider: a side-tee, the label span, the given joint, the data
    /// span, a side-tee.
    pub open spec fn spec_divider(&self, joint: char, left: char, right: char) -> Seq<char> {
        seq![left] + rep(self.chars.horizontal, (self.label_width + 2) as nat) + seq![joint] + rep(
            self.chars.horizontal,
            (self.data_width + 2) as nat,
        ) + seq![right, '\n']
    }

    fn render_divider(&self, joint: char, left: char, right: char) -> (r: String)
        requires
            self.wf(),
        ensures
            r@ == self.spec_divider(joint, left, right),
    {
        let mut line = String::new();
        push_char(&mut line, left);
        let seg1 = char_repeat(self.chars.horizontal, self.label_width + 2);
        line.append(seg1.as_str());
        push_char(&mut line, joint);
        let seg2 = char_repeat(self.chars.horizontal, self.data_width + 2);
        line.append(seg2.as_str());
        push_char(&mut line, right);
        push_char(&mut line, '\n');
        proof {
            assert(line@ =~= self.spec_divider(joint, left, right));
        }
        line
    }

    /// Render the divider after the title section (down-tee joint).
    pub fn render_top_divider(&self) -> (r: String)
        requires
            self.wf(),
        ensures
            r@ == self.spec_divider(self.chars.t_down, self.chars.t_right, self.chars.t_left),
    {
        self.render_divider(self.chars.t_down, self.chars.t_right, self.chars.t_left)
    }

    /// Render a divider between sections (cross joint).
    pub fn render_middle_divider(&self) -> (r: String)
        requires
            self.wf(),
        ensures
            r@ == self.spec_divider(self.chars.cross, self.chars.t_right, self.chars.t_left),
    {
        self.render_divider(self.chars.cross, self.chars.t_right, self.chars.t_left)
    }

    /// Render the divider before the footer (up-tee joint).
    pub fn render_bottom_divider(&self) -> (r: String)
        requires
            self.wf(),
        ensures
            r@ == self.spec_divider(self.chars.t_up, self.chars.t_right, self.chars.t_left),
    {
        self.render_divider(self.chars.t_up, self.chars.t_right, self.chars.t_left)
    }

    /// Render the footer line (bottom corners, up-tee joint).
    pub fn render_footer(&self) -> (r: String)
        requires
            self.wf(),
        ensures
            r@ == self.spec_divider(
                self.chars.t_up,
                self.chars.bottom_left,
                self.chars.bottom_right,
            ),
    {
        self.render_divider(self.chars.t_up, self.chars.bottom_left, self.chars.bottom_right)
    }

    /// Text fitted to an exact width: padded with spaces, or truncated
    /// (with an ellipsis when the width leaves room for one).
    pub open spec fn spec_fit(s: Seq<char>, width: nat) -> Seq<char> {
        if s.len() > width {
            if width <= 3 {
                s.take(width as int)
            } else {
                s.take(width - 3) + "..."@
            }
        } else {
            s + rep(' ', (width - s.len()) as nat)
        }
    }

    /// Fit a string to exactly `width` characters.
    fn fit_string(s: &str, width: usize) -> (r: String)
        ensures
            r@ == Self::spec_fit(s@, width as nat),
    {
        let n = s.unicode_len();
        if n > width {
            if width <= 3 {
                let t = s.substring_char(0, width);
                proof {
                    assert(s@.subrange(0, width as int) =~= s@.take(width as int));
                }
                t.to_owned()
            } else {
                let t = s.substring_char(0, width - 3);
                let mut r = t.to_owned();
                r.append("...");
                proof {
                    assert(s@.subrange(0, width - 3) =~= s@.take(width - 3));
                }
                r
            }
        } else {
            let mut r = s.to_owned();
            let padding = char_repeat(' ', width - n);
            r.append(padding.as_str());
            proof {
                assert(r@ =~= Self::spec_fit(s@, width as nat));
            }
            r
        }
    }

    /// A data row: the label and the value, each fitted to its column,
    /// between the three vertical borders.
    pub open spec fn spec_row(&self, label: Seq<char>, value: Seq<char>) -> Seq<char> {
        seq![self.chars.vertical, ' '] + Self::spec_fit(label, self.label_width as nat) + seq![
            ' ',
            self.chars.vertical,
            ' ',
        ] + Self::spec_fit(value, self.data_width as nat) + seq![' ', self.chars.vertical, '\n']
    }

    /// Render a data row.
    pub fn render_row(&self, label: &str, value: &str) -> (r: String)
        requires
            self.wf(),
        ensures
            r@ == self.spec_row(label@, value@),
    {
        let label_display = Self::fit_string(label, self.label_width);
        let value_display = Self::fit_string(value, self.data_width);
        let mut line = String::new();
        push_char(&mut line, self.chars.vertical);
        push_char(&mut line, ' ');
        line.append(label_display.as_str());
        push_char(&mut line, ' ');
        push_char(&mut line, self.chars.vertical);
        push_char(&mut line, ' ');
        line.append(value_display.as_str());
        push_char(&mut line, ' ');
        push_char(&mut line, self.chars.vertical);
        push_char(&mut line, '\n');
        proof {
            assert(line@ =~= self.spec_row(label@, value@));
        }
        line
    }
}

/// Builder that accumulates a full report table.
pub struct ReportBuilder {
    pub renderer: TableRenderer,
    pub output: String,
    pub has_rows: bool,
}

impl ReportBuilder {
    /// The builder's renderer keeps its layout invariant.
    pub open spec fn wf(&self) -> bool {
        self.renderer.wf()
    }

    /// The text accumulated so far.
    pub open spec fn spec_output(&self) -> Seq<char> {
        self.output@
    }

    /// The renderer in use.
    pub open spec fn spec_renderer(&self) -> TableRenderer {
        self.renderer
    }

    /// Whether a data row has been added.
    pub open spec fn spec_has_rows(&self) -> bool {
        self.has_rows
    }

    /// Create a report builder over a fresh renderer.
    pub fn new(label_width: usize, data_width: usize, chars: BoxChars) -> (r: Self)
        requires
            label_width + data_width + 7 <= usize::MAX,
        ensures
            r.wf(),
            r.spec_output().len() == 0,
            !r.spec_has_rows(),
            r.spec_renderer().spec_label_width() == label_width,
            r.spec_renderer().spec_data_width() == data_width,
            r.spec_renderer().spec_chars() == chars,
    {
        ReportBuilder {
            renderer: TableRenderer::new(label_width, data_width, chars),
            output: String::new(),
            has_rows: false,
        }
    }

    /// Append the header section: top border, its underline, the
    /// centered title and subtitle, and the divider into the body.
    pub fn header(self, title: &str, subtitle: &str) -> (r: Self)
        requires
            self.wf(),
        ensures
            r.wf(),
            r.spec_renderer() == self.spec_renderer(),
            r.spec_has_rows() == self.spec_has_rows(),
            r.spec_output() == self.spec_output() + self.spec_renderer().spec_top_header()
                + self.spec_renderer().spec_header_bottom() + self.spec_renderer().spec_centered(
                title@,
            ) + self.spec_renderer().spec_centered(subtitle@) + self.spec_renderer().spec_divider(
                self.spec_renderer().spec_chars().t_down,
                self.spec_renderer().spec_chars().t_right,
                self.spec_renderer().spec_chars().t_left,
            ),
    {
        let mut output = self.output;
        let piece = self.renderer.render_top_header();
        output.append(piece.as_str());
        let piece = self.renderer.render_header_bottom();
        output.append(piece.as_str());
        let piece = self.renderer.render_centered(title);
        output.append(piece.as_str());
        let piece = self.renderer.render_centered(subtitle);
        output.append(piece.as_str());
        let piece = self.renderer.render_top_divider();
        output.append(piece.as_str());
        ReportBuilder { renderer: self.renderer, output, has_rows: self.has_rows }
    }

    /// Append a data row.
    pub fn row(self, label: &str, value: &str) -> (r: Self)
        requires
            self.wf(),
        ensures
            r.wf(),
            r.spec_renderer() == self.spec_renderer(),
            r.spec_has_rows(),
            r.spec_output() == self.spec_output() + self.spec_renderer().spec_row(label@, value@),
    {
        let mut output = self.output;
        let piece = self.renderer.render_row(label, value);
        output.append(piece.as_str());
        ReportBuilder { renderer: self.renderer, output, has_rows: true }
    }

    /// Append a section divider.
    pub fn divider(self) -> (r: Self)
        requires
            self.wf(),
        ensures
            r.wf(),
            r.spec_renderer() == self.spec_renderer(),
            r.spec_has_rows() == self.spec_has_rows(),
            r.spec_output() == self.spec_output() + self.spec_renderer().spec_divider(
                self.spec_renderer().spec_chars().cross,
                self.spec_renderer().spec_chars().t_right,
                self.spec_renderer().spec_chars().t_left,
            ),
    {
        let mut output = self.output;
        let piece = self.renderer.render_middle_divider();
        output.append(piece.as_str());
        ReportBuilder { renderer: self.renderer, output, has_rows: self.has_rows }
    }

    /// Close the table and return the whole text: the bottom divider,
    /// then the footer.
    pub fn finish(self) -> (r: String)
        requires
            self.wf(),
        ensures
            r@ == self.spec_output() + self.spec_renderer().spec_divider(
                self.spec_renderer().spec_chars().t_up,
                self.spec_renderer().spec_chars().t_right,
                self.spec_renderer().spec_chars().t_left,
            ) + self.spec_renderer().spec_divider(
                self.spec_renderer().spec_chars().t_up,
                self.spec_renderer().spec_chars().bottom_left,
                self.spec_renderer().spec_chars().bottom_right,
            ),
    {
        let mut output = self.output;
        let piece = self.renderer.render_bottom_divider();
        output.append(piece.as_str());
        let piece = self.renderer.render_footer();
        output.append(piece.as_str());
        output
    }

    /// The accumulated text without a footer (for adding more sections).
    pub fn build(self) -> (r: String)
        ensures
            r@ == self.spec_output(),
    {
        self.output
    }
}

} // verus!
