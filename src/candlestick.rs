//! "Candlestick" plots

use vstd::prelude::*;
use crate::figure::{min, Figure, Matrix, Plot};
use crate::number::Decimal;
use crate::text::contains;
use crate::style::{
    append_color, append_title, color_directive, title_directive, Axes, Axis, Color, LineType,
};

verus! {

/// Properties common to candlestick plots
#[derive(Clone, Debug)]
pub struct Properties {
    pub color: Option<Color>,
    pub label: Option<String>,
    pub line_type: LineType,
    pub linewidth: Option<Decimal>,
}

/// The line width directive, empty when no width is set
pub open spec fn width_directive(lw: Option<Decimal>) -> Seq<char> {
    match lw {
        None => Seq::empty(),
        Some(w) => "lw "@ + w.text() + " "@,
    }
}

impl Properties {
    /// The script fragment for these properties
    pub open spec fn script_text(&self) -> Seq<char> {
        "with candlesticks "@ + "lt "@ + self.line_type.text() + " "@ + width_directive(
            self.linewidth,
        ) + color_directive(self.color) + title_directive(self.label)
    }

    /// Solid lines, and nothing else set
    pub open spec fn spec_default() -> Properties {
        Properties { color: None, label: None, line_type: LineType::Solid, linewidth: None }
    }

    /// Sets the line color
    pub fn color(&mut self, color: Color) -> (r: &mut Properties)
        ensures
            *final(self) == *final(r),
            *r == (Properties { color: Some(color), ..*old(self) }),
    {
        self.color = Some(color);
        self
    }

    /// Sets the legend label
    pub fn label(&mut self, label: &str) -> (r: &mut Properties)
        ensures
            *final(self) == *final(r),
            r.label is Some,
            r.label.unwrap()@ == label@,
            *r == (Properties { label: r.label, ..*old(self) }),
    {
        self.label = Some(String::from_str(label));
        self
    }

    /// Changes the line type
    ///
    /// **Note** By default `Solid` lines are used
    pub fn line_type(&mut self, lt: LineType) -> (r: &mut Properties)
        ensures
            *final(self) == *final(r),
            *r == (Properties { line_type: lt, ..*old(self) }),
    {
        self.line_type = lt;
        self
    }

    /// Changes the width of the line; the width must be positive
    pub fn line_width(&mut self, lw: Decimal) -> (r: &mut Properties)
        requires
            lw.spec_is_positive(),
        ensures
            *final(self) == *final(r),
            *r == (Properties { linewidth: Some(lw), ..*old(self) }),
    {
        self.linewidth = Some(lw);
        self
    }

    /// Renders the properties as a script fragment
    pub fn script(&self) -> (r: String)
        ensures
            r@ == self.script_text(),
    {
        let mut script = String::from_str("with candlesticks ");
        script.append("lt ");
        script.append(self.line_type.display());
        script.append(" ");
        if let Some(lw) = &self.linewidth {
            script.append("lw ");
            let w = lw.display();
            script.append(w.as_str());
            script.append(" ");
        }
        append_color(&mut script, self.color);
        append_title(&mut script, &self.label);
        script
    }
}

impl Default for Properties {
    fn default() -> (r: Properties)
        ensures
            r == Properties::spec_default(),
    {
        Properties { color: None, label: None, line_type: LineType::Solid, linewidth: None }
    }
}

/// A candlestick consists of a box and two whiskers that extend beyond the box
pub struct Candlesticks<T> {
    /// X coordinate of the candlestick
    pub x: Vec<T>,
    /// Y coordinate of the end point of the bottom whisker
    pub whisker_min: Vec<T>,
    /// Y coordinate of the bottom of the box
    pub box_min: Vec<T>,
    /// Y coordinate of the top of the box
    pub box_high: Vec<T>,
    /// Y coordinate of the end point of the top whisker
    pub whisker_high: Vec<T>,
}

impl<T> Candlesticks<T> {
    /// The number of complete candlesticks: the length of the shortest series
    pub open spec fn spec_len(&self) -> int {
        min(
            min(min(self.x@.len() as int, self.whisker_min@.len() as int), min(self.box_min@.len() as int, self.box_high@.len() as int)),
            self.whisker_high@.len() as int,
        )
    }

    /// Row `i` of the table, in the column order the renderer expects:
    /// x, box bottom, bottom whisker, top whisker, box top
    pub open spec fn spec_row(&self, i: int) -> Seq<T> {
        seq![self.x@[i], self.box_min@[i], self.whisker_min@[i], self.whisker_high@[i], self.box_high@[i]]
    }
}

impl<T: Copy> Candlesticks<T> {
    /// Zips the five series into rows, stopping at the end of the shortest
    pub fn rows(&self) -> (r: Vec<Vec<T>>)
        ensures
            r@.len() == self.spec_len(),
            forall|i: int| 0 <= i < r@.len() ==> (#[trigger] r@[i])@ == self.spec_row(i),
    {
        let mut n = self.x.len();
        if self.whisker_min.len() < n {
            n = self.whisker_min.len();
        }
        if self.box_min.len() < n {
            n = self.box_min.len();
        }
        if self.box_high.len() < n {
            n = self.box_high.len();
        }
        if self.whisker_high.len() < n {
            n = self.whisker_high.len();
        }
        let mut rows: Vec<Vec<T>> = Vec::new();
        let mut i: usize = 0;
        while i < n
            invariant
                n == self.spec_len(),
                i <= n,
                rows@.len() == i,
                forall|k: int| 0 <= k < i ==> (#[trigger] rows@[k])@ == self.spec_row(k),
            decreases n - i,
        {
            let row = vec![self.x[i], self.box_min[i], self.whisker_min[i], self.whisker_high[i], self.box_high[i]];
            assert(row@ =~= self.spec_row(i as int));
            rows.push(row);
            i += 1;
        }
        rows
    }
}

impl<T: Copy> Figure<T> {
    /// Adds a candlestick plot, measured against the bottom X and left Y axes
    pub fn plot_candlesticks(&mut self, candlesticks: Candlesticks<T>, properties: &Properties) -> (r: &mut Figure<T>)
        ensures
            *final(self) == *final(r),
            r.plots@.len() == old(self).plots@.len() + 1,
            forall|i: int| 0 <= i < old(self).plots@.len() ==> r.plots@[i] == old(self).plots@[i],
            r.plots@.last().script@ == properties.script_text(),
            r.plots@.last().data.scales@ == seq![Axis::BottomX, Axis::LeftY, Axis::LeftY, Axis::LeftY, Axis::LeftY],
            r.plots@.last().data.rows@.len() == candlesticks.spec_len(),
            forall|i: int| 0 <= i < candlesticks.spec_len() ==> (#[trigger] r.plots@.last().data.rows@[i])@ == candlesticks.spec_row(i),
    {
        let axes = Axes::BottomXLeftY;
        let x = axes.x_axis();
        let y = axes.y_axis();
        let rows = candlesticks.rows();
        let scales = vec![x, y, y, y, y];
        let plot = Plot { data: Matrix { rows, scales }, script: properties.script() };
        self.plots.push(plot);
        self
    }
}

/// Once a positive width `w` is set, the fragment holds the directive `lw <w> `, where
/// `<w>` is the width as written.
pub proof fn lemma_line_width_directive(p: Properties, w: Decimal)
    requires
        w.spec_is_positive(),
    ensures
        contains((Properties { linewidth: Some(w), ..p }).script_text(), "lw "@ + w.text() + " "@),
{
    let q = Properties { linewidth: Some(w), ..p };
    let head = "with candlesticks "@ + "lt "@ + q.line_type.text() + " "@;
    let d = "lw "@ + w.text() + " "@;
    let s = q.script_text();
    assert(s == head + d + color_directive(q.color) + title_directive(q.label));
    assert(s.subrange(head.len() as int, (head.len() + d.len()) as int) =~= d);
}

/// Rendering is a function of the properties alone: equal properties render to equal text.
pub proof fn lemma_script_deterministic(a: Properties, b: Properties)
    requires
        a == b,
    ensures
        a.script_text() == b.script_text(),
{
}

} // verus!
