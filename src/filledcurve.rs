//! Filled curve plots

use vstd::prelude::*;
use crate::figure::{min, Figure, Matrix, Plot};
use crate::number::Decimal;
use crate::text::contains;
use crate::style::{append_color, append_title, color_directive, title_directive, Axes, Color};

verus! {

/// Properties common to filled curve plots
#[derive(Clone, Debug)]
pub struct Properties {
    pub axes: Option<Axes>,
    pub color: Option<Color>,
    pub label: Option<String>,
    pub opacity: Option<Decimal>,
}

/// The axes directive, empty when no axes are selected
pub open spec fn axes_directive(axes: Option<Axes>) -> Seq<char> {
    match axes {
        None => Seq::empty(),
        Some(a) => "axes "@ + a.text() + " "@,
    }
}

/// The solid fill directive, empty when no opacity is set
pub open spec fn opacity_directive(opacity: Option<Decimal>) -> Seq<char> {
    match opacity {
        None => Seq::empty(),
        Some(o) => "solid "@ + o.text() + " "@,
    }
}

impl Properties {
    /// The script fragment for these properties
    pub open spec fn script_text(&self) -> Seq<char> {
        axes_directive(self.axes) + "with filledcurves "@ + "fillstyle "@ + opacity_directive(
            self.opacity,
        ) + "noborder "@ + color_directive(self.color) + title_directive(self.label)
    }

    /// The axes the curve is measured against: those selected, or else the bottom X and
    /// left Y axes
    pub open spec fn spec_effective_axes(&self) -> Axes {
        match self.axes {
            Some(a) => a,
            None => Axes::BottomXLeftY,
        }
    }

    /// Nothing set
    pub open spec fn spec_default() -> Properties {
        Properties { axes: None, color: None, label: None, opacity: None }
    }

    /// Select axes to plot against
    ///
    /// **Note** By default, the `BottomXLeftY` axes are used
    pub fn axes(&mut self, axes: Axes) -> (r: &mut Properties)
        ensures
            *final(self) == *final(r),
            *r == (Properties { axes: Some(axes), ..*old(self) }),
    {
        self.axes = Some(axes);
        self
    }

    /// Sets the fill color
    pub fn color(&mut self, color: Color) -> (r: &mut Properties)
        ensures
            *final(self) == *final(r),
            *r == (Properties { color: Some(color), ..*old(self) }),
    {
        self.color = Some(color);
        self
    }

    /// Sets the legend label
    pub fn label(&mut self, label: &str) -> (r: &mut Properties)
        ensures
            *final(self) == *final(r),
            r.label is Some,
            r.label.unwrap()@ == label@,
            *r == (Properties { label: r.label, ..*old(self) }),
    {
        self.label = Some(String::from_str(label));
        self
    }

    /// Changes the opacity of the fill color; it must lie between zero and one
    ///
    /// **Note** By default, the fill color is totally opaque (`opacity = 1.0`)
    pub fn opacity(&mut self, opacity: Decimal) -> (r: &mut Properties)
        requires
            opacity.spec_in_unit_interval(),
        ensures
            *final(self) == *final(r),
            *r == (Properties { opacity: Some(opacity), ..*old(self) }),
    {
        self.opacity = Some(opacity);
        self
    }

    /// The axes the curve is measured against
    pub fn effective_axes(&self) -> (r: Axes)
        ensures
            r == self.spec_effective_axes(),
    {
        match self.axes {
            Some(a) => a,
            None => Axes::BottomXLeftY,
        }
    }

    /// Renders the properties as a script fragment
    pub fn script(&self) -> (r: String)
        ensures
            r@ == self.script_text(),
    {
        let mut script = String::new();
        if let Some(axes) = self.axes {
            script.append("axes ");
            script.append(axes.display());
            script.append(" ");
        }
        script.append("with filledcurves ");
        script.append("fillstyle ");
        if let Some(opacity) = &self.opacity {
            script.append("solid ");
            let o = opacity.display();
            script.append(o.as_str());
            script.append(" ");
        }
        // the border is not configurable yet
        script.append("noborder ");
        append_color(&mut script, self.color);
        append_title(&mut script, &self.label);
        script
    }
}

impl Default for Properties {
    fn default() -> (r: Properties)
        ensures
            r == Properties::spec_default(),
    {
        Properties { axes: None, color: None, label: None, opacity: None }
    }
}

/// Fills the area between two curves
pub struct FilledCurve<T> {
    /// X coordinate of the data points of both curves
    pub x: Vec<T>,
    /// Y coordinate of the data points of the first curve
    pub y1: Vec<T>,
    /// Y coordinate of the data points of the second curve
    pub y2: Vec<T>,
}

impl<T> FilledCurve<T> {
    /// The number of complete points: the length of the shortest series
    pub open spec fn spec_len(&self) -> int {
        min(min(self.x@.len() as int, self.y1@.len() as int), self.y2@.len() as int)
    }

    /// Row `i` of the table: x, y1, y2
    pub open spec fn spec_row(&self, i: int) -> Seq<T> {
        seq![self.x@[i], self.y1@[i], self.y2@[i]]
    }
}

impl<T: Copy> FilledCurve<T> {
    /// Zips the three series into rows, stopping at the end of the shortest
    pub fn rows(&self) -> (r: Vec<Vec<T>>)
        ensures
            r@.len() == self.spec_len(),
            forall|i: int| 0 <= i < r@.len() ==> (#[trigger] r@[i])@ == self.spec_row(i),
    {
        let mut n = self.x.len();
        if self.y1.len() < n {
            n = self.y1.len();
        }
        if self.y2.len() < n {
            n = self.y2.len();
        }
        let mut rows: Vec<Vec<T>> = Vec::new();
        let mut i: usize = 0;
        while i < n
            invariant
                n == self.spec_len(),
                i <= n,
                rows@.len() == i,
                forall|k: int| 0 <= k < i ==> (#[trigger] rows@[k])@ == self.spec_row(k),
            decreases n - i,
        {
            let row = vec![self.x[i], self.y1[i], self.y2[i]];
            assert(row@ =~= self.spec_row(i as int));
            rows.push(row);
            i += 1;
        }
        rows
    }
}

impl<T: Copy> Figure<T> {
    /// Adds a filled curve plot, measured against the axes that the properties select
    pub fn plot_filled_curve(&mut self, fc: FilledCurve<T>, properties: &Properties) -> (r: &mut Figure<T>)
        ensures
            *final(self) == *final(r),
            r.plots@.len() == old(self).plots@.len() + 1,
            forall|i: int| 0 <= i < old(self).plots@.len() ==> r.plots@[i] == old(self).plots@[i],
            r.plots@.last().script@ == properties.script_text(),
            r.plots@.last().data.scales@ == seq![
                properties.spec_effective_axes().spec_x_axis(),
                properties.spec_effective_axes().spec_y_axis(),
                properties.spec_effective_axes().spec_y_axis(),
            ],
            r.plots@.last().data.rows@.len() == fc.spec_len(),
            forall|i: int| 0 <= i < fc.spec_len() ==> (#[trigger] r.plots@.last().data.rows@[i])@ == fc.spec_row(i),
    {
        let axes = properties.effective_axes();
        let x = axes.x_axis();
        let y = axes.y_axis();
        let rows = fc.rows();
        let scales = vec![x, y, y];
        let plot = Plot { data: Matrix { rows, scales }, script: properties.script() };
        self.plots.push(plot);
        self
    }
}

/// Once an opacity `o` between zero and one is set, the fragment holds the directive
/// `solid <o> `, where `<o>` is the opacity as written.
pub proof fn lemma_opacity_directive(p: Properties, o: Decimal)
    requires
        o.spec_in_unit_interval(),
    ensures
        contains((Properties { opacity: Some(o), ..p }).script_text(), "solid "@ + o.text() + " "@),
{
    let q = Properties { opacity: Some(o), ..p };
    let head = axes_directive(q.axes) + "with filledcurves "@ + "fillstyle "@;
    let d = "solid "@ + o.text() + " "@;
    let s = q.script_text();
    assert(s == head + d + "noborder "@ + color_directive(q.color) + title_directive(q.label));
    assert(s.subrange(head.len() as int, (head.len() + d.len()) as int) =~= d);
}

/// Rendering is a function of the properties alone: equal properties render to equal text.
pub proof fn lemma_script_deterministic(a: Properties, b: Properties)
    requires
        a == b,
    ensures
        a.script_text() == b.script_text(),
{
}

} // verus!
