//! Colors, line types and axis selectors, each with the text the renderer expects

use vstd::prelude::*;
use crate::text::{hex_byte, push_char, push_hex_byte};

verus! {

/// Color
#[derive(Clone, Copy, Debug, PartialEq, Eq, Structural)]
pub enum Color {
    Black,
    Blue,
    Cyan,
    DarkViolet,
    ForestGreen,
    Gold,
    Gray,
    Green,
    Magenta,
    Red,
    /// Custom RGB color
    Rgb(u8, u8, u8),
    White,
    Yellow,
}

impl Color {
    pub open spec fn text(self) -> Seq<char> {
        match self {
            Color::Black => "black"@,
            Color::Blue => "blue"@,
            Color::Cyan => "cyan"@,
            Color::DarkViolet => "dark-violet"@,
            Color::ForestGreen => "forest-green"@,
            Color::Gold => "gold"@,
            Color::Gray => "gray"@,
            Color::Green => "web-green"@,
            Color::Magenta => "magenta"@,
            Color::Red => "red"@,
            Color::Rgb(r, g, b) => seq!['#'] + hex_byte(r) + hex_byte(g) + hex_byte(b),
            Color::White => "white"@,
            Color::Yellow => "yellow"@,
        }
    }

    /// The color's name, or `#rrggbb` for a custom color
    pub fn display(&self) -> (r: String)
        ensures
            r@ == self.text(),
    {
        let name = match self {
            Color::Black => "black",
            Color::Blue => "blue",
            Color::Cyan => "cyan",
            Color::DarkViolet => "dark-violet",
            Color::ForestGreen => "forest-green",
            Color::Gold => "gold",
            Color::Gray => "gray",
            Color::Green => "web-green",
            Color::Magenta => "magenta",
            Color::Red => "red",
            Color::Rgb(r, g, b) => {
                let mut s = String::new();
                push_char(&mut s, '#');
                push_hex_byte(&mut s, *r);
                push_hex_byte(&mut s, *g);
                push_hex_byte(&mut s, *b);
                assert(s@ =~= self.text());
                return s;
            },
            Color::White => "white",
            Color::Yellow => "yellow",
        };
        String::from_str(name)
    }
}

/// Line type
#[derive(Clone, Copy, Debug, PartialEq, Eq, Structural)]
pub enum LineType {
    Dash,
    Dot,
    DotDash,
    DotDotDash,
    /// Line made of minimally sized dots
    SmallDot,
    Solid,
}

impl LineType {
    pub open spec fn text(self) -> Seq<char> {
        match self {
            LineType::Dash => "2"@,
            LineType::Dot => "3"@,
            LineType::DotDash => "4"@,
            LineType::DotDotDash => "5"@,
            LineType::SmallDot => "0"@,
            LineType::Solid => "1"@,
        }
    }

    /// The renderer's number for this line type
    pub fn display(&self) -> (r: &'static str)
        ensures
            r@ == self.text(),
    {
        match self {
            LineType::Dash => "2",
            LineType::Dot => "3",
            LineType::DotDash => "4",
            LineType::DotDotDash => "5",
            LineType::SmallDot => "0",
            LineType::Solid => "1",
        }
    }
}

/// One of the four axes of a figure
#[derive(Clone, Copy, Debug, PartialEq, Eq, Structural)]
pub enum Axis {
    /// X axis on the bottom side of the figure
    BottomX,
    /// Y axis on the left side of the figure
    LeftY,
    /// Y axis on the right side of the figure
    RightY,
    /// X axis on the top side of the figure
    TopX,
}

/// A pair of axes that a plot is measured against
#[derive(Clone, Copy, Debug, PartialEq, Eq, Structural)]
pub enum Axes {
    BottomXLeftY,
    BottomXRightY,
    TopXLeftY,
    TopXRightY,
}

impl Axes {
    pub open spec fn text(self) -> Seq<char> {
        match self {
            Axes::BottomXLeftY => "x1y1"@,
            Axes::BottomXRightY => "x1y2"@,
            Axes::TopXLeftY => "x2y1"@,
            Axes::TopXRightY => "x2y2"@,
        }
    }

    pub open spec fn spec_x_axis(self) -> Axis {
        match self {
            Axes::BottomXLeftY | Axes::BottomXRightY => Axis::BottomX,
            Axes::TopXLeftY | Axes::TopXRightY => Axis::TopX,
        }
    }

    pub open spec fn spec_y_axis(self) -> Axis {
        match self {
            Axes::BottomXLeftY | Axes::TopXLeftY => Axis::LeftY,
            Axes::BottomXRightY | Axes::TopXRightY => Axis::RightY,
        }
    }

    /// The renderer's name for this pair of axes
    pub fn display(&self) -> (r: &'static str)
        ensures
            r@ == self.text(),
    {
        match self {
            Axes::BottomXLeftY => "x1y1",
            Axes::BottomXRightY => "x1y2",
            Axes::TopXLeftY => "x2y1",
            Axes::TopXRightY => "x2y2",
        }
    }

    /// The axis that horizontal values are measured against
    pub fn x_axis(&self) -> (r: Axis)
        ensures
            r == self.spec_x_axis(),
    {
        match self {
            Axes::BottomXLeftY | Axes::BottomXRightY => Axis::BottomX,
            Axes::TopXLeftY | Axes::TopXRightY => Axis::TopX,
        }
    }

    /// The axis that vertical values are measured against
    pub fn y_axis(&self) -> (r: Axis)
        ensures
            r == self.spec_y_axis(),
    {
        match self {
            Axes::BottomXLeftY | Axes::TopXLeftY => Axis::LeftY,
            Axes::BottomXRightY | Axes::TopXRightY => Axis::RightY,
        }
    }
}

/// The line color directive, empty when no color is set
pub open spec fn color_directive(c: Option<Color>) -> Seq<char> {
    match c {
        None => Seq::empty(),
        Some(c) => "lc rgb '"@ + c.text() + "' "@,
    }
}

/// The legend directive: the quoted label, or `notitle` when there is none
pub open spec fn title_directive(label: Option<String>) -> Seq<char> {
    match label {
        None => "notitle"@,
        Some(l) => "title '"@ + l@ + "'"@,
    }
}

pub(crate) fn append_color(script: &mut String, c: Option<Color>)
    ensures
        final(script)@ == old(script)@ + color_directive(c),
{
    if let Some(c) = c {
        script.append("lc rgb '");
        let name = c.display();
        script.append(name.as_str());
        script.append("' ");
    }
}

pub(crate) fn append_title(script: &mut String, label: &Option<String>)
    ensures
        final(script)@ == old(script)@ + title_directive(*label),
{
    match label {
        Some(l) => {
            script.append("title '");
            script.append(l.as_str());
            script.append("'");
        },
        None => {
            script.append("notitle");
        },
    }
}

} // verus!
