//! Builders that turn plot descriptions into script text for a gnuplot-style renderer.

pub mod key;
pub mod text;
pub mod style;
pub mod number;
pub mod figure;
pub mod candlestick;
pub mod filledcurve;
