//! A figure: the plots drawn so far, each a data table with its script fragment

use vstd::prelude::*;
use crate::style::Axis;

verus! {

/// The smaller of two integers
pub open spec fn min(a: int, b: int) -> int {
    if a <= b {
        a
    } else {
        b
    }
}

/// A row-oriented data table; each column is scaled by the factor of one axis
pub struct Matrix<T> {
    /// The rows, each with one value per column
    pub rows: Vec<Vec<T>>,
    /// For each column, the axis whose scale factor applies to it
    pub scales: Vec<Axis>,
}

/// One plot element: its data and the script fragment that draws it
pub struct Plot<T> {
    pub data: Matrix<T>,
    pub script: String,
}

/// The plots of a figure, in the order they were added
pub struct Figure<T> {
    pub plots: Vec<Plot<T>>,
}

impl<T> Figure<T> {
    /// A figure with no plot
    pub fn new() -> (r: Figure<T>)
        ensures
            r.plots@.len() == 0,
    {
        Figure { plots: Vec::new() }
    }
}

} // verus!
