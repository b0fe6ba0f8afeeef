//! Rendering options of the terminal dashboard.

use vstd::prelude::*;

verus! {

/// Marker style for drawing traces on the history plot.
#[derive(Clone, Copy, Debug, PartialEq, Eq, Structural)]
pub enum MarkerStyle {
    /// Individual Braille dots — one glyph per sample (sparse).
    Dots,
    /// Braille line segments connecting consecutive samples.
    Line,
}

/// Rendering options shared across summary, history, and main render paths.
#[derive(Clone, Copy, Debug, PartialEq, Eq, Structural)]
pub struct Options {
    /// Trace marker style for history charts.
    pub marker_style: MarkerStyle,
    /// Draw faint gridlines at 25 / 50 / 75 % in history charts.
    pub show_grid: bool,
    /// Show the 60-second heading trail in the wind compass (parsed and kept,
    /// though the image compass draws no trail).
    pub gust_trail: bool,
    /// Draw the gradient area fill under history traces.
    pub fill: bool,
}

impl Options {
    /// Test fixture defaults: dots, grid on, trail on, fill on (so the fill
    /// path stays exercised).
    pub fn default_for_test() -> (o: Self)
        ensures
            o == (Options { marker_style: MarkerStyle::Dots, show_grid: true, gust_trail: true, fill: true }),
    {
        Options { marker_style: MarkerStyle::Dots, show_grid: true, gust_trail: true, fill: true }
    }
}

} // verus!
