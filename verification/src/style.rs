//! The style of a chart: the sizes, fonts and colours that its panels share.

use vstd::prelude::*;

verus! {

/// The margin round a panel, in pixels; the left margin is the panel's own.
pub const MARGIN: u32 = 10;

/// The height of the area of the X-axis labels, and the width of that of the
/// Y-axis labels.
pub const LABEL_AREA: u32 = 30;

/// The size of the caption's font.
pub const CAPTION_FONT_SIZE: u32 = 50;

/// The size of the font of the axis labels.
pub const LABEL_FONT_SIZE: u32 = 10;

/// The rotation of the X-axis labels, in degrees.
pub const X_LABEL_ROTATION: u32 = 270;

/// The radius of the marker, in pixels.
pub const MARKER_RADIUS: u32 = 5;

/// The opacity of the legend's background, in percent.
pub const LEGEND_BACKGROUND_OPACITY: u32 = 80;

/// The font family of captions and labels.
pub const FONT_FAMILY: &'static str = "sans-serif";

/// The colours of a chart.
#[derive(Clone, Copy, Debug, PartialEq, Eq, Structural)]
pub enum Color {
    Red,
    Blue,
    White,
    Black,
}

/// The colour of the line of a panel.
pub const LINE_COLOR: Color = Color::Red;

/// The colour of the marker of a panel.
pub const MARKER_COLOR: Color = Color::Blue;

/// The colour of the legend's background.
pub const LEGEND_BACKGROUND: Color = Color::White;

/// The colour of the legend's border.
pub const LEGEND_BORDER: Color = Color::Black;

/// What the two panels have in common: sizes in pixels, fonts and colours.
#[derive(Clone, Copy, Debug, PartialEq, Eq, Structural)]
pub struct Style {
    /// The margin above, below and to the right of a panel.
    pub margin: u32,
    /// The size of the caption's font.
    pub caption_font_size: u32,
    /// The height of the area of the X-axis labels.
    pub x_label_area: u32,
    /// The width of the area of the Y-axis labels.
    pub y_label_area: u32,
    /// The size of the font of the axis labels.
    pub label_font_size: u32,
    /// The rotation of the X-axis labels, in degrees: timestamps are long.
    pub x_label_rotation: u32,
    pub line_color: Color,
    pub marker_color: Color,
    /// The radius of the marker, a filled circle.
    pub marker_radius: u32,
    pub legend_background: Color,
    /// The opacity of the legend's background, in percent.
    pub legend_background_opacity: u32,
    pub legend_border: Color,
}

/// The style of a chart: margins of 10 pixels, label areas of 30, a caption of size
/// 50, axis labels of size 10 with those of the X-axis rotated by 270 degrees, a red
/// line, a blue marker of radius 5, and a legend on white at 80 percent opacity
/// within a black border.
pub open spec fn standard_style() -> Style {
    Style {
        margin: MARGIN,
        caption_font_size: CAPTION_FONT_SIZE,
        x_label_area: LABEL_AREA,
        y_label_area: LABEL_AREA,
        label_font_size: LABEL_FONT_SIZE,
        x_label_rotation: X_LABEL_ROTATION,
        line_color: LINE_COLOR,
        marker_color: MARKER_COLOR,
        marker_radius: MARKER_RADIUS,
        legend_background: LEGEND_BACKGROUND,
        legend_background_opacity: LEGEND_BACKGROUND_OPACITY,
        legend_border: LEGEND_BORDER,
    }
}

impl Style {
    /// The style of a chart.
    pub fn standard() -> (r: Style)
        ensures
            r == standard_style(),
    {
        Style {
            margin: MARGIN,
            caption_font_size: CAPTION_FONT_SIZE,
            x_label_area: LABEL_AREA,
            y_label_area: LABEL_AREA,
            label_font_size: LABEL_FONT_SIZE,
            x_label_rotation: X_LABEL_ROTATION,
            line_color: LINE_COLOR,
            marker_color: MARKER_COLOR,
            marker_radius: MARKER_RADIUS,
            legend_background: LEGEND_BACKGROUND,
            legend_background_opacity: LEGEND_BACKGROUND_OPACITY,
            legend_border: LEGEND_BORDER,
        }
    }
}

} // verus!
