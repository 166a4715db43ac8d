//! The style values that layout and painting read: spacings, strokes and
//! colours, as resolved for the current theme.

use vstd::prelude::*;
use crate::color::Color32;
use crate::geom::Vec2;
use crate::shape::Stroke;

verus! {

/// Distances between and inside widgets, in layout units.
#[derive(Clone, Copy, Debug, PartialEq, Eq, Structural)]
pub struct Spacing {
    /// The gap left between neighbouring widgets.
    pub item_spacing: Vec2,
    /// The least size of a widget that can be clicked.
    pub interact_size: Vec2,
}

/// Thresholds for pointer interaction.
#[derive(Clone, Copy, Debug, PartialEq, Eq, Structural)]
pub struct Interaction {
    /// How far from a panel's edge the pointer may be and still grab it.
    pub resize_grab_radius_side: i32,
}

/// How one state of a widget looks.
#[derive(Clone, Copy, Debug, PartialEq, Eq, Structural)]
pub struct WidgetVisuals {
    pub bg_fill: Color32,
    pub bg_stroke: Stroke,
    pub fg_stroke: Stroke,
}

/// The looks of a widget by interaction state.
#[derive(Clone, Copy, Debug, PartialEq, Eq, Structural)]
pub struct Widgets {
    pub noninteractive: WidgetVisuals,
    pub hovered: WidgetVisuals,
    pub active: WidgetVisuals,
}

/// How selected items look.
#[derive(Clone, Copy, Debug, PartialEq, Eq, Structural)]
pub struct Selection {
    pub bg_fill: Color32,
    pub stroke: Stroke,
}

/// Colours and strokes.
#[derive(Clone, Copy, Debug, PartialEq, Eq, Structural)]
pub struct Visuals {
    pub widgets: Widgets,
    pub selection: Selection,
    /// The background of every other row of a striped table.
    pub faint_bg_color: Color32,
    /// The background of panels.
    pub panel_fill: Color32,
    /// The colour of error messages.
    pub error_fg_color: Color32,
    /// How far outside a region its clip rectangle reaches.
    pub clip_rect_margin: i32,
    /// If set, text is painted in this colour whatever its own.
    pub override_text_color: Option<Color32>,
}

/// What text does when it is wider than its region.
#[derive(Clone, Copy, Debug, PartialEq, Eq, Structural)]
pub enum TextWrapMode {
    Extend,
    Wrap,
    Truncate,
}

/// All style values of a region.
#[derive(Clone, Copy, Debug, PartialEq, Eq, Structural)]
pub struct Style {
    pub spacing: Spacing,
    pub interaction: Interaction,
    pub visuals: Visuals,
    /// If set, it overrides how text wraps in this region.
    pub wrap_mode: Option<TextWrapMode>,
}

impl Style {
    /// A dark theme with the usual spacings: 8 by 3 points between items, a
    /// grab radius of 5 points, a clip margin of 3 points.
    pub open spec fn spec_dark() -> Style {
        Style {
            spacing: Spacing {
                item_spacing: Vec2 { x: 512, y: 192 },
                interact_size: Vec2 { x: 2560, y: 1152 },
            },
            interaction: Interaction { resize_grab_radius_side: 320 },
            visuals: Visuals {
                widgets: Widgets {
                    noninteractive: WidgetVisuals {
                        bg_fill: Color32 { r: 27, g: 27, b: 27, a: 255 },
                        bg_stroke: Stroke { width: 64, color: Color32 { r: 60, g: 60, b: 60, a: 255 } },
                        fg_stroke: Stroke { width: 64, color: Color32 { r: 140, g: 140, b: 140, a: 255 } },
                    },
                    hovered: WidgetVisuals {
                        bg_fill: Color32 { r: 70, g: 70, b: 70, a: 255 },
                        bg_stroke: Stroke { width: 64, color: Color32 { r: 150, g: 150, b: 150, a: 255 } },
                        fg_stroke: Stroke { width: 96, color: Color32 { r: 240, g: 240, b: 240, a: 255 } },
                    },
                    active: WidgetVisuals {
                        bg_fill: Color32 { r: 55, g: 55, b: 55, a: 255 },
                        bg_stroke: Stroke { width: 64, color: Color32 { r: 255, g: 255, b: 255, a: 255 } },
                        fg_stroke: Stroke { width: 128, color: Color32 { r: 255, g: 255, b: 255, a: 255 } },
                    },
                },
                selection: Selection {
                    bg_fill: Color32 { r: 0, g: 92, b: 128, a: 255 },
                    stroke: Stroke { width: 64, color: Color32 { r: 192, g: 222, b: 255, a: 255 } },
                },
                faint_bg_color: Color32 { r: 5, g: 5, b: 5, a: 0 },
                panel_fill: Color32 { r: 27, g: 27, b: 27, a: 255 },
                error_fg_color: Color32 { r: 255, g: 0, b: 0, a: 255 },
                clip_rect_margin: 192,
                override_text_color: None,
            },
            wrap_mode: None,
        }
    }

    /// A dark theme with the usual spacings: 8 by 3 points between items, a
    /// grab radius of 5 points, a clip margin of 3 points.
    #[verifier::when_used_as_spec(spec_dark)]
    pub fn dark() -> (s: Style)
        ensures
            s == Style::spec_dark(),
    {
        Style {
            spacing: Spacing {
                item_spacing: Vec2 { x: 512, y: 192 },
                interact_size: Vec2 { x: 2560, y: 1152 },
            },
            interaction: Interaction { resize_grab_radius_side: 320 },
            visuals: Visuals {
                widgets: Widgets {
                    noninteractive: WidgetVisuals {
                        bg_fill: Color32 { r: 27, g: 27, b: 27, a: 255 },
                        bg_stroke: Stroke { width: 64, color: Color32 { r: 60, g: 60, b: 60, a: 255 } },
                        fg_stroke: Stroke { width: 64, color: Color32 { r: 140, g: 140, b: 140, a: 255 } },
                    },
                    hovered: WidgetVisuals {
                        bg_fill: Color32 { r: 70, g: 70, b: 70, a: 255 },
                        bg_stroke: Stroke { width: 64, color: Color32 { r: 150, g: 150, b: 150, a: 255 } },
                        fg_stroke: Stroke { width: 96, color: Color32 { r: 240, g: 240, b: 240, a: 255 } },
                    },
                    active: WidgetVisuals {
                        bg_fill: Color32 { r: 55, g: 55, b: 55, a: 255 },
                        bg_stroke: Stroke { width: 64, color: Color32 { r: 255, g: 255, b: 255, a: 255 } },
                        fg_stroke: Stroke { width: 128, color: Color32 { r: 255, g: 255, b: 255, a: 255 } },
                    },
                },
                selection: Selection {
                    bg_fill: Color32 { r: 0, g: 92, b: 128, a: 255 },
                    stroke: Stroke { width: 64, color: Color32 { r: 192, g: 222, b: 255, a: 255 } },
                },
                faint_bg_color: Color32 { r: 5, g: 5, b: 5, a: 0 },
                panel_fill: Color32 { r: 27, g: 27, b: 27, a: 255 },
                error_fg_color: Color32 { r: 255, g: 0, b: 0, a: 255 },
                clip_rect_margin: 192,
                override_text_color: None,
            },
            wrap_mode: None,
        }
    }
}

} // verus!
