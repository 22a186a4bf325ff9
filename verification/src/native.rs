use vstd::prelude::*;

use crate::geo::{Point, Size};
use crate::window::{Location, TitleStyle, VibrancyConfig, VibrancyUpdate};

verus! {

/// The configuration of one visual-effect view as the native window takes it:
/// a size in points, or `-1` for "no effect view on this edge".
#[derive(Clone, Copy, Debug, PartialEq, Eq, Structural)]
pub struct VisualEffectViewConfig {
    pub size: i32,
}

/// The signed 32-bit value that a `u32` has when its bits are read as an `i32`.
pub open spec fn u32_bits_as_i32(v: u32) -> int {
    if v <= 0x7fff_ffff {
        v as int
    } else {
        v - 0x1_0000_0000
    }
}

/// What the native side is given for one edge of a vibrancy update.
pub open spec fn effect_view_config_spec(config: Option<VibrancyConfig>) -> VisualEffectViewConfig {
    match config {
        None => VisualEffectViewConfig { size: -1i32 },
        Some(c) => VisualEffectViewConfig { size: u32_bits_as_i32(c.size) as i32 },
    }
}

/// Converts the optional configuration of one edge into the native form:
/// no configuration becomes size `-1`; a size is passed on with its bits read
/// as a signed 32-bit integer.
pub fn effect_view_config(config: Option<VibrancyConfig>) -> (r: VisualEffectViewConfig)
    ensures
        r == effect_view_config_spec(config),
        config is None ==> r.size == -1,
        (config matches Some(c) && c.size <= 0x7fff_ffff) ==> r.size == config.unwrap().size,
        (config matches Some(c) && c.size > 0x7fff_ffff) ==> r.size == config.unwrap().size
            - 0x1_0000_0000,
{
    match config {
        None => VisualEffectViewConfig { size: -1 },
        Some(c) => {
            let v: u32 = c.size;
            let s: i32 = v as i32;
            assert(v <= 0x7fff_ffff ==> s as int == v as int) by (bit_vector)
                requires s == v as i32;
            assert(v > 0x7fff_ffff ==> s as int == v as int - 0x1_0000_0000) by (bit_vector)
                requires s == v as i32;
            VisualEffectViewConfig { size: s }
        },
    }
}

/// The four edge configurations of a vibrancy update, in the order top, left,
/// bottom, right.
#[derive(Clone, Copy, Debug, PartialEq, Eq, Structural)]
pub struct VibrancyCommand {
    pub top: VisualEffectViewConfig,
    pub left: VisualEffectViewConfig,
    pub bottom: VisualEffectViewConfig,
    pub right: VisualEffectViewConfig,
}

pub open spec fn vibrancy_command_spec(update: VibrancyUpdate) -> VibrancyCommand {
    VibrancyCommand {
        top: effect_view_config_spec(update.top),
        left: effect_view_config_spec(update.left),
        bottom: effect_view_config_spec(update.bottom),
        right: effect_view_config_spec(update.right),
    }
}

/// Converts every edge of a vibrancy update.
pub fn vibrancy_command(update: VibrancyUpdate) -> (r: VibrancyCommand)
    ensures
        r == vibrancy_command_spec(update),
        r.top.size == (match update.top {
            None => -1,
            Some(c) => u32_bits_as_i32(c.size),
        }),
        r.left.size == (match update.left {
            None => -1,
            Some(c) => u32_bits_as_i32(c.size),
        }),
        r.bottom.size == (match update.bottom {
            None => -1,
            Some(c) => u32_bits_as_i32(c.size),
        }),
        r.right.size == (match update.right {
            None => -1,
            Some(c) => u32_bits_as_i32(c.size),
        }),
{
    VibrancyCommand {
        top: effect_view_config(update.top),
        left: effect_view_config(update.left),
        bottom: effect_view_config(update.bottom),
        right: effect_view_config(update.right),
    }
}

/// What the native `setLocation:center:size:` call is given: an exact
/// position (or none), whether to center the window, and a size (or none).
#[derive(Clone, Copy, Debug, PartialEq, Eq, Structural)]
pub struct FrameRequest {
    pub position: Option<Point>,
    pub center: bool,
    pub size: Option<Size>,
}

pub open spec fn frame_request_spec(location: Option<Location>, size: Option<Size>) -> FrameRequest {
    FrameRequest {
        position: match location {
            Some(Location::Exact(p)) => Some(p),
            _ => None,
        },
        center: location == Some(Location::Center),
        size,
    }
}

/// Splits an optional location and an optional size into the arguments of
/// the native frame update.
pub fn frame_request(location: Option<Location>, size: Option<Size>) -> (r: FrameRequest)
    ensures
        r == frame_request_spec(location, size),
{
    let (position, center) = match location {
        None => (None, false),
        Some(Location::Center) => (None, true),
        Some(Location::Exact(p)) => (Some(p), false),
    };
    FrameRequest { position, center, size }
}

/// Where the traffic-light buttons go: at a customized position, or (when
/// `customized` is false) where the system puts them, with the origin passed.
#[derive(Clone, Copy, Debug, PartialEq, Eq, Structural)]
pub struct TrafficLightPlacement {
    pub customized: bool,
    pub position: Point,
}

/// The native calls that a title style stands for: whether the title bar is
/// visible, and, for a hidden title bar only, the traffic-light placement.
#[derive(Clone, Copy, Debug, PartialEq, Eq, Structural)]
pub struct TitleStyleCommand {
    pub title_bar_visible: bool,
    pub traffic_light_placement: Option<TrafficLightPlacement>,
}

pub open spec fn title_style_command_spec(style: TitleStyle) -> TitleStyleCommand {
    match style {
        TitleStyle::Visible => TitleStyleCommand {
            title_bar_visible: true,
            traffic_light_placement: None,
        },
        TitleStyle::Hidden { traffic_light_position } => TitleStyleCommand {
            title_bar_visible: false,
            traffic_light_placement: Some(
                match traffic_light_position {
                    None => TrafficLightPlacement { customized: false, position: Point { x: 0, y: 0 } },
                    Some(p) => TrafficLightPlacement { customized: true, position: p },
                },
            ),
        },
    }
}

/// Computes the native calls for a title style.
pub fn title_style_command(style: TitleStyle) -> (r: TitleStyleCommand)
    ensures
        r == title_style_command_spec(style),
{
    match style {
        TitleStyle::Visible => TitleStyleCommand {
            title_bar_visible: true,
            traffic_light_placement: None,
        },
        TitleStyle::Hidden { traffic_light_position } => {
            let placement = match traffic_light_position {
                None => TrafficLightPlacement { customized: false, position: Point { x: 0, y: 0 } },
                Some(p) => TrafficLightPlacement { customized: true, position: p },
            };
            TitleStyleCommand { title_bar_visible: false, traffic_light_placement: Some(placement) }
        },
    }
}

} // verus!

verus! {

/// Each edge of a vibrancy command comes from the same edge of the update:
/// an edge without a configuration gets `-1`, and an edge with one gets its
/// size (as a signed 32-bit value: sizes up to `i32::MAX` unchanged, larger
/// ones wrapped below zero).
pub proof fn lemma_vibrancy_edges(u: VibrancyUpdate)
    ensures
        u.top is None ==> vibrancy_command_spec(u).top.size == -1,
        u.left is None ==> vibrancy_command_spec(u).left.size == -1,
        u.bottom is None ==> vibrancy_command_spec(u).bottom.size == -1,
        u.right is None ==> vibrancy_command_spec(u).right.size == -1,
        (u.top matches Some(c) && c.size <= 0x7fff_ffff) ==> vibrancy_command_spec(u).top.size
            == u.top.unwrap().size,
        (u.left matches Some(c) && c.size <= 0x7fff_ffff) ==> vibrancy_command_spec(u).left.size
            == u.left.unwrap().size,
        (u.bottom matches Some(c) && c.size <= 0x7fff_ffff) ==> vibrancy_command_spec(
            u,
        ).bottom.size == u.bottom.unwrap().size,
        (u.right matches Some(c) && c.size <= 0x7fff_ffff) ==> vibrancy_command_spec(
            u,
        ).right.size == u.right.unwrap().size,
        (u.top matches Some(c) && c.size > 0x7fff_ffff) ==> vibrancy_command_spec(u).top.size
            == u.top.unwrap().size - 0x1_0000_0000,
        (u.left matches Some(c) && c.size > 0x7fff_ffff) ==> vibrancy_command_spec(u).left.size
            == u.left.unwrap().size - 0x1_0000_0000,
        (u.bottom matches Some(c) && c.size > 0x7fff_ffff) ==> vibrancy_command_spec(
            u,
        ).bottom.size == u.bottom.unwrap().size - 0x1_0000_0000,
        (u.right matches Some(c) && c.size > 0x7fff_ffff) ==> vibrancy_command_spec(
            u,
        ).right.size == u.right.unwrap().size - 0x1_0000_0000,
{
}

} // verus!
