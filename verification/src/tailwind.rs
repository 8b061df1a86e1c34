//! The style record produced by the utility-class resolver.
//!
//! Every field has a well-defined default, so an empty class string yields a
//! fully valid style. A [`Style`] is immutable once produced: the resolver
//! builds a fresh record for each class string.

use vstd::prelude::*;

verus! {

/// Whether a node is rendered at all.
#[derive(Clone, Copy, Debug, PartialEq, Eq, Structural)]
pub enum Visibility {
    Visible,
    Hidden,
}

/// Positioning mode of a node.
#[derive(Clone, Copy, Debug, PartialEq, Eq, Structural)]
pub enum PositionMode {
    Relative,
    Absolute,
}

/// Display mode of a node. `NoDisplay` removes the node from layout
/// (the `hidden` class token).
#[derive(Clone, Copy, Debug, PartialEq, Eq, Structural)]
pub enum DisplayMode {
    Block,
    Flex,
    Grid,
    NoDisplay,
}

/// Main axis direction of a flex container.
#[derive(Clone, Copy, Debug, PartialEq, Eq, Structural)]
pub enum FlexDirection {
    Row,
    Column,
    RowReverse,
    ColumnReverse,
}

/// Main-axis distribution of a container's content.
#[derive(Clone, Copy, Debug, PartialEq, Eq, Structural)]
pub enum JustifyContent {
    Default,
    FlexStart,
    Center,
    FlexEnd,
    SpaceBetween,
    SpaceAround,
    SpaceEvenly,
    Stretch,
}

/// Inline-axis alignment of items within their grid areas.
#[derive(Clone, Copy, Debug, PartialEq, Eq, Structural)]
pub enum JustifyItems {
    Default,
    Start,
    End,
    Center,
    Stretch,
    Baseline,
}

/// Inline-axis alignment of a node within its own grid area.
#[derive(Clone, Copy, Debug, PartialEq, Eq, Structural)]
pub enum JustifySelf {
    Auto,
    Start,
    End,
    Center,
    Stretch,
}

/// Cross-axis distribution of a container's content.
#[derive(Clone, Copy, Debug, PartialEq, Eq, Structural)]
pub enum AlignContent {
    Default,
    Center,
    FlexStart,
    FlexEnd,
    SpaceBetween,
    SpaceAround,
    SpaceEvenly,
    Stretch,
}

/// Cross-axis alignment of a container's items.
#[derive(Clone, Copy, Debug, PartialEq, Eq, Structural)]
pub enum AlignItems {
    Default,
    FlexStart,
    FlexEnd,
    Center,
    Stretch,
    Baseline,
}

/// Cross-axis alignment of a node within its container.
#[derive(Clone, Copy, Debug, PartialEq, Eq, Structural)]
pub enum AlignSelf {
    Auto,
    FlexStart,
    FlexEnd,
    Center,
    Stretch,
    Baseline,
}

/// A length value: automatic, a percentage, or a pixel length.
#[derive(Clone, Copy, Debug, PartialEq, Eq, Structural)]
pub enum Val {
    Auto,
    Px(u64),
    Percent(u64),
}

/// An RGBA color with 8-bit channels.
#[derive(Clone, Copy, Debug, PartialEq, Eq, Structural)]
pub struct Rgba {
    pub r: u8,
    pub g: u8,
    pub b: u8,
    pub a: u8,
}

impl Rgba {
    /// Fully transparent black, the default border and background color.
    pub fn transparent() -> (c: Rgba)
        ensures
            c == (Rgba { r: 0, g: 0, b: 0, a: 0 }),
    {
        Rgba { r: 0, g: 0, b: 0, a: 0 }
    }

    /// Opaque black, the default text color.
    pub fn black() -> (c: Rgba)
        ensures
            c == (Rgba { r: 0, g: 0, b: 0, a: 255 }),
    {
        Rgba { r: 0, g: 0, b: 0, a: 255 }
    }

    /// Opaque white.
    pub fn white() -> (c: Rgba)
        ensures
            c == (Rgba { r: 255, g: 255, b: 255, a: 255 }),
    {
        Rgba { r: 255, g: 255, b: 255, a: 255 }
    }
}

/// Per-edge lengths for border, padding and margin.
#[derive(Clone, Copy, Debug, PartialEq, Eq, Structural)]
pub struct EdgeRect {
    pub left: Val,
    pub right: Val,
    pub top: Val,
    pub bottom: Val,
}

impl EdgeRect {
    /// All four edges set to the same value.
    pub fn all(v: Val) -> (r: EdgeRect)
        ensures
            r == (EdgeRect { left: v, right: v, top: v, bottom: v }),
    {
        EdgeRect { left: v, right: v, top: v, bottom: v }
    }

    /// All four edges zero pixels, the default for border, padding, margin.
    pub fn zero() -> (r: EdgeRect)
        ensures
            r == EdgeRect::zero_spec(),
    {
        EdgeRect {
            left: Val::Px(0),
            right: Val::Px(0),
            top: Val::Px(0),
            bottom: Val::Px(0),
        }
    }

    /// The default rectangle: every edge zero pixels.
    pub open spec fn zero_spec() -> EdgeRect {
        EdgeRect { left: Val::Px(0), right: Val::Px(0), top: Val::Px(0), bottom: Val::Px(0) }
    }
}

/// One column track of a grid template: automatic, a fractional weight, or
/// a fixed pixel width.
#[derive(Clone, Copy, Debug, PartialEq, Eq, Structural)]
pub enum GridTrack {
    Auto,
    Fr(u16),
    Px(u16),
}

/// A fully resolved style record: one independent field per visual or
/// layout property.
#[derive(Clone, Debug, PartialEq)]
pub struct Style {
    pub visibility: Visibility,
    pub position: PositionMode,
    pub display: DisplayMode,
    pub flex_direction: FlexDirection,
    pub justify_content: JustifyContent,
    pub justify_items: JustifyItems,
    pub justify_self: JustifySelf,
    pub align_content: AlignContent,
    pub align_items: AlignItems,
    pub align_self: AlignSelf,
    pub width: Val,
    pub min_width: Val,
    pub max_width: Val,
    pub height: Val,
    pub min_height: Val,
    pub max_height: Val,
    pub border_color: Rgba,
    pub border: EdgeRect,
    pub background_color: Rgba,
    pub padding: EdgeRect,
    pub margin: EdgeRect,
    pub text_color: Rgba,
    pub z_index: i32,
    pub grid_template_columns: Vec<GridTrack>,
}

/// The mathematical model of a [`Style`]: the same fields, with the grid
/// track list as a sequence.
pub ghost struct StyleV {
    pub visibility: Visibility,
    pub position: PositionMode,
    pub display: DisplayMode,
    pub flex_direction: FlexDirection,
    pub justify_content: JustifyContent,
    pub justify_items: JustifyItems,
    pub justify_self: JustifySelf,
    pub align_content: AlignContent,
    pub align_items: AlignItems,
    pub align_self: AlignSelf,
    pub width: Val,
    pub min_width: Val,
    pub max_width: Val,
    pub height: Val,
    pub min_height: Val,
    pub max_height: Val,
    pub border_color: Rgba,
    pub border: EdgeRect,
    pub background_color: Rgba,
    pub padding: EdgeRect,
    pub margin: EdgeRect,
    pub text_color: Rgba,
    pub z_index: i32,
    pub grid_template_columns: Seq<GridTrack>,
}

impl View for Style {
    type V = StyleV;

    open spec fn view(&self) -> StyleV {
        StyleV {
            visibility: self.visibility,
            position: self.position,
            display: self.display,
            flex_direction: self.flex_direction,
            justify_content: self.justify_content,
            justify_items: self.justify_items,
            justify_self: self.justify_self,
            align_content: self.align_content,
            align_items: self.align_items,
            align_self: self.align_self,
            width: self.width,
            min_width: self.min_width,
            max_width: self.max_width,
            height: self.height,
            min_height: self.min_height,
            max_height: self.max_height,
            border_color: self.border_color,
            border: self.border,
            background_color: self.background_color,
            padding: self.padding,
            margin: self.margin,
            text_color: self.text_color,
            z_index: self.z_index,
            grid_template_columns: self.grid_template_columns@,
        }
    }
}

/// The default style: the render-safe record an empty class string yields.
pub open spec fn default_style() -> StyleV {
    StyleV {
        visibility: Visibility::Visible,
        position: PositionMode::Relative,
        display: DisplayMode::Block,
        flex_direction: FlexDirection::Row,
        justify_content: JustifyContent::Default,
        justify_items: JustifyItems::Default,
        justify_self: JustifySelf::Auto,
        align_content: AlignContent::Default,
        align_items: AlignItems::Default,
        align_self: AlignSelf::Auto,
        width: Val::Auto,
        min_width: Val::Auto,
        max_width: Val::Auto,
        height: Val::Auto,
        min_height: Val::Auto,
        max_height: Val::Auto,
        border_color: Rgba { r: 0, g: 0, b: 0, a: 0 },
        border: EdgeRect::zero_spec(),
        background_color: Rgba { r: 0, g: 0, b: 0, a: 0 },
        padding: EdgeRect::zero_spec(),
        margin: EdgeRect::zero_spec(),
        text_color: Rgba { r: 0, g: 0, b: 0, a: 255 },
        z_index: 0,
        grid_template_columns: Seq::empty(),
    }
}

impl Default for Style {
    /// Every field takes its documented default.
    fn default() -> (s: Style)
        ensures
            s@ == default_style(),
    {
        let s = Style {
            visibility: Visibility::Visible,
            position: PositionMode::Relative,
            display: DisplayMode::Block,
            flex_direction: FlexDirection::Row,
            justify_content: JustifyContent::Default,
            justify_items: JustifyItems::Default,
            justify_self: JustifySelf::Auto,
            align_content: AlignContent::Default,
            align_items: AlignItems::Default,
            align_self: AlignSelf::Auto,
            width: Val::Auto,
            min_width: Val::Auto,
            max_width: Val::Auto,
            height: Val::Auto,
            min_height: Val::Auto,
            max_height: Val::Auto,
            border_color: Rgba::transparent(),
            border: EdgeRect::zero(),
            background_color: Rgba::transparent(),
            padding: EdgeRect::zero(),
            margin: EdgeRect::zero(),
            text_color: Rgba::black(),
            z_index: 0,
            grid_template_columns: Vec::new(),
        };
        proof {
            assert(s@.grid_template_columns =~= Seq::<GridTrack>::empty());
        }
        s
    }
}

} // verus!
