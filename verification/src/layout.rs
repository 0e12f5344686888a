//! The rectangles that a layout hands to the engines that paint into them.
use vstd::prelude::*;
use vstd::std_specs::convert::FromSpecImpl;
use crate::style::Style;
use crate::units::{Position, Size};

verus! {

/// The name of a box of the layout.
#[derive(Clone, Copy, Debug, PartialEq, Eq, Hash, Structural)]
pub struct FlexBoxId(pub u8);

impl Default for FlexBoxId {
    fn default() -> (r: FlexBoxId)
        ensures
            r == FlexBoxId(0),
    {
        FlexBoxId(0)
    }
}

/// Along which axis a box lays out what it holds.
#[derive(Clone, Copy, Debug, PartialEq, Eq, Hash, Structural)]
pub enum Direction {
    Horizontal,
    Vertical,
}

/// The share of its parent that a box asks for, in percent.
#[derive(Clone, Copy, Debug, PartialEq, Eq, Hash, Structural)]
pub struct RequestedSizePercent {
    pub width_pc: u8,
    pub height_pc: u8,
}

/// A box of the layout: where it is, how large it is, and the same after its
/// style's padding was taken off.
#[derive(Clone, Copy, Debug, PartialEq, Eq)]
pub struct FlexBox {
    pub id: FlexBoxId,
    pub dir: Direction,
    pub origin_pos: Position,
    pub bounds_size: Size,
    pub style_adjusted_origin_pos: Position,
    pub style_adjusted_bounds_size: Size,
    pub requested_size_percent: RequestedSizePercent,
    pub insertion_pos_for_next_box: Option<Position>,
    pub maybe_computed_style: Option<Style>,
}

impl FlexBox {
    /// The box that every field of which is zero or absent.
    pub open spec fn spec_default() -> FlexBox {
        FlexBox {
            id: FlexBoxId(0),
            dir: Direction::Horizontal,
            origin_pos: Position { col_index: 0, row_index: 0 },
            bounds_size: Size { col_count: 0, row_count: 0 },
            style_adjusted_origin_pos: Position { col_index: 0, row_index: 0 },
            style_adjusted_bounds_size: Size { col_count: 0, row_count: 0 },
            requested_size_percent: RequestedSizePercent { width_pc: 0, height_pc: 0 },
            insertion_pos_for_next_box: None,
            maybe_computed_style: None,
        }
    }

    pub fn get_computed_style(&self) -> (r: Option<Style>)
        ensures
            r == self.maybe_computed_style,
    {
        self.maybe_computed_style
    }
}

impl Default for FlexBox {
    fn default() -> (r: FlexBox)
        ensures
            r == FlexBox::spec_default(),
    {
        FlexBox {
            id: FlexBoxId(0),
            dir: Direction::Horizontal,
            origin_pos: Position { col_index: 0, row_index: 0 },
            bounds_size: Size { col_count: 0, row_count: 0 },
            style_adjusted_origin_pos: Position { col_index: 0, row_index: 0 },
            style_adjusted_bounds_size: Size { col_count: 0, row_count: 0 },
            requested_size_percent: RequestedSizePercent { width_pc: 0, height_pc: 0 },
            insertion_pos_for_next_box: None,
            maybe_computed_style: None,
        }
    }
}

/// What the editor and dialog engines need of a box.
#[derive(Clone, Copy, Debug, PartialEq, Eq)]
pub struct PartialFlexBox {
    pub id: FlexBoxId,
    pub style_adjusted_origin_pos: Position,
    pub style_adjusted_bounds_size: Size,
    pub maybe_computed_style: Option<Style>,
}

impl PartialFlexBox {
    /// The part of `flex_box` that the engines need.
    pub open spec fn spec_of(flex_box: FlexBox) -> PartialFlexBox {
        PartialFlexBox {
            id: flex_box.id,
            style_adjusted_origin_pos: flex_box.style_adjusted_origin_pos,
            style_adjusted_bounds_size: flex_box.style_adjusted_bounds_size,
            maybe_computed_style: flex_box.maybe_computed_style,
        }
    }

    /// The box that has the fields of this one and is zero or absent in all
    /// others.
    pub open spec fn spec_to_flex_box(self) -> FlexBox {
        FlexBox {
            id: self.id,
            style_adjusted_origin_pos: self.style_adjusted_origin_pos,
            style_adjusted_bounds_size: self.style_adjusted_bounds_size,
            maybe_computed_style: self.maybe_computed_style,
            ..FlexBox::spec_default()
        }
    }

    pub fn get_computed_style(&self) -> (r: Option<Style>)
        ensures
            r == self.maybe_computed_style,
    {
        self.maybe_computed_style
    }

    pub fn get_style_adjusted_position_and_size(&self) -> (r: (Position, Size))
        ensures
            r == (self.style_adjusted_origin_pos, self.style_adjusted_bounds_size),
    {
        (self.style_adjusted_origin_pos, self.style_adjusted_bounds_size)
    }
}

impl Default for PartialFlexBox {
    fn default() -> (r: PartialFlexBox)
        ensures
            r == PartialFlexBox::spec_of(FlexBox::spec_default()),
    {
        PartialFlexBox {
            id: FlexBoxId(0),
            style_adjusted_origin_pos: Position { col_index: 0, row_index: 0 },
            style_adjusted_bounds_size: Size { col_count: 0, row_count: 0 },
            maybe_computed_style: None,
        }
    }
}

impl From<PartialFlexBox> for FlexBox {
    fn from(engine_box: PartialFlexBox) -> (r: FlexBox) {
        let mut flex_box = FlexBox::default();
        flex_box.id = engine_box.id;
        flex_box.style_adjusted_origin_pos = engine_box.style_adjusted_origin_pos;
        flex_box.style_adjusted_bounds_size = engine_box.style_adjusted_bounds_size;
        flex_box.maybe_computed_style = engine_box.get_computed_style();
        flex_box
    }
}

impl FromSpecImpl<PartialFlexBox> for FlexBox {
    open spec fn obeys_from_spec() -> bool {
        true
    }

    open spec fn from_spec(engine_box: PartialFlexBox) -> FlexBox {
        engine_box.spec_to_flex_box()
    }
}

impl From<FlexBox> for PartialFlexBox {
    fn from(flex_box: FlexBox) -> (r: PartialFlexBox) {
        PartialFlexBox::from(&flex_box)
    }
}

impl FromSpecImpl<FlexBox> for PartialFlexBox {
    open spec fn obeys_from_spec() -> bool {
        true
    }

    open spec fn from_spec(flex_box: FlexBox) -> PartialFlexBox {
        PartialFlexBox::spec_of(flex_box)
    }
}

impl<'a> From<&'a FlexBox> for PartialFlexBox {
    fn from(flex_box: &'a FlexBox) -> (r: PartialFlexBox) {
        PartialFlexBox {
            id: flex_box.id,
            style_adjusted_origin_pos: flex_box.style_adjusted_origin_pos,
            style_adjusted_bounds_size: flex_box.style_adjusted_bounds_size,
            maybe_computed_style: flex_box.get_computed_style(),
        }
    }
}

impl<'a> FromSpecImpl<&'a FlexBox> for PartialFlexBox {
    open spec fn obeys_from_spec() -> bool {
        true
    }

    open spec fn from_spec(flex_box: &'a FlexBox) -> PartialFlexBox {
        PartialFlexBox::spec_of(*flex_box)
    }
}

/// The box as the editor engine keeps it between two frames.
pub type EditorEngineFlexBox = PartialFlexBox;

} // verus!
