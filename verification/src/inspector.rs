//! Field-change descriptors, their type-erased payloads, and the command
//! sink the dispatch bridge hands its output to.
//!
//! A descriptor says which field changed and to what, possibly nested one
//! level down inside a composite field. Its terminal payload is a closed
//! tagged union with checked-cast accessors: a cast against the wrong tag is
//! an explicit `None`, never a crash, and the bridge treats it exactly like
//! an unrecognized field name.

use vstd::prelude::*;
use crate::command::Command;
use crate::scene::{ColorGradingLut, Exposure, RectValue, ScalarBits, SkyBox, Texture};

verus! {

/// The type-erased terminal value of a descriptor: one variant per field
/// type the inspector can report.
#[derive(Clone, Copy, Debug, PartialEq, Eq, Structural)]
pub enum FieldValue {
    Scalar(ScalarBits),
    Bool(bool),
    Exposure(Exposure),
    Rect(RectValue),
    OptTexture(Option<Texture>),
    OptSkyBox(Option<SkyBox>),
    OptColorGradingLut(Option<ColorGradingLut>),
}

impl FieldValue {
    pub open spec fn cast_scalar_spec(self) -> Option<ScalarBits> {
        match self {
            FieldValue::Scalar(v) => Some(v),
            _ => None,
        }
    }

    /// Checked cast to a raw scalar; `None` on any other tag.
    pub fn cast_scalar(&self) -> (r: Option<ScalarBits>)
        ensures
            r == self.cast_scalar_spec(),
    {
        match self {
            FieldValue::Scalar(v) => Some(*v),
            _ => None,
        }
    }

    pub open spec fn cast_bool_spec(self) -> Option<bool> {
        match self {
            FieldValue::Bool(v) => Some(v),
            _ => None,
        }
    }

    /// Checked cast to a boolean; `None` on any other tag.
    pub fn cast_bool(&self) -> (r: Option<bool>)
        ensures
            r == self.cast_bool_spec(),
    {
        match self {
            FieldValue::Bool(v) => Some(*v),
            _ => None,
        }
    }

    pub open spec fn cast_exposure_spec(self) -> Option<Exposure> {
        match self {
            FieldValue::Exposure(v) => Some(v),
            _ => None,
        }
    }

    /// Checked cast to an exposure value; `None` on any other tag.
    pub fn cast_exposure(&self) -> (r: Option<Exposure>)
        ensures
            r == self.cast_exposure_spec(),
    {
        match self {
            FieldValue::Exposure(v) => Some(*v),
            _ => None,
        }
    }

    pub open spec fn cast_rect_spec(self) -> Option<RectValue> {
        match self {
            FieldValue::Rect(v) => Some(v),
            _ => None,
        }
    }

    /// Checked cast to a rectangle; `None` on any other tag.
    pub fn cast_rect(&self) -> (r: Option<RectValue>)
        ensures
            r == self.cast_rect_spec(),
    {
        match self {
            FieldValue::Rect(v) => Some(*v),
            _ => None,
        }
    }

    pub open spec fn cast_opt_texture_spec(self) -> Option<Option<Texture>> {
        match self {
            FieldValue::OptTexture(v) => Some(v),
            _ => None,
        }
    }

    /// Checked cast to an optional texture reference; `None` on any other tag.
    pub fn cast_opt_texture(&self) -> (r: Option<Option<Texture>>)
        ensures
            r == self.cast_opt_texture_spec(),
    {
        match self {
            FieldValue::OptTexture(v) => Some(*v),
            _ => None,
        }
    }

    pub open spec fn cast_opt_sky_box_spec(self) -> Option<Option<SkyBox>> {
        match self {
            FieldValue::OptSkyBox(v) => Some(v),
            _ => None,
        }
    }

    /// Checked cast to an optional cube map; `None` on any other tag.
    pub fn cast_opt_sky_box(&self) -> (r: Option<Option<SkyBox>>)
        ensures
            r == self.cast_opt_sky_box_spec(),
    {
        match self {
            FieldValue::OptSkyBox(v) => Some(*v),
            _ => None,
        }
    }

    pub open spec fn cast_opt_color_grading_lut_spec(self) -> Option<Option<ColorGradingLut>> {
        match self {
            FieldValue::OptColorGradingLut(v) => Some(v),
            _ => None,
        }
    }

    /// Checked cast to an optional color-grading table; `None` on any other
    /// tag.
    pub fn cast_opt_color_grading_lut(&self) -> (r: Option<Option<ColorGradingLut>>)
        ensures
            r == self.cast_opt_color_grading_lut_spec(),
    {
        match self {
            FieldValue::OptColorGradingLut(v) => Some(*v),
            _ => None,
        }
    }
}

/// What a descriptor says about the changed field: either the terminal new
/// value, or a nested descriptor for one level down a composite field.
#[derive(Debug)]
pub enum FieldKind {
    Object(FieldValue),
    Inspectable(Box<PropertyChanged>),
}

/// A field-change descriptor: the changed field's name on its owner, and the
/// payload. Walking nested payloads always ends at exactly one terminal
/// value; an unrecognized name anywhere along the path makes the whole edit
/// inapplicable, never an error.
#[derive(Debug)]
pub struct PropertyChanged {
    pub name: String,
    pub value: FieldKind,
}

/// True exactly when a field name equals the given table entry.
pub fn name_is(name: &String, entry: &str) -> (r: bool)
    ensures
        r == (name@ == entry@),
{
    let owned: String = entry.to_owned();
    *name == owned
}

/// The capability the bridge hands finished commands to: the recording end
/// of the undo/redo stack. The bridge only ever appends; applying and
/// undoing belong to the stack's owner.
pub struct SenderHelper {
    pub commands: Vec<Command>,
}

impl SenderHelper {
    pub fn new() -> (r: SenderHelper)
        ensures
            r.commands@ == Seq::<Command>::empty(),
    {
        SenderHelper { commands: Vec::new() }
    }

    /// Append one command to the undo stack's intake; reports acceptance.
    pub fn do_scene_command(&mut self, command: Command) -> (r: Option<()>)
        ensures
            final(self).commands@ == old(self).commands@.push(command),
            r == Some(()),
    {
        self.commands.push(command);
        Some(())
    }
}

} // verus!
