//! The commands that a frame queues for the GPU, in the order in which they
//! are to be carried out.

use crate::matrix::Matrix4;
use crate::sampler::SamplerHandle;
use crate::target::{ShaderResourceHandle, TargetId};
use crate::types::{BlendMode, Color, DrawParam};
use vstd::prelude::*;

verus! {

/// Where a context stands in its frame.
#[derive(Clone, Copy, Debug, PartialEq, Eq, Structural)]
pub enum FrameState {
    /// Between frames: nothing was cleared since the last present.
    Idle,
    /// A frame was begun by a clear and was not yet presented.
    Drawing,
}

/// One instanced draw of the shared quad with a texture.
#[derive(Clone, Copy, Debug, PartialEq, Eq, Structural)]
pub struct DrawCall {
    /// The target that is drawn to.
    pub target: TargetId,
    /// The texture that is drawn.
    pub texture: ShaderResourceHandle,
    /// How the texture is sampled.
    pub sampler: SamplerHandle,
    /// How the result is blended with the target.
    pub blend: BlendMode,
    /// Where and how the quad is placed.
    pub param: DrawParam,
}

/// A command for the GPU.
#[derive(Clone, Copy, Debug, PartialEq, Eq)]
pub enum Command {
    /// Fill a target with a colour. The colour is given in sRGB; whoever
    /// carries the command out converts it to the device's colour space.
    Clear { target: TargetId, color: Color },
    /// Upload a matrix as the combined transform of the draws that follow.
    UpdateGlobals(Matrix4),
    /// Draw.
    Draw(DrawCall),
}

/// A command with its matrix as a mathematical value.
pub enum CommandModel {
    Clear { target: TargetId, color: Color },
    UpdateGlobals(Seq<int>),
    Draw(DrawCall),
}

impl View for Command {
    type V = CommandModel;

    open spec fn view(&self) -> CommandModel {
        match *self {
            Command::Clear { target, color } => CommandModel::Clear { target, color },
            Command::UpdateGlobals(m) => CommandModel::UpdateGlobals(m@),
            Command::Draw(call) => CommandModel::Draw(call),
        }
    }
}

/// The commands of a queue as mathematical values.
pub open spec fn commands_view(q: Seq<Command>) -> Seq<CommandModel> {
    Seq::new(q.len(), |i: int| q[i]@)
}

} // verus!
