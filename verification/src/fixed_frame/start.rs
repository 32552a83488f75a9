//! The device steps that start one accepted fixed frame.
//!
//! Starting a frame creates the recipe's raster pipeline, registers it and
//! the recipe's bindings, and uploads the frame uniform, in that order. The
//! caller performs each step on the device and reports its outcome. A step
//! that fails before native work is accepted releases the reserved
//! generations; once the uniform upload is accepted, the submission owns the
//! reservations and decides release or poison.

use vstd::prelude::*;

use crate::fixed_frame::recipe::{BindingRecipe, RasterKernel, RasterRecipe};
use crate::frame_uniform::FRAME_UNIFORM_BYTES;
use crate::upload::gate::{gate_next, GateEvent, SnapshotDrawReservation, SnapshotUseState, UseGated};

verus! {

/// The vertex stream, beyond positions, that a binding recipe reads.
#[derive(Clone, Copy, Debug, PartialEq, Eq, Structural)]
pub enum BindingStream {
    /// Per-vertex linear RGBA colors.
    Colors,
    /// Per-vertex unit normals.
    Normals,
    /// Per-vertex texture coordinates.
    TextureCoordinates,
}

/// The extra vertex stream each binding recipe registers with positions,
/// if any.
pub open spec fn spec_binding_stream(binding: BindingRecipe) -> Option<BindingStream> {
    match binding {
        BindingRecipe::VertexColor => Some(BindingStream::Colors),
        BindingRecipe::NormalLambert => Some(BindingStream::Normals),
        BindingRecipe::UvTextureLoad => Some(BindingStream::TextureCoordinates),
        BindingRecipe::UvLinearClamp => Some(BindingStream::TextureCoordinates),
        BindingRecipe::UvLinearClampSrgb => Some(BindingStream::TextureCoordinates),
        BindingRecipe::TextureLoad => None,
        BindingRecipe::Uniform => None,
    }
}

/// Returns the extra vertex stream `binding` registers with positions.
pub fn binding_stream(binding: BindingRecipe) -> (stream: Option<BindingStream>)
    ensures
        stream == spec_binding_stream(binding),
{
    match binding {
        BindingRecipe::VertexColor => Some(BindingStream::Colors),
        BindingRecipe::NormalLambert => Some(BindingStream::Normals),
        BindingRecipe::UvTextureLoad => Some(BindingStream::TextureCoordinates),
        BindingRecipe::UvLinearClamp => Some(BindingStream::TextureCoordinates),
        BindingRecipe::UvLinearClampSrgb => Some(BindingStream::TextureCoordinates),
        BindingRecipe::TextureLoad => None,
        BindingRecipe::Uniform => None,
    }
}

/// A use of the frame uniform buffer.
#[derive(Clone, Copy, Debug, PartialEq, Eq, Structural)]
pub enum UniformBufferUsage {
    /// The upload copies into the buffer.
    CopyDestination,
    /// The raster pass reads the buffer as its uniform.
    Uniform,
}

/// Where the frame uniform buffer lives.
#[derive(Clone, Copy, Debug, PartialEq, Eq, Structural)]
pub enum UniformMemory {
    /// Device-local memory only.
    DeviceOnly,
}

/// The immutable buffer the frame uniform is uploaded into.
#[derive(Clone, Copy, Debug, PartialEq, Eq)]
pub struct UniformUploadDescriptor {
    /// Byte size of the buffer.
    pub size: u64,
    /// The buffer's uses.
    pub usages: [UniformBufferUsage; 2],
    /// The buffer's memory.
    pub memory: UniformMemory,
}

/// The descriptor of the frame uniform buffer: the closed 80-byte ABI, used
/// as a copy destination and a uniform, in device-local memory.
pub open spec fn spec_uniform_upload_descriptor() -> UniformUploadDescriptor {
    UniformUploadDescriptor {
        size: FRAME_UNIFORM_BYTES as u64,
        usages: [UniformBufferUsage::CopyDestination, UniformBufferUsage::Uniform],
        memory: UniformMemory::DeviceOnly,
    }
}

/// How far a frame start has come.
#[derive(Clone, Copy, Debug, PartialEq, Eq, Structural)]
pub enum FrameStartStage {
    /// The raster pipeline has not been created.
    CreatePipeline,
    /// The created pipeline has not been registered.
    RegisterPipeline,
    /// The recipe's bindings have not been registered.
    RegisterBindings,
    /// The frame uniform upload has not been accepted.
    UploadUniform,
    /// Native work was accepted; the submission owns the reservations.
    Accepted,
}

/// The device step the caller performs next.
#[derive(Clone, Copy, Debug, PartialEq, Eq)]
pub enum FrameStartAction {
    /// Create the raster pipeline of this kernel.
    CreatePipeline(RasterKernel),
    /// Register the created pipeline.
    RegisterPipeline,
    /// Register the recipe's bindings: positions, the extra stream if any,
    /// and the uniform and texture the recipe names.
    RegisterBindings {
        /// The recipe's binding layout.
        binding: BindingRecipe,
        /// The vertex stream registered beside positions.
        stream: Option<BindingStream>,
    },
    /// Upload the frame uniform into a buffer with this descriptor.
    UploadUniform(UniformUploadDescriptor),
    /// Nothing remains: hand the reservations to the submission.
    Submit,
}

/// The stage after a step of `stage` succeeded.
pub open spec fn next_start_stage(stage: FrameStartStage) -> FrameStartStage {
    match stage {
        FrameStartStage::CreatePipeline => FrameStartStage::RegisterPipeline,
        FrameStartStage::RegisterPipeline => FrameStartStage::RegisterBindings,
        FrameStartStage::RegisterBindings => FrameStartStage::UploadUniform,
        FrameStartStage::UploadUniform => FrameStartStage::Accepted,
        FrameStartStage::Accepted => FrameStartStage::Accepted,
    }
}

/// The step a start of `recipe` performs at `stage`.
pub open spec fn start_action(recipe: RasterRecipe, stage: FrameStartStage) -> FrameStartAction {
    match stage {
        FrameStartStage::CreatePipeline => FrameStartAction::CreatePipeline(recipe.spec_kernel()),
        FrameStartStage::RegisterPipeline => FrameStartAction::RegisterPipeline,
        FrameStartStage::RegisterBindings => FrameStartAction::RegisterBindings {
            binding: recipe.spec_binding(),
            stream: spec_binding_stream(recipe.spec_binding()),
        },
        FrameStartStage::UploadUniform => FrameStartAction::UploadUniform(
            spec_uniform_upload_descriptor(),
        ),
        FrameStartStage::Accepted => FrameStartAction::Submit,
    }
}

/// The start of one fixed frame of a recipe.
#[derive(Clone, Copy, Debug)]
pub struct FrameStart {
    recipe: RasterRecipe,
    stage: FrameStartStage,
}

impl FrameStart {
    /// The recipe being started.
    pub closed spec fn spec_recipe(&self) -> RasterRecipe {
        self.recipe
    }

    /// How far the start has come.
    pub closed spec fn spec_stage(&self) -> FrameStartStage {
        self.stage
    }

    /// Begins the start of a frame of `recipe`: its pipeline comes first.
    pub fn new(recipe: RasterRecipe) -> (start: Self)
        ensures
            start.spec_recipe() == recipe,
            start.spec_stage() == FrameStartStage::CreatePipeline,
    {
        Self { recipe, stage: FrameStartStage::CreatePipeline }
    }

    /// Returns how far the start has come.
    pub fn stage(&self) -> (stage: FrameStartStage)
        ensures
            stage == self.spec_stage(),
    {
        self.stage
    }

    /// The device step to perform next.
    pub fn action(&self) -> (action: FrameStartAction)
        ensures
            action == start_action(self.spec_recipe(), self.spec_stage()),
    {
        match self.stage {
            FrameStartStage::CreatePipeline => FrameStartAction::CreatePipeline(self.recipe.kernel()),
            FrameStartStage::RegisterPipeline => FrameStartAction::RegisterPipeline,
            FrameStartStage::RegisterBindings => {
                let binding = self.recipe.binding();
                FrameStartAction::RegisterBindings { binding, stream: binding_stream(binding) }
            },
            FrameStartStage::UploadUniform => FrameStartAction::UploadUniform(
                UniformUploadDescriptor {
                    size: FRAME_UNIFORM_BYTES as u64,
                    usages: [UniformBufferUsage::CopyDestination, UniformBufferUsage::Uniform],
                    memory: UniformMemory::DeviceOnly,
                },
            ),
            FrameStartStage::Accepted => FrameStartAction::Submit,
        }
    }

    /// Records that the current step succeeded on the device.
    pub fn step_succeeded(&mut self)
        ensures
            final(self).spec_recipe() == old(self).spec_recipe(),
            final(self).spec_stage() == next_start_stage(old(self).spec_stage()),
    {
        self.stage = match self.stage {
            FrameStartStage::CreatePipeline => FrameStartStage::RegisterPipeline,
            FrameStartStage::RegisterPipeline => FrameStartStage::RegisterBindings,
            FrameStartStage::RegisterBindings => FrameStartStage::UploadUniform,
            FrameStartStage::UploadUniform => FrameStartStage::Accepted,
            FrameStartStage::Accepted => FrameStartStage::Accepted,
        };
    }
}

/// Ends a start of a mesh-only frame whose step failed before native work
/// was accepted: the mesh generation is ready again.
pub fn abandon_start<M: UseGated>(
    start: FrameStart,
    mesh: &mut M,
    reservation: SnapshotDrawReservation,
)
    requires
        start.spec_stage() != FrameStartStage::Accepted,
        old(mesh).spec_use_gate().spec_generation() == reservation.spec_generation(),
        reservation.is_active(),
        old(mesh).spec_use_gate()@ == SnapshotUseState::InFlight,
    ensures
        final(mesh).spec_use_gate().spec_generation() == old(mesh).spec_use_gate().spec_generation(),
        final(mesh).spec_use_gate()@ == gate_next(old(mesh).spec_use_gate()@, GateEvent::Release),
        final(mesh).spec_use_gate()@ == SnapshotUseState::Ready,
{
    mesh.release_reservation(reservation);
}

/// Ends a start of a textured frame whose step failed before native work
/// was accepted: both the mesh and the texture generations are ready again.
pub fn abandon_textured_start<M: UseGated, T: UseGated>(
    start: FrameStart,
    mesh: &mut M,
    reservation: SnapshotDrawReservation,
    texture: &mut T,
    texture_reservation: SnapshotDrawReservation,
)
    requires
        start.spec_stage() != FrameStartStage::Accepted,
        old(mesh).spec_use_gate().spec_generation() == reservation.spec_generation(),
        reservation.is_active(),
        old(mesh).spec_use_gate()@ == SnapshotUseState::InFlight,
        old(texture).spec_use_gate().spec_generation() == texture_reservation.spec_generation(),
        texture_reservation.is_active(),
        old(texture).spec_use_gate()@ == SnapshotUseState::InFlight,
    ensures
        final(mesh).spec_use_gate().spec_generation() == old(mesh).spec_use_gate().spec_generation(),
        final(mesh).spec_use_gate()@ == SnapshotUseState::Ready,
        final(texture).spec_use_gate().spec_generation() == old(
            texture,
        ).spec_use_gate().spec_generation(),
        final(texture).spec_use_gate()@ == SnapshotUseState::Ready,
{
    mesh.release_reservation(reservation);
    texture.release_reservation(texture_reservation);
}

/// Each binding recipe registers the one extra vertex stream its shader
/// reads: vertex colors for the vertex-color recipe, normals for the Lambert
/// recipe, texture coordinates for the three explicit-UV recipes, and none
/// for the uniform-only and texture-load recipes.
pub proof fn lemma_binding_streams(binding: BindingRecipe)
    ensures
        spec_binding_stream(binding) == Some(BindingStream::Colors) <==> binding
            == BindingRecipe::VertexColor,
        spec_binding_stream(binding) == Some(BindingStream::Normals) <==> binding
            == BindingRecipe::NormalLambert,
        spec_binding_stream(binding) == Some(BindingStream::TextureCoordinates) <==> (binding
            == BindingRecipe::UvTextureLoad || binding == BindingRecipe::UvLinearClamp || binding
            == BindingRecipe::UvLinearClampSrgb),
        spec_binding_stream(binding) is None <==> (binding == BindingRecipe::TextureLoad || binding
            == BindingRecipe::Uniform),
{
}

/// A start performs its steps in one fixed order, each succeeding step
/// leading to the next: create the recipe's pipeline, register it, register
/// the recipe's bindings, upload the uniform into its 80-byte device-local
/// buffer, then submit; an accepted start stays accepted.
pub proof fn lemma_start_steps(recipe: RasterRecipe)
    ensures
        start_action(recipe, FrameStartStage::CreatePipeline) == FrameStartAction::CreatePipeline(
            recipe.spec_kernel(),
        ),
        next_start_stage(FrameStartStage::CreatePipeline) == FrameStartStage::RegisterPipeline,
        start_action(recipe, FrameStartStage::RegisterPipeline) == FrameStartAction::RegisterPipeline,
        next_start_stage(FrameStartStage::RegisterPipeline) == FrameStartStage::RegisterBindings,
        start_action(recipe, FrameStartStage::RegisterBindings) == (FrameStartAction::RegisterBindings {
            binding: recipe.spec_binding(),
            stream: spec_binding_stream(recipe.spec_binding()),
        }),
        next_start_stage(FrameStartStage::RegisterBindings) == FrameStartStage::UploadUniform,
        start_action(recipe, FrameStartStage::UploadUniform) matches FrameStartAction::UploadUniform(
            descriptor,
        ) && descriptor.size == 80 && descriptor.memory == UniformMemory::DeviceOnly
            && descriptor.usages[0] == UniformBufferUsage::CopyDestination && descriptor.usages[1]
            == UniformBufferUsage::Uniform,
        next_start_stage(FrameStartStage::UploadUniform) == FrameStartStage::Accepted,
        start_action(recipe, FrameStartStage::Accepted) == FrameStartAction::Submit,
        next_start_stage(FrameStartStage::Accepted) == FrameStartStage::Accepted,
{
}

} // verus!
