//! Immutable ready snapshot generations and their metadata-only debug views.
//!
//! A snapshot exposes its generation identity and element counts, keeps the
//! original CPU metadata for renderer-internal clip validation, and owns the
//! use gate that serializes renderer draws of the generation. Its debug
//! text is that of its debug view: the generation and counts only. The
//! snapshot types have no `Debug` of their own, so metadata, native
//! resources and synchronization state never reach a debug string.

use vstd::prelude::*;
use vstd::string::StringExecFns;

use crate::debug_text::{decimal, push_decimal};
use crate::scene::BasicMaterial;
use crate::upload::gate::{
    gate_next, reserve_outcome, GateEvent, SnapshotDrawReservation, SnapshotUseError,
    SnapshotUseGate, UseGated,
};

verus! {

/// Copies a slice into an owned vector.
pub fn copy_slice<T: Copy>(items: &[T]) -> (copy: Vec<T>)
    ensures
        copy@ == items@,
{
    let mut copy: Vec<T> = Vec::new();
    let mut i: usize = 0;
    while i < items.len()
        invariant
            i <= items@.len(),
            copy@ == items@.subrange(0, i as int),
        decreases items@.len() - i,
    {
        copy.push(items[i]);
        i = i + 1;
        assert(copy@ =~= items@.subrange(0, i as int));
    }
    assert(items@.subrange(0, items@.len() as int) =~= items@);
    copy
}

/// The debug text of a mesh snapshot named `name` with the given metadata.
pub open spec fn mesh_debug_text(
    name: Seq<char>,
    generation: u64,
    position_count: u32,
    index_count: u32,
) -> Seq<char> {
    name + " { generation: "@ + decimal(generation as nat) + ", position_count: "@ + decimal(
        position_count as nat,
    ) + ", index_count: "@ + decimal(index_count as nat) + " }"@
}

/// Renders the debug text of a mesh snapshot named `name`.
fn mesh_debug_string(name: &str, generation: u64, position_count: u32, index_count: u32) -> (text:
    String)
    ensures
        text@ == mesh_debug_text(name@, generation, position_count, index_count),
{
    let mut text = String::new();
    text.append(name);
    text.append(" { generation: ");
    push_decimal(&mut text, generation);
    text.append(", position_count: ");
    push_decimal(&mut text, position_count as u64);
    text.append(", index_count: ");
    push_decimal(&mut text, index_count as u64);
    text.append(" }");
    text
}

/// Narrow debug view of an indexed-mesh snapshot: generation and counts only.
#[derive(Clone, Copy, PartialEq, Eq, Structural)]
pub struct IndexedMeshSnapshotDebug {
    /// Generation identity.
    pub generation: u64,
    /// Number of positions.
    pub position_count: u32,
    /// Number of indices.
    pub index_count: u32,
}

impl IndexedMeshSnapshotDebug {
    /// The struct-style debug text of this view, named `IndexedMeshSnapshot`.
    pub fn debug_string(&self) -> (text: String)
        ensures
            text@ == mesh_debug_text(
                "IndexedMeshSnapshot"@,
                self.generation,
                self.position_count,
                self.index_count,
            ),
    {
        mesh_debug_string("IndexedMeshSnapshot", self.generation, self.position_count, self.index_count)
    }
}

/// Narrow debug view of a textured mesh snapshot: generation and counts only.
#[derive(Clone, Copy, PartialEq, Eq, Structural)]
pub struct TexturedIndexedMeshSnapshotDebugProbe {
    /// Generation identity.
    pub generation: u64,
    /// Number of positions.
    pub position_count: u32,
    /// Number of indices.
    pub index_count: u32,
}

impl TexturedIndexedMeshSnapshotDebugProbe {
    /// The struct-style debug text of this view, named `TexturedIndexedMeshSnapshot`.
    pub fn debug_string(&self) -> (text: String)
        ensures
            text@ == mesh_debug_text(
                "TexturedIndexedMeshSnapshot"@,
                self.generation,
                self.position_count,
                self.index_count,
            ),
    {
        mesh_debug_string(
            "TexturedIndexedMeshSnapshot",
            self.generation,
            self.position_count,
            self.index_count,
        )
    }
}

/// The debug text of a base-color texture snapshot.
pub open spec fn texture_debug_text(generation: u64, extent: [u32; 2]) -> Seq<char> {
    "BaseColorTextureSnapshot { generation: "@ + decimal(generation as nat) + ", extent: ["@
        + decimal(extent[0] as nat) + ", "@ + decimal(extent[1] as nat) + "] }"@
}

/// Narrow debug view of a base-color texture snapshot: generation and extent only.
#[derive(Clone, Copy, PartialEq, Eq)]
pub struct BaseColorTextureSnapshotDebug {
    /// Generation identity.
    pub generation: u64,
    /// Texel extent.
    pub extent: [u32; 2],
}

impl BaseColorTextureSnapshotDebug {
    /// The struct-style debug text of this view, named `BaseColorTextureSnapshot`.
    pub fn debug_string(&self) -> (text: String)
        ensures
            text@ == texture_debug_text(self.generation, self.extent),
    {
        let mut text = String::new();
        text.append("BaseColorTextureSnapshot { generation: ");
        push_decimal(&mut text, self.generation);
        text.append(", extent: [");
        push_decimal(&mut text, self.extent[0] as u64);
        text.append(", ");
        push_decimal(&mut text, self.extent[1] as u64);
        text.append("] }");
        text
    }
}

/// An immutable, GPU-ready indexed-mesh generation.
pub struct IndexedMeshSnapshot {
    generation: u64,
    position_count: u32,
    index_count: u32,
    position_metadata: Vec<[u32; 3]>,
    index_metadata: Vec<u32>,
    use_gate: SnapshotUseGate,
}

impl IndexedMeshSnapshot {
    /// The generation identity.
    pub closed spec fn spec_generation(&self) -> u64 {
        self.generation
    }

    /// The number of positions.
    pub closed spec fn spec_position_count(&self) -> u32 {
        self.position_count
    }

    /// The number of indices.
    pub closed spec fn spec_index_count(&self) -> u32 {
        self.index_count
    }

    /// The original positions.
    pub closed spec fn spec_position_metadata(&self) -> Seq<[u32; 3]> {
        self.position_metadata@
    }

    /// The original indices.
    pub closed spec fn spec_index_metadata(&self) -> Seq<u32> {
        self.index_metadata@
    }

    /// The generation's use gate.
    pub closed spec fn spec_gate(&self) -> SnapshotUseGate {
        self.use_gate
    }

    /// Publishes a ready generation with a fresh use gate.
    pub fn publish(
        generation: u64,
        position_count: u32,
        index_count: u32,
        position_metadata: &[[u32; 3]],
        index_metadata: &[u32],
    ) -> (snapshot: Self)
        ensures
            snapshot.spec_generation() == generation,
            snapshot.spec_position_count() == position_count,
            snapshot.spec_index_count() == index_count,
            snapshot.spec_position_metadata() == position_metadata@,
            snapshot.spec_index_metadata() == index_metadata@,
            snapshot.spec_gate()@ == crate::upload::gate::SnapshotUseState::Ready,
            snapshot.spec_gate().spec_generation() == generation,
    {
        Self {
            generation,
            position_count,
            index_count,
            position_metadata: copy_slice(position_metadata),
            index_metadata: copy_slice(index_metadata),
            use_gate: SnapshotUseGate::new(generation),
        }
    }

    /// Returns the opaque identity of this immutable generation.
    pub fn generation(&self) -> (generation: u64)
        ensures
            generation == self.spec_generation(),
    {
        self.generation
    }

    /// Returns the number of `f32x3` vertex positions in this generation.
    pub fn position_count(&self) -> (count: u32)
        ensures
            count == self.spec_position_count(),
    {
        self.position_count
    }

    /// Returns the number of `u32` indices in this generation.
    pub fn index_count(&self) -> (count: u32)
        ensures
            count == self.spec_index_count(),
    {
        self.index_count
    }

    /// Returns the original positions for CPU-side lowering.
    pub fn position_metadata(&self) -> (positions: &[[u32; 3]])
        ensures
            positions@ == self.spec_position_metadata(),
    {
        self.position_metadata.as_slice()
    }

    /// Returns the original indices for CPU-side lowering.
    pub fn index_metadata(&self) -> (indices: &[u32])
        ensures
            indices@ == self.spec_index_metadata(),
    {
        self.index_metadata.as_slice()
    }

    /// Reserves this generation for one renderer submission.
    pub fn reserve_for_draw(&mut self) -> (result: Result<SnapshotDrawReservation, SnapshotUseError>)
        ensures
            final(self).spec_gate()@ == gate_next(old(self).spec_gate()@, GateEvent::Reserve),
            result is Ok <==> reserve_outcome(old(self).spec_gate()@) is Ok,
            result matches Ok(reservation) ==> reservation.is_active()
                && reservation.spec_generation() == old(self).spec_gate().spec_generation(),
            final(self).spec_gate().spec_generation() == old(self).spec_gate().spec_generation(),
            result matches Err(error) ==> reserve_outcome(old(self).spec_gate()@) == Err::<(), _>(
                error,
            ),
            final(self).spec_generation() == old(self).spec_generation(),
            final(self).spec_position_metadata() == old(self).spec_position_metadata(),
            final(self).spec_index_metadata() == old(self).spec_index_metadata(),
    {
        self.use_gate.reserve()
    }

    /// The generation's use gate, read-only: a reservation returns to it
    /// through [`UseGated`].
    pub fn use_gate(&self) -> (gate: &SnapshotUseGate)
        ensures
            *gate == self.spec_gate(),
    {
        &self.use_gate
    }

    /// The metadata-only debug view of this snapshot.
    pub fn debug_view(&self) -> (view: IndexedMeshSnapshotDebug)
        ensures
            view == (IndexedMeshSnapshotDebug {
                generation: self.spec_generation(),
                position_count: self.spec_position_count(),
                index_count: self.spec_index_count(),
            }),
    {
        IndexedMeshSnapshotDebug {
            generation: self.generation,
            position_count: self.position_count,
            index_count: self.index_count,
        }
    }
}


/// An immutable, GPU-ready textured mesh generation holding all three streams.
pub struct TexturedIndexedMeshSnapshot {
    generation: u64,
    position_count: u32,
    index_count: u32,
    position_metadata: Vec<[u32; 3]>,
    index_metadata: Vec<u32>,
    texture_coordinate_metadata: Vec<[u32; 2]>,
    use_gate: SnapshotUseGate,
}

impl TexturedIndexedMeshSnapshot {
    /// The generation identity.
    pub closed spec fn spec_generation(&self) -> u64 {
        self.generation
    }

    /// The number of positions.
    pub closed spec fn spec_position_count(&self) -> u32 {
        self.position_count
    }

    /// The number of indices.
    pub closed spec fn spec_index_count(&self) -> u32 {
        self.index_count
    }

    /// The original positions.
    pub closed spec fn spec_position_metadata(&self) -> Seq<[u32; 3]> {
        self.position_metadata@
    }

    /// The original indices.
    pub closed spec fn spec_index_metadata(&self) -> Seq<u32> {
        self.index_metadata@
    }

    /// The original texture coordinates.
    pub closed spec fn spec_texture_coordinate_metadata(&self) -> Seq<[u32; 2]> {
        self.texture_coordinate_metadata@
    }

    /// The generation's use gate.
    pub closed spec fn spec_gate(&self) -> SnapshotUseGate {
        self.use_gate
    }

    /// Publishes a ready generation with a fresh use gate.
    pub fn publish(
        generation: u64,
        position_count: u32,
        index_count: u32,
        position_metadata: &[[u32; 3]],
        index_metadata: &[u32],
        texture_coordinate_metadata: &[[u32; 2]],
    ) -> (snapshot: Self)
        ensures
            snapshot.spec_generation() == generation,
            snapshot.spec_position_count() == position_count,
            snapshot.spec_index_count() == index_count,
            snapshot.spec_position_metadata() == position_metadata@,
            snapshot.spec_index_metadata() == index_metadata@,
            snapshot.spec_texture_coordinate_metadata() == texture_coordinate_metadata@,
            snapshot.spec_gate()@ == crate::upload::gate::SnapshotUseState::Ready,
            snapshot.spec_gate().spec_generation() == generation,
    {
        Self {
            generation,
            position_count,
            index_count,
            position_metadata: copy_slice(position_metadata),
            index_metadata: copy_slice(index_metadata),
            texture_coordinate_metadata: copy_slice(texture_coordinate_metadata),
            use_gate: SnapshotUseGate::new(generation),
        }
    }

    /// Returns the opaque identity of this immutable generation.
    pub fn generation(&self) -> (generation: u64)
        ensures
            generation == self.spec_generation(),
    {
        self.generation
    }

    /// Returns the number of `f32x3` vertex positions in this generation.
    pub fn position_count(&self) -> (count: u32)
        ensures
            count == self.spec_position_count(),
    {
        self.position_count
    }

    /// Returns the number of `u32` indices in this generation.
    pub fn index_count(&self) -> (count: u32)
        ensures
            count == self.spec_index_count(),
    {
        self.index_count
    }

    /// Returns the original positions for CPU-side lowering.
    pub fn position_metadata(&self) -> (positions: &[[u32; 3]])
        ensures
            positions@ == self.spec_position_metadata(),
    {
        self.position_metadata.as_slice()
    }

    /// Returns the original indices for CPU-side lowering.
    pub fn index_metadata(&self) -> (indices: &[u32])
        ensures
            indices@ == self.spec_index_metadata(),
    {
        self.index_metadata.as_slice()
    }

    /// Returns the original texture coordinates for CPU-side lowering.
    pub fn texture_coordinate_metadata(&self) -> (coordinates: &[[u32; 2]])
        ensures
            coordinates@ == self.spec_texture_coordinate_metadata(),
    {
        self.texture_coordinate_metadata.as_slice()
    }

    /// Reserves this generation for one renderer submission.
    pub fn reserve_for_draw(&mut self) -> (result: Result<SnapshotDrawReservation, SnapshotUseError>)
        ensures
            final(self).spec_gate()@ == gate_next(old(self).spec_gate()@, GateEvent::Reserve),
            result is Ok <==> reserve_outcome(old(self).spec_gate()@) is Ok,
            result matches Ok(reservation) ==> reservation.is_active()
                && reservation.spec_generation() == old(self).spec_gate().spec_generation(),
            final(self).spec_gate().spec_generation() == old(self).spec_gate().spec_generation(),
            result matches Err(error) ==> reserve_outcome(old(self).spec_gate()@) == Err::<(), _>(
                error,
            ),
            final(self).spec_generation() == old(self).spec_generation(),
            final(self).spec_position_metadata() == old(self).spec_position_metadata(),
            final(self).spec_index_metadata() == old(self).spec_index_metadata(),
            final(self).spec_texture_coordinate_metadata() == old(
                self,
            ).spec_texture_coordinate_metadata(),
    {
        self.use_gate.reserve()
    }

    /// The generation's use gate, read-only: a reservation returns to it
    /// through [`UseGated`].
    pub fn use_gate(&self) -> (gate: &SnapshotUseGate)
        ensures
            *gate == self.spec_gate(),
    {
        &self.use_gate
    }

    /// The metadata-only debug view of this snapshot.
    pub fn debug_view(&self) -> (view: TexturedIndexedMeshSnapshotDebugProbe)
        ensures
            view == (TexturedIndexedMeshSnapshotDebugProbe {
                generation: self.spec_generation(),
                position_count: self.spec_position_count(),
                index_count: self.spec_index_count(),
            }),
    {
        TexturedIndexedMeshSnapshotDebugProbe {
            generation: self.generation,
            position_count: self.position_count,
            index_count: self.index_count,
        }
    }
}

/// An immutable, sampled-ready RGBA8 base-color texture generation.
pub struct BaseColorTextureSnapshot {
    generation: u64,
    extent: [u32; 2],
    use_gate: SnapshotUseGate,
}

impl BaseColorTextureSnapshot {
    /// The generation identity.
    pub closed spec fn spec_generation(&self) -> u64 {
        self.generation
    }

    /// The texel extent.
    pub closed spec fn spec_extent(&self) -> [u32; 2] {
        self.extent
    }

    /// The generation's use gate.
    pub closed spec fn spec_gate(&self) -> SnapshotUseGate {
        self.use_gate
    }

    /// Publishes a ready texture generation with a fresh use gate.
    pub fn publish(generation: u64, extent: [u32; 2]) -> (snapshot: Self)
        ensures
            snapshot.spec_generation() == generation,
            snapshot.spec_extent() == extent,
            snapshot.spec_gate()@ == crate::upload::gate::SnapshotUseState::Ready,
            snapshot.spec_gate().spec_generation() == generation,
    {
        Self { generation, extent, use_gate: SnapshotUseGate::new(generation) }
    }

    /// Returns the opaque identity of this immutable texture generation.
    pub fn generation(&self) -> (generation: u64)
        ensures
            generation == self.spec_generation(),
    {
        self.generation
    }

    /// Returns the texel extent as `[width, height]`.
    pub fn extent(&self) -> (extent: [u32; 2])
        ensures
            extent == self.spec_extent(),
    {
        self.extent
    }

    /// Reserves this generation for one renderer submission.
    pub fn reserve_for_draw(&mut self) -> (result: Result<SnapshotDrawReservation, SnapshotUseError>)
        ensures
            final(self).spec_gate()@ == gate_next(old(self).spec_gate()@, GateEvent::Reserve),
            result is Ok <==> reserve_outcome(old(self).spec_gate()@) is Ok,
            result matches Ok(reservation) ==> reservation.is_active()
                && reservation.spec_generation() == old(self).spec_gate().spec_generation(),
            final(self).spec_gate().spec_generation() == old(self).spec_gate().spec_generation(),
            result matches Err(error) ==> reserve_outcome(old(self).spec_gate()@) == Err::<(), _>(
                error,
            ),
            final(self).spec_generation() == old(self).spec_generation(),
            final(self).spec_extent() == old(self).spec_extent(),
    {
        self.use_gate.reserve()
    }

    /// The generation's use gate, read-only: a reservation returns to it
    /// through [`UseGated`].
    pub fn use_gate(&self) -> (gate: &SnapshotUseGate)
        ensures
            *gate == self.spec_gate(),
    {
        &self.use_gate
    }

    /// The metadata-only debug view of this snapshot.
    pub fn debug_view(&self) -> (view: BaseColorTextureSnapshotDebug)
        ensures
            view.generation == self.spec_generation(),
            view.extent == self.spec_extent(),
    {
        BaseColorTextureSnapshotDebug { generation: self.generation, extent: self.extent }
    }
}

/// A basic material coupled to one immutable base-color texture generation.
pub struct TexturedBasicMaterial {
    material: BasicMaterial,
    base_color_texture: BaseColorTextureSnapshot,
}

impl TexturedBasicMaterial {
    /// The scalar basic-material properties.
    pub closed spec fn spec_material(&self) -> BasicMaterial {
        self.material
    }

    /// The base-color texture generation.
    pub closed spec fn spec_base_color_texture(&self) -> BaseColorTextureSnapshot {
        self.base_color_texture
    }

    /// Couples a basic material to one ready immutable base-color texture.
    pub fn new(material: BasicMaterial, base_color_texture: BaseColorTextureSnapshot) -> (textured:
        Self)
        ensures
            textured.spec_material() == material,
            textured.spec_base_color_texture() == base_color_texture,
    {
        Self { material, base_color_texture }
    }

    /// Returns the scalar basic-material properties.
    pub fn material(&self) -> (material: &BasicMaterial)
        ensures
            *material == self.spec_material(),
    {
        &self.material
    }

    /// Returns the immutable base-color texture generation.
    pub fn base_color_texture(&self) -> (texture: &BaseColorTextureSnapshot)
        ensures
            *texture == self.spec_base_color_texture(),
    {
        &self.base_color_texture
    }
}

impl UseGated for IndexedMeshSnapshot {
    open spec fn spec_use_gate(&self) -> SnapshotUseGate {
        self.spec_gate()
    }

    fn release_reservation(&mut self, reservation: SnapshotDrawReservation)
        ensures
            final(self).spec_generation() == old(self).spec_generation(),
            final(self).spec_position_count() == old(self).spec_position_count(),
            final(self).spec_index_count() == old(self).spec_index_count(),
            final(self).spec_position_metadata() == old(self).spec_position_metadata(),
            final(self).spec_index_metadata() == old(self).spec_index_metadata(),
    {
        let mut reservation = reservation;
        reservation.release_complete(&mut self.use_gate);
    }

    fn poison_reservation(&mut self, reservation: SnapshotDrawReservation)
        ensures
            final(self).spec_generation() == old(self).spec_generation(),
            final(self).spec_position_count() == old(self).spec_position_count(),
            final(self).spec_index_count() == old(self).spec_index_count(),
            final(self).spec_position_metadata() == old(self).spec_position_metadata(),
            final(self).spec_index_metadata() == old(self).spec_index_metadata(),
    {
        reservation.drop(&mut self.use_gate);
    }
}

impl UseGated for TexturedIndexedMeshSnapshot {
    open spec fn spec_use_gate(&self) -> SnapshotUseGate {
        self.spec_gate()
    }

    fn release_reservation(&mut self, reservation: SnapshotDrawReservation)
        ensures
            final(self).spec_generation() == old(self).spec_generation(),
            final(self).spec_position_count() == old(self).spec_position_count(),
            final(self).spec_index_count() == old(self).spec_index_count(),
            final(self).spec_position_metadata() == old(self).spec_position_metadata(),
            final(self).spec_index_metadata() == old(self).spec_index_metadata(),
            final(self).spec_texture_coordinate_metadata() == old(self).spec_texture_coordinate_metadata(),
    {
        let mut reservation = reservation;
        reservation.release_complete(&mut self.use_gate);
    }

    fn poison_reservation(&mut self, reservation: SnapshotDrawReservation)
        ensures
            final(self).spec_generation() == old(self).spec_generation(),
            final(self).spec_position_count() == old(self).spec_position_count(),
            final(self).spec_index_count() == old(self).spec_index_count(),
            final(self).spec_position_metadata() == old(self).spec_position_metadata(),
            final(self).spec_index_metadata() == old(self).spec_index_metadata(),
            final(self).spec_texture_coordinate_metadata() == old(self).spec_texture_coordinate_metadata(),
    {
        reservation.drop(&mut self.use_gate);
    }
}

impl UseGated for BaseColorTextureSnapshot {
    open spec fn spec_use_gate(&self) -> SnapshotUseGate {
        self.spec_gate()
    }

    fn release_reservation(&mut self, reservation: SnapshotDrawReservation)
        ensures
            final(self).spec_generation() == old(self).spec_generation(),
            final(self).spec_extent() == old(self).spec_extent(),
    {
        let mut reservation = reservation;
        reservation.release_complete(&mut self.use_gate);
    }

    fn poison_reservation(&mut self, reservation: SnapshotDrawReservation)
        ensures
            final(self).spec_generation() == old(self).spec_generation(),
            final(self).spec_extent() == old(self).spec_extent(),
    {
        reservation.drop(&mut self.use_gate);
    }
}

} // verus!
