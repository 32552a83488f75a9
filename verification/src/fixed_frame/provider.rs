//! Resolution of frame-graph binding identities to the caller-owned
//! resources of a fixed frame: which snapshot stream, uniform, or texture an
//! identity selects, where its initial access state comes from, and why a
//! binding is missing.

use vstd::hash_map::HashMapWithView;
use vstd::prelude::*;

use crate::debug_text::text_of;
use crate::fixed_frame::ids::{
    index_binding, normal_binding, position_binding, texture_binding, texture_coordinate_binding,
    uniform_binding, vertex_color_binding, BufferBindingId, TextureBindingId,
};

verus! {

/// The kind of a binding that a frame could not resolve.
#[derive(Clone, Copy, Debug, PartialEq, Eq, Structural)]
pub enum FrameBindingErrorKind {
    /// No texture is imported under the requested identity.
    MissingTexture,
    /// No buffer is imported under the requested identity.
    MissingBuffer,
}

/// A binding identity that the frame's resources cannot resolve.
#[derive(Clone, Debug, PartialEq, Eq)]
pub struct FrameBindingError {
    /// What kind of binding was missing.
    pub kind: FrameBindingErrorKind,
    /// A stable description of the missing binding.
    pub detail: String,
}

/// Describes a missing binding of `kind`.
pub fn missing_binding(kind: FrameBindingErrorKind, detail: &str) -> (error: FrameBindingError)
    ensures
        error.kind == kind,
        error.detail@ == detail@,
{
    FrameBindingError { kind, detail: text_of(detail) }
}

/// `result` is `expected`: the same resource, or a missing binding of the
/// same kind and description.
pub open spec fn resolves_as<T>(
    result: Result<T, FrameBindingError>,
    expected: Result<T, (FrameBindingErrorKind, Seq<char>)>,
) -> bool {
    match result {
        Ok(resource) => expected == Ok::<T, (FrameBindingErrorKind, Seq<char>)>(resource),
        Err(error) => expected == Err::<T, (FrameBindingErrorKind, Seq<char>)>(
            (error.kind, error.detail@),
        ),
    }
}

/// A buffer of a single-draw camera frame.
#[derive(Clone, Copy, Debug, PartialEq, Eq, Structural)]
pub enum CameraBuffer {
    /// The snapshot's position stream.
    Positions,
    /// The snapshot's index stream.
    Indices,
    /// The frame's camera/material uniform.
    Uniform,
    /// The snapshot's texture-coordinate stream.
    TextureCoordinates,
    /// The snapshot's normal stream.
    Normals,
    /// The snapshot's vertex-color stream.
    Colors,
}

/// Where the initial access state of a bound buffer comes from.
#[derive(Clone, Copy, Debug, PartialEq, Eq, Structural)]
pub enum InitialAccess {
    /// The outgoing state retained by the uploaded snapshot stream.
    Retained,
    /// The copy-destination state the uniform upload leaves.
    CopyDestination,
}

impl CameraBuffer {
    /// The source of this buffer's initial access state: the uniform starts
    /// as a copy destination, every snapshot stream in its retained state.
    pub fn initial_access(self) -> (access: InitialAccess)
        ensures
            access == (if self == CameraBuffer::Uniform {
                InitialAccess::CopyDestination
            } else {
                InitialAccess::Retained
            }),
    {
        match self {
            CameraBuffer::Uniform => InitialAccess::CopyDestination,
            _ => InitialAccess::Retained,
        }
    }
}

/// The optional imports of a camera frame.
#[derive(Clone, Copy, Debug, PartialEq, Eq, Structural)]
pub struct CameraImports {
    /// A texture-coordinate stream is imported.
    pub texture_coordinates: bool,
    /// A normal stream is imported.
    pub normals: bool,
    /// A vertex-color stream is imported.
    pub colors: bool,
    /// A base-color texture is imported.
    pub texture: bool,
}

/// The buffer a camera frame binds to the identity `id`.
pub open spec fn spec_camera_buffer(imports: CameraImports, id: u64) -> Result<
    CameraBuffer,
    (FrameBindingErrorKind, Seq<char>),
> {
    if id == 0x0210_0001 {
        Ok(CameraBuffer::Positions)
    } else if id == 0x0210_0002 {
        Ok(CameraBuffer::Indices)
    } else if id == 0x0220_0003 {
        Ok(CameraBuffer::Uniform)
    } else if id == 0x0240_0003 {
        if imports.texture_coordinates {
            Ok(CameraBuffer::TextureCoordinates)
        } else {
            Err(
                (
                    FrameBindingErrorKind::MissingBuffer,
                    "camera frame has no texture-coordinate import"@,
                ),
            )
        }
    } else if id == 0x0270_0004 {
        if imports.normals {
            Ok(CameraBuffer::Normals)
        } else {
            Err((FrameBindingErrorKind::MissingBuffer, "camera frame has no normal import"@))
        }
    } else if id == 0x0280_0004 {
        if imports.colors {
            Ok(CameraBuffer::Colors)
        } else {
            Err((FrameBindingErrorKind::MissingBuffer, "camera frame has no vertex-color import"@))
        }
    } else {
        Err((FrameBindingErrorKind::MissingBuffer, "unknown camera frame buffer"@))
    }
}

/// Resolves a buffer identity of a camera frame.
pub fn camera_buffer(imports: CameraImports, id: BufferBindingId) -> (result: Result<
    CameraBuffer,
    FrameBindingError,
>)
    ensures
        resolves_as(result, spec_camera_buffer(imports, id@)),
{
    if id.value() == position_binding().value() {
        Ok(CameraBuffer::Positions)
    } else if id.value() == index_binding().value() {
        Ok(CameraBuffer::Indices)
    } else if id.value() == uniform_binding().value() {
        Ok(CameraBuffer::Uniform)
    } else if id.value() == texture_coordinate_binding().value() {
        if imports.texture_coordinates {
            Ok(CameraBuffer::TextureCoordinates)
        } else {
            Err(
                missing_binding(
                    FrameBindingErrorKind::MissingBuffer,
                    "camera frame has no texture-coordinate import",
                ),
            )
        }
    } else if id.value() == normal_binding().value() {
        if imports.normals {
            Ok(CameraBuffer::Normals)
        } else {
            Err(
                missing_binding(
                    FrameBindingErrorKind::MissingBuffer,
                    "camera frame has no normal import",
                ),
            )
        }
    } else if id.value() == vertex_color_binding().value() {
        if imports.colors {
            Ok(CameraBuffer::Colors)
        } else {
            Err(
                missing_binding(
                    FrameBindingErrorKind::MissingBuffer,
                    "camera frame has no vertex-color import",
                ),
            )
        }
    } else {
        Err(missing_binding(FrameBindingErrorKind::MissingBuffer, "unknown camera frame buffer"))
    }
}

/// The texture a camera frame binds to the identity `id`.
pub open spec fn spec_camera_texture(imports: CameraImports, id: u64) -> Result<
    (),
    (FrameBindingErrorKind, Seq<char>),
> {
    if !imports.texture {
        Err((FrameBindingErrorKind::MissingTexture, "camera frame has no texture imports"@))
    } else if id != 0x0230_0004 {
        Err((FrameBindingErrorKind::MissingTexture, "unknown camera frame texture"@))
    } else {
        Ok(())
    }
}

/// Resolves a texture identity of a camera frame: only the base-color
/// texture, and only when one is imported.
pub fn camera_texture(imports: CameraImports, id: TextureBindingId) -> (result: Result<
    (),
    FrameBindingError,
>)
    ensures
        resolves_as(result, spec_camera_texture(imports, id@)),
{
    if !imports.texture {
        return Err(
            missing_binding(
                FrameBindingErrorKind::MissingTexture,
                "camera frame has no texture imports",
            ),
        );
    }
    if id.value() != texture_binding().value() {
        return Err(
            missing_binding(FrameBindingErrorKind::MissingTexture, "unknown camera frame texture"),
        );
    }
    Ok(())
}

/// The buffer a legacy fixed frame binds to the identity `id`: only the
/// snapshot's positions and indices.
pub open spec fn spec_fixed_frame_buffer(id: u64) -> Result<
    CameraBuffer,
    (FrameBindingErrorKind, Seq<char>),
> {
    if id == 0x0210_0001 {
        Ok(CameraBuffer::Positions)
    } else if id == 0x0210_0002 {
        Ok(CameraBuffer::Indices)
    } else {
        Err((FrameBindingErrorKind::MissingBuffer, "unknown fixed frame buffer"@))
    }
}

/// Resolves a buffer identity of a legacy fixed frame.
pub fn fixed_frame_buffer(id: BufferBindingId) -> (result: Result<CameraBuffer, FrameBindingError>)
    ensures
        resolves_as(result, spec_fixed_frame_buffer(id@)),
{
    if id.value() == position_binding().value() {
        Ok(CameraBuffer::Positions)
    } else if id.value() == index_binding().value() {
        Ok(CameraBuffer::Indices)
    } else {
        Err(missing_binding(FrameBindingErrorKind::MissingBuffer, "unknown fixed frame buffer"))
    }
}

/// Resolves a texture identity of a legacy fixed frame, which imports none.
pub fn fixed_frame_texture(id: TextureBindingId) -> (error: FrameBindingError)
    ensures
        error.kind == FrameBindingErrorKind::MissingTexture,
        error.detail@ == "fixed frame has no texture imports"@,
{
    missing_binding(FrameBindingErrorKind::MissingTexture, "fixed frame has no texture imports")
}

/// The packet-owned buffer that a packet binding identity selects.
#[derive(Clone, Copy, Debug, PartialEq, Eq, Structural)]
pub enum PacketBufferSource {
    /// The position stream of the snapshot of draw `draw`.
    Positions {
        /// Insertion index of the draw whose snapshot is imported.
        draw: usize,
    },
    /// The index stream of the snapshot of draw `draw`.
    Indices {
        /// Insertion index of the draw whose snapshot is imported.
        draw: usize,
    },
    /// The finalized uniform of draw `draw`.
    Uniform {
        /// Insertion index of the draw.
        draw: usize,
    },
}

/// One snapshot imported by a packet graph: the draw it came from and the
/// identities of its position and index buffers.
#[derive(Clone, Copy, Debug, PartialEq, Eq, Structural)]
pub struct PacketSnapshotImport {
    /// Insertion index of the draw whose snapshot is imported.
    pub source_draw: usize,
    /// Identity of the imported position buffer.
    pub position_binding: BufferBindingId,
    /// Identity of the imported index buffer.
    pub index_binding: BufferBindingId,
}

/// The bindings a packet graph emits, in order: each imported snapshot's
/// positions then indices, then one uniform per draw.
pub open spec fn packet_entries(
    snapshots: Seq<PacketSnapshotImport>,
    uniforms: Seq<BufferBindingId>,
) -> Seq<(u64, PacketBufferSource)> {
    Seq::new(
        2 * snapshots.len() + uniforms.len(),
        |k: int|
            if k < 2 * snapshots.len() {
                let snapshot = snapshots[k / 2];
                if k % 2 == 0 {
                    (snapshot.position_binding@, PacketBufferSource::Positions { draw: snapshot.source_draw })
                } else {
                    (snapshot.index_binding@, PacketBufferSource::Indices { draw: snapshot.source_draw })
                }
            } else {
                let i = k - 2 * snapshots.len();
                (uniforms[i]@, PacketBufferSource::Uniform { draw: i as usize })
            },
    )
}

/// No two bindings share an identity.
pub open spec fn distinct_bindings(entries: Seq<(u64, PacketBufferSource)>) -> bool {
    forall|i: int, j: int| 0 <= i < j < entries.len() ==> entries[i].0 != entries[j].0
}

/// The map from identity to buffer that the bindings build, in order.
pub open spec fn entries_map(entries: Seq<(u64, PacketBufferSource)>) -> Map<u64, PacketBufferSource>
    decreases entries.len(),
{
    if entries.len() == 0 {
        Map::empty()
    } else {
        entries_map(entries.drop_last()).insert(entries.last().0, entries.last().1)
    }
}

/// The identities the map holds are exactly those of the bindings.
pub proof fn lemma_entries_map_domain(entries: Seq<(u64, PacketBufferSource)>, key: u64)
    ensures
        entries_map(entries).contains_key(key) <==> exists|i: int|
            0 <= i < entries.len() && #[trigger] entries[i].0 == key,
    decreases entries.len(),
{
    if entries.len() > 0 {
        let rest = entries.drop_last();
        lemma_entries_map_domain(rest, key);
        if entries_map(entries).contains_key(key) && key != entries.last().0 {
            let i = choose|i: int| 0 <= i < rest.len() && #[trigger] rest[i].0 == key;
            assert(entries[i].0 == key);
        }
        if exists|i: int| 0 <= i < entries.len() && #[trigger] entries[i].0 == key {
            let i = choose|i: int| 0 <= i < entries.len() && #[trigger] entries[i].0 == key;
            if i < entries.len() - 1 {
                assert(rest[i].0 == key);
            }
        }
    }
}

/// With distinct identities, every binding resolves to its own buffer.
pub proof fn lemma_every_binding_resolves(entries: Seq<(u64, PacketBufferSource)>, i: int)
    requires
        distinct_bindings(entries),
        0 <= i < entries.len(),
    ensures
        entries_map(entries).contains_key(entries[i].0),
        entries_map(entries)[entries[i].0] == entries[i].1,
    decreases entries.len(),
{
    let rest = entries.drop_last();
    if i < entries.len() - 1 {
        assert(distinct_bindings(rest));
        lemma_every_binding_resolves(rest, i);
        assert(rest[i] == entries[i]);
        assert(entries[i].0 != entries.last().0);
    }
}

/// Records one binding, which must not have been recorded before.
fn insert_buffer(
    buffers: &mut HashMapWithView<u64, PacketBufferSource>,
    binding: BufferBindingId,
    source: PacketBufferSource,
)
    requires
        !old(buffers)@.contains_key(binding@),
    ensures
        final(buffers)@ == old(buffers)@.insert(binding@, source),
{
    buffers.insert(binding.value(), source);
}

/// Resolves the private buffer identities of one compiled packet graph.
pub struct PacketResources {
    device: u64,
    buffers: HashMapWithView<u64, PacketBufferSource>,
}

impl PacketResources {
    /// The packet device.
    pub closed spec fn spec_device(&self) -> u64 {
        self.device
    }

    /// The buffer each binding identity selects.
    pub closed spec fn spec_buffers(&self) -> Map<u64, PacketBufferSource> {
        self.buffers@
    }

    /// Retains exactly the buffers selected by one compiled packet graph:
    /// the imported snapshots' streams and one uniform per draw. The graph
    /// emits every identity once.
    pub fn new(
        device: u64,
        snapshots: &[PacketSnapshotImport],
        uniform_bindings: &[BufferBindingId],
    ) -> (resources: Self)
        requires
            distinct_bindings(packet_entries(snapshots@, uniform_bindings@)),
        ensures
            resources.spec_device() == device,
            resources.spec_buffers() == entries_map(packet_entries(snapshots@, uniform_bindings@)),
    {
        broadcast use vstd::std_specs::hash::axiom_u64_obeys_hash_table_key_model;

        let ghost entries = packet_entries(snapshots@, uniform_bindings@);
        let mut buffers: HashMapWithView<u64, PacketBufferSource> = HashMapWithView::new();
        let mut i: usize = 0;
        while i < snapshots.len()
            invariant
                i <= snapshots@.len(),
                entries == packet_entries(snapshots@, uniform_bindings@),
                distinct_bindings(entries),
                buffers@ == entries_map(entries.subrange(0, 2 * i as int)),
            decreases snapshots@.len() - i,
        {
            let snapshot = snapshots[i];
            let ghost k = 2 * i as int;
            proof {
                assert(entries[k] == (snapshot.position_binding@, PacketBufferSource::Positions {
                    draw: snapshot.source_draw,
                }));
                lemma_entries_map_domain(entries.subrange(0, k), snapshot.position_binding@);
                assert forall|j: int| 0 <= j < k implies #[trigger] entries.subrange(0, k)[j].0
                    != snapshot.position_binding@ by {
                    assert(entries.subrange(0, k)[j] == entries[j]);
                }
                assert(entries.subrange(0, k + 1).drop_last() =~= entries.subrange(0, k));
            }
            insert_buffer(
                &mut buffers,
                snapshot.position_binding,
                PacketBufferSource::Positions { draw: snapshot.source_draw },
            );
            proof {
                assert(entries[k + 1] == (snapshot.index_binding@, PacketBufferSource::Indices {
                    draw: snapshot.source_draw,
                }));
                lemma_entries_map_domain(entries.subrange(0, k + 1), snapshot.index_binding@);
                assert forall|j: int| 0 <= j < k + 1 implies #[trigger] entries.subrange(
                    0,
                    k + 1,
                )[j].0 != snapshot.index_binding@ by {
                    assert(entries.subrange(0, k + 1)[j] == entries[j]);
                }
                assert(entries.subrange(0, k + 2).drop_last() =~= entries.subrange(0, k + 1));
            }
            insert_buffer(
                &mut buffers,
                snapshot.index_binding,
                PacketBufferSource::Indices { draw: snapshot.source_draw },
            );
            i = i + 1;
        }
        let ghost base = 2 * snapshots@.len();
        let mut d: usize = 0;
        while d < uniform_bindings.len()
            invariant
                d <= uniform_bindings@.len(),
                base == 2 * snapshots@.len(),
                entries == packet_entries(snapshots@, uniform_bindings@),
                distinct_bindings(entries),
                buffers@ == entries_map(entries.subrange(0, base + d)),
            decreases uniform_bindings@.len() - d,
        {
            let binding = uniform_bindings[d];
            let ghost k = base + d;
            proof {
                assert(entries[k] == (binding@, PacketBufferSource::Uniform { draw: d }));
                lemma_entries_map_domain(entries.subrange(0, k), binding@);
                assert forall|j: int| 0 <= j < k implies #[trigger] entries.subrange(0, k)[j].0
                    != binding@ by {
                    assert(entries.subrange(0, k)[j] == entries[j]);
                }
                assert(entries.subrange(0, k + 1).drop_last() =~= entries.subrange(0, k));
            }
            insert_buffer(&mut buffers, binding, PacketBufferSource::Uniform { draw: d });
            d = d + 1;
        }
        assert(entries.subrange(0, entries.len() as int) =~= entries);
        Self { device, buffers }
    }

    /// Resolves a buffer identity of the packet graph.
    pub fn buffer(&self, id: BufferBindingId) -> (result: Result<PacketBufferSource, FrameBindingError>)
        ensures
            resolves_as(
                result,
                if self.spec_buffers().contains_key(id@) {
                    Ok(self.spec_buffers()[id@])
                } else {
                    Err((FrameBindingErrorKind::MissingBuffer, "unknown packet buffer binding"@))
                },
            ),
    {
        match self.buffers.get(&id.value()) {
            Some(source) => Ok(*source),
            None => Err(
                missing_binding(FrameBindingErrorKind::MissingBuffer, "unknown packet buffer binding"),
            ),
        }
    }

    /// Resolves a texture identity of the packet graph, which imports none.
    pub fn texture(&self, id: TextureBindingId) -> (error: FrameBindingError)
        ensures
            error.kind == FrameBindingErrorKind::MissingTexture,
            error.detail@ == "legacy packet graph has no texture imports"@,
    {
        missing_binding(
            FrameBindingErrorKind::MissingTexture,
            "legacy packet graph has no texture imports",
        )
    }
}

/// A camera frame binds its six stream identities to six different
/// buffers: positions, indices and the uniform always; texture coordinates,
/// normals and colors only when imported, each reported missing otherwise;
/// every other identity is missing.
pub proof fn lemma_camera_frame_streams(imports: CameraImports, id: u64)
    ensures
        spec_camera_buffer(imports, 0x0210_0001) == Ok::<_, (FrameBindingErrorKind, Seq<char>)>(
            CameraBuffer::Positions,
        ),
        spec_camera_buffer(imports, 0x0210_0002) == Ok::<_, (FrameBindingErrorKind, Seq<char>)>(
            CameraBuffer::Indices,
        ),
        spec_camera_buffer(imports, 0x0220_0003) == Ok::<_, (FrameBindingErrorKind, Seq<char>)>(
            CameraBuffer::Uniform,
        ),
        spec_camera_buffer(imports, 0x0240_0003) is Ok <==> imports.texture_coordinates,
        imports.texture_coordinates ==> spec_camera_buffer(imports, 0x0240_0003) == Ok::<
            _,
            (FrameBindingErrorKind, Seq<char>),
        >(CameraBuffer::TextureCoordinates),
        spec_camera_buffer(imports, 0x0270_0004) is Ok <==> imports.normals,
        imports.normals ==> spec_camera_buffer(imports, 0x0270_0004) == Ok::<
            _,
            (FrameBindingErrorKind, Seq<char>),
        >(CameraBuffer::Normals),
        spec_camera_buffer(imports, 0x0280_0004) is Ok <==> imports.colors,
        imports.colors ==> spec_camera_buffer(imports, 0x0280_0004) == Ok::<
            _,
            (FrameBindingErrorKind, Seq<char>),
        >(CameraBuffer::Colors),
        id != 0x0210_0001 && id != 0x0210_0002 && id != 0x0220_0003 && id != 0x0240_0003 && id
            != 0x0270_0004 && id != 0x0280_0004 ==> (spec_camera_buffer(imports, id) matches Err(
            missing,
        ) && missing.0 == FrameBindingErrorKind::MissingBuffer),
        spec_camera_buffer(imports, id) matches Err(missing) ==> missing.0
            == FrameBindingErrorKind::MissingBuffer,
{
}

} // verus!
