use fluxel_renderer::fixed_frame::ids::{
    index_binding, normal_binding, position_binding, texture_binding, texture_coordinate_binding,
    uniform_binding, vertex_color_binding, BufferBindingId, TextureBindingId,
};
use fluxel_renderer::fixed_frame::import_plan::plan_packet_imports;
use fluxel_renderer::fixed_frame::provider::{
    camera_buffer, camera_texture, fixed_frame_buffer, fixed_frame_texture, CameraBuffer,
    CameraImports, FrameBindingErrorKind, InitialAccess, PacketBufferSource, PacketResources,
    PacketSnapshotImport,
};

const UNTEXTURED: CameraImports = CameraImports {
    texture_coordinates: false,
    normals: false,
    colors: false,
    texture: false,
};

#[test]
fn camera_frame_resolves_fixed_stream_identities() {
    assert_eq!(camera_buffer(UNTEXTURED, position_binding()), Ok(CameraBuffer::Positions));
    assert_eq!(camera_buffer(UNTEXTURED, index_binding()), Ok(CameraBuffer::Indices));
    assert_eq!(camera_buffer(UNTEXTURED, uniform_binding()), Ok(CameraBuffer::Uniform));
    let missing = camera_buffer(UNTEXTURED, normal_binding()).unwrap_err();
    assert_eq!(missing.kind, FrameBindingErrorKind::MissingBuffer);
    assert_eq!(missing.detail, "camera frame has no normal import");
    let lambert = CameraImports {
        normals: true,
        ..UNTEXTURED
    };
    assert_eq!(camera_buffer(lambert, normal_binding()), Ok(CameraBuffer::Normals));
    assert_eq!(
        camera_buffer(lambert, vertex_color_binding()).unwrap_err().detail,
        "camera frame has no vertex-color import"
    );
    assert_eq!(
        camera_buffer(lambert, texture_coordinate_binding()).unwrap_err().detail,
        "camera frame has no texture-coordinate import"
    );
    assert_eq!(
        camera_buffer(lambert, BufferBindingId::new(7)).unwrap_err().detail,
        "unknown camera frame buffer"
    );
    assert_eq!(CameraBuffer::Uniform.initial_access(), InitialAccess::CopyDestination);
    assert_eq!(CameraBuffer::Normals.initial_access(), InitialAccess::Retained);
}

#[test]
fn camera_frame_texture_requires_the_base_color_import() {
    let textured = CameraImports {
        texture_coordinates: true,
        texture: true,
        ..UNTEXTURED
    };
    assert_eq!(camera_texture(textured, texture_binding()), Ok(()));
    let unknown = camera_texture(textured, TextureBindingId::new(1)).unwrap_err();
    assert_eq!(unknown.kind, FrameBindingErrorKind::MissingTexture);
    assert_eq!(unknown.detail, "unknown camera frame texture");
    assert_eq!(
        camera_texture(UNTEXTURED, texture_binding()).unwrap_err().detail,
        "camera frame has no texture imports"
    );
}

#[test]
fn legacy_fixed_frame_binds_only_positions_and_indices() {
    assert_eq!(fixed_frame_buffer(position_binding()), Ok(CameraBuffer::Positions));
    assert_eq!(fixed_frame_buffer(index_binding()), Ok(CameraBuffer::Indices));
    assert_eq!(
        fixed_frame_buffer(uniform_binding()).unwrap_err().detail,
        "unknown fixed frame buffer"
    );
    assert_eq!(
        fixed_frame_texture(texture_binding()).detail,
        "fixed frame has no texture imports"
    );
}

#[test]
fn packet_resources_resolve_each_emitted_binding() {
    let snapshots = [
        PacketSnapshotImport {
            source_draw: 0,
            position_binding: BufferBindingId::new(0x0290_0000_0000_0000),
            index_binding: BufferBindingId::new(0x0290_0000_0000_0001),
        },
        PacketSnapshotImport {
            source_draw: 2,
            position_binding: BufferBindingId::new(0x0290_0000_0000_0002),
            index_binding: BufferBindingId::new(0x0290_0000_0000_0003),
        },
    ];
    let uniforms = [
        BufferBindingId::new(0x0290_0000_0000_0004),
        BufferBindingId::new(0x0290_0000_0000_0005),
        BufferBindingId::new(0x0290_0000_0000_0006),
    ];
    let resources = PacketResources::new(9, &snapshots, &uniforms);
    assert_eq!(
        resources.buffer(BufferBindingId::new(0x0290_0000_0000_0003)),
        Ok(PacketBufferSource::Indices { draw: 2 })
    );
    assert_eq!(
        resources.buffer(BufferBindingId::new(0x0290_0000_0000_0000)),
        Ok(PacketBufferSource::Positions { draw: 0 })
    );
    assert_eq!(
        resources.buffer(BufferBindingId::new(0x0290_0000_0000_0005)),
        Ok(PacketBufferSource::Uniform { draw: 1 })
    );
    let unknown = resources.buffer(position_binding()).unwrap_err();
    assert_eq!(unknown.kind, FrameBindingErrorKind::MissingBuffer);
    assert_eq!(unknown.detail, "unknown packet buffer binding");
    assert_eq!(
        resources.texture(texture_binding()).detail,
        "legacy packet graph has no texture imports"
    );
}

#[test]
fn repeated_generations_share_one_import_pair_and_every_draw_has_its_uniform() {
    const FIRST: u64 = 0x0290_0000_0000_0000;
    let plan = plan_packet_imports(&[7, 9, 7, 7]).unwrap();
    assert_eq!(
        plan.snapshots,
        vec![
            PacketSnapshotImport {
                source_draw: 0,
                position_binding: BufferBindingId::new(FIRST),
                index_binding: BufferBindingId::new(FIRST + 1),
            },
            PacketSnapshotImport {
                source_draw: 1,
                position_binding: BufferBindingId::new(FIRST + 3),
                index_binding: BufferBindingId::new(FIRST + 4),
            },
        ]
    );
    assert_eq!(plan.draw_snapshots, vec![0, 1, 0, 0]);
    assert_eq!(
        plan.uniform_bindings,
        vec![
            BufferBindingId::new(FIRST + 2),
            BufferBindingId::new(FIRST + 5),
            BufferBindingId::new(FIRST + 6),
            BufferBindingId::new(FIRST + 7),
        ]
    );

    let resources = PacketResources::new(3, &plan.snapshots, &plan.uniform_bindings);
    assert_eq!(
        resources.buffer(BufferBindingId::new(FIRST + 4)),
        Ok(PacketBufferSource::Indices { draw: 1 })
    );
    assert_eq!(
        resources.buffer(BufferBindingId::new(FIRST + 7)),
        Ok(PacketBufferSource::Uniform { draw: 3 })
    );

    let empty = plan_packet_imports(&[]).unwrap();
    assert!(empty.snapshots.is_empty());
    assert!(empty.draw_snapshots.is_empty());
    assert!(empty.uniform_bindings.is_empty());
}
