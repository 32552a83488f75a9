use fluxel_renderer::scene::Geometry;
use fluxel_renderer::upload::coordinator::{
    textured_completion_failure, textured_observation_failure, textured_position_start_error,
    textured_start_failure, textured_unknown_completion_failure, BaseColorTextureUpload,
    BaseColorTextureUploadFailure, BaseColorTextureUploadStatus, CompletionStatus,
    IndexedMeshUpload, IndexedMeshUploadFailure, IndexedMeshUploadStatus, SlotObservation,
    TexturedIndexedMeshUpload, TexturedIndexedMeshUploadFailure,
    TexturedIndexedMeshUploadStartError, TexturedIndexedMeshUploadStatus, TexturedStreamStarts,
};
use fluxel_renderer::upload::image::Rgba8Image;
use fluxel_renderer::upload::payload::IndexedMeshUploadStartError;
use fluxel_renderer::upload::textured::{TexturedGeometry, TexturedGeometryStream};

#[derive(Clone, Debug, PartialEq, Eq)]
enum CompletionFailure {
    DeviceLost,
}

#[derive(Clone, Debug, PartialEq, Eq)]
enum BufferUploadError {
    ForeignDevice,
}

type Observation = SlotObservation<CompletionFailure, BufferUploadError>;

fn bits3(v: [f32; 3]) -> [u32; 3] {
    v.map(f32::to_bits)
}

fn indexed_geometry() -> Geometry {
    Geometry::from_positions(vec![bits3([0.0, 0.0, 0.0]), bits3([1.0, 0.0, 0.0])])
        .with_indices(vec![0, 1, 0])
        .unwrap()
}

fn textured_geometry() -> TexturedGeometry {
    TexturedGeometry::new(
        indexed_geometry(),
        vec![[0, 1.0f32.to_bits()], [1.0f32.to_bits(), 0]],
    )
    .unwrap()
}

#[test]
fn textured_upload_failure_mapping_preserves_stream_and_acceptance_boundary() {
    let rejected = BufferUploadError::ForeignDevice;
    assert_eq!(
        textured_position_start_error(rejected.clone()),
        TexturedIndexedMeshUploadStartError::PositionUpload(rejected.clone())
    );
    assert_eq!(
        textured_start_failure::<CompletionFailure, _>(TexturedGeometryStream::Index, rejected.clone()),
        TexturedIndexedMeshUploadFailure::IndexStartAfterPositionAccepted(rejected.clone())
    );
    assert_eq!(
        textured_start_failure::<CompletionFailure, _>(
            TexturedGeometryStream::TextureCoordinate,
            rejected.clone()
        ),
        TexturedIndexedMeshUploadFailure::TextureCoordinateStartAfterPositionAndIndexAccepted(
            rejected.clone()
        )
    );
    for (stream, expected_completion, expected_observation, expected_unknown) in [
        (
            TexturedGeometryStream::Position,
            TexturedIndexedMeshUploadFailure::PositionCompletion(CompletionFailure::DeviceLost),
            TexturedIndexedMeshUploadFailure::PositionObservation(rejected.clone()),
            TexturedIndexedMeshUploadFailure::PositionUnknownCompletion,
        ),
        (
            TexturedGeometryStream::Index,
            TexturedIndexedMeshUploadFailure::IndexCompletion(CompletionFailure::DeviceLost),
            TexturedIndexedMeshUploadFailure::IndexObservation(rejected.clone()),
            TexturedIndexedMeshUploadFailure::IndexUnknownCompletion,
        ),
        (
            TexturedGeometryStream::TextureCoordinate,
            TexturedIndexedMeshUploadFailure::TextureCoordinateCompletion(
                CompletionFailure::DeviceLost,
            ),
            TexturedIndexedMeshUploadFailure::TextureCoordinateObservation(rejected.clone()),
            TexturedIndexedMeshUploadFailure::TextureCoordinateUnknownCompletion,
        ),
    ] {
        assert_eq!(
            textured_completion_failure::<_, BufferUploadError>(stream, CompletionFailure::DeviceLost),
            expected_completion
        );
        assert_eq!(
            textured_observation_failure::<CompletionFailure, _>(stream, rejected.clone()),
            expected_observation
        );
        assert_eq!(
            textured_unknown_completion_failure::<CompletionFailure, BufferUploadError>(stream),
            expected_unknown
        );
    }
}

#[test]
fn indexed_upload_publishes_once_both_streams_are_finalized() {
    let mut upload: IndexedMeshUpload<CompletionFailure, BufferUploadError> =
        IndexedMeshUpload::begin(41, &indexed_geometry(), || Ok(()), || Ok(())).unwrap();
    assert_eq!(
        upload.poll(Some(Observation::Retained(CompletionStatus::Pending)), None),
        IndexedMeshUploadStatus::Pending
    );
    assert!(upload.ready_snapshot().is_none());
    assert_eq!(
        upload.poll(Some(Observation::Finalized), None),
        IndexedMeshUploadStatus::Pending
    );
    assert!(upload.ready_snapshot().is_none());
    assert_eq!(
        upload.poll(None, Some(Observation::Finalized)),
        IndexedMeshUploadStatus::Ready
    );
    let snapshot = upload.ready_snapshot().unwrap();
    assert_eq!(snapshot.generation(), 41);
    assert_eq!(snapshot.position_count(), 2);
    assert_eq!(snapshot.index_count(), 3);
    assert_eq!(snapshot.index_metadata(), &[0, 1, 0]);
    // Later observations of the retired streams are ignored.
    assert_eq!(
        upload.poll(
            Some(Observation::Unobservable(BufferUploadError::ForeignDevice)),
            Some(Observation::Retained(CompletionStatus::Failed(CompletionFailure::DeviceLost)))
        ),
        IndexedMeshUploadStatus::Ready
    );
}

#[test]
fn indexed_upload_failure_is_terminal_and_first_wins() {
    let mut upload: IndexedMeshUpload<CompletionFailure, BufferUploadError> =
        IndexedMeshUpload::begin(1, &indexed_geometry(), || Ok(()), || Ok(())).unwrap();
    assert_eq!(
        upload.poll(
            Some(Observation::Finalized),
            Some(Observation::Retained(CompletionStatus::Failed(CompletionFailure::DeviceLost)))
        ),
        IndexedMeshUploadStatus::Failed(IndexedMeshUploadFailure::Indices(
            CompletionFailure::DeviceLost
        ))
    );
    assert_eq!(
        upload.poll(None, Some(Observation::Finalized)),
        IndexedMeshUploadStatus::Failed(IndexedMeshUploadFailure::Indices(
            CompletionFailure::DeviceLost
        ))
    );
    assert!(upload.ready_snapshot().is_none());
}

#[test]
fn indexed_upload_ignores_unrecognized_status_and_records_unobservable_positions() {
    let mut upload: IndexedMeshUpload<CompletionFailure, BufferUploadError> =
        IndexedMeshUpload::begin(2, &indexed_geometry(), || Ok(()), || Ok(())).unwrap();
    assert_eq!(
        upload.poll(Some(Observation::Retained(CompletionStatus::Unrecognized)), None),
        IndexedMeshUploadStatus::Pending
    );
    assert_eq!(
        upload.poll(
            Some(Observation::Unobservable(BufferUploadError::ForeignDevice)),
            Some(Observation::Unobservable(BufferUploadError::ForeignDevice))
        ),
        IndexedMeshUploadStatus::Failed(IndexedMeshUploadFailure::PositionCompletion(
            BufferUploadError::ForeignDevice
        ))
    );
}

#[test]
fn indexed_upload_rejects_geometry_that_cannot_be_serialized() {
    let upload: Result<IndexedMeshUpload<CompletionFailure, BufferUploadError>, _> =
        IndexedMeshUpload::begin(
            4,
            &Geometry::from_positions(vec![bits3([0.0; 3])]),
            || panic!("no upload starts for unserializable geometry"),
            || panic!("no upload starts for unserializable geometry"),
        );
    assert_eq!(
        upload.err(),
        Some(IndexedMeshUploadStartError::NonIndexedGeometry)
    );
}

#[test]
fn indexed_upload_index_start_failure_keeps_positions_retained() {
    let mut upload: IndexedMeshUpload<CompletionFailure, BufferUploadError> =
        IndexedMeshUpload::begin(3, &indexed_geometry(), || Ok(()), || Err(BufferUploadError::ForeignDevice))
            .unwrap();
    let expected = IndexedMeshUploadStatus::Failed(
        IndexedMeshUploadFailure::IndexStartAfterPositionsAccepted(BufferUploadError::ForeignDevice),
    );
    assert_eq!(upload.poll(Some(Observation::Finalized), None), expected);
    assert!(upload.ready_snapshot().is_none());
}

#[test]
fn textured_upload_publishes_only_the_complete_triple() {
    let mut upload: TexturedIndexedMeshUpload<CompletionFailure, BufferUploadError> =
        TexturedIndexedMeshUpload::begin(9, &textured_geometry(), TexturedStreamStarts::AllAccepted);
    assert_eq!(
        upload.poll(Some(Observation::Finalized), Some(Observation::Finalized), None),
        TexturedIndexedMeshUploadStatus::Pending
    );
    assert_eq!(
        upload.poll(None, None, Some(Observation::Finalized)),
        TexturedIndexedMeshUploadStatus::Ready
    );
    let snapshot = upload.ready_snapshot().unwrap();
    assert_eq!(snapshot.generation(), 9);
    assert_eq!(snapshot.position_count(), 2);
    assert_eq!(snapshot.index_count(), 3);
    assert_eq!(snapshot.texture_coordinate_metadata().len(), 2);
    assert_eq!(
        snapshot.debug_view().debug_string(),
        "TexturedIndexedMeshSnapshot { generation: 9, position_count: 2, index_count: 3 }"
    );
}

#[test]
fn textured_upload_records_start_and_unknown_failures() {
    let mut index_rejected: TexturedIndexedMeshUpload<CompletionFailure, BufferUploadError> =
        TexturedIndexedMeshUpload::begin(
            4,
            &textured_geometry(),
            TexturedStreamStarts::IndexRejected(BufferUploadError::ForeignDevice),
        );
    assert_eq!(
        index_rejected.poll(Some(Observation::Finalized), None, None),
        TexturedIndexedMeshUploadStatus::Failed(
            TexturedIndexedMeshUploadFailure::IndexStartAfterPositionAccepted(
                BufferUploadError::ForeignDevice
            )
        )
    );
    let mut coordinates_rejected: TexturedIndexedMeshUpload<CompletionFailure, BufferUploadError> =
        TexturedIndexedMeshUpload::begin(
            5,
            &textured_geometry(),
            TexturedStreamStarts::CoordinateRejected(BufferUploadError::ForeignDevice),
        );
    assert_eq!(
        coordinates_rejected.poll(None, None, None),
        TexturedIndexedMeshUploadStatus::Failed(
            TexturedIndexedMeshUploadFailure::TextureCoordinateStartAfterPositionAndIndexAccepted(
                BufferUploadError::ForeignDevice
            )
        )
    );
    let mut unknown: TexturedIndexedMeshUpload<CompletionFailure, BufferUploadError> =
        TexturedIndexedMeshUpload::begin(6, &textured_geometry(), TexturedStreamStarts::AllAccepted);
    assert_eq!(
        unknown.poll(
            None,
            Some(Observation::Retained(CompletionStatus::Unrecognized)),
            Some(Observation::Retained(CompletionStatus::Failed(CompletionFailure::DeviceLost)))
        ),
        TexturedIndexedMeshUploadStatus::Failed(
            TexturedIndexedMeshUploadFailure::IndexUnknownCompletion
        )
    );
}

#[test]
fn base_color_texture_upload_publishes_on_finalize() {
    let image = Rgba8Image::new([3, 2], vec![0; 24]).unwrap();
    let mut upload: BaseColorTextureUpload<CompletionFailure, BufferUploadError> =
        BaseColorTextureUpload::begin(17, &image);
    assert_eq!(
        upload.poll(Some(Observation::Retained(CompletionStatus::Complete))),
        BaseColorTextureUploadStatus::Pending
    );
    assert_eq!(
        upload.poll(Some(Observation::Finalized)),
        BaseColorTextureUploadStatus::Ready
    );
    let snapshot = upload.ready_snapshot().unwrap();
    assert_eq!(snapshot.generation(), 17);
    assert_eq!(snapshot.extent(), [3, 2]);
    assert_eq!(
        snapshot.debug_view().debug_string(),
        "BaseColorTextureSnapshot { generation: 17, extent: [3, 2] }"
    );
}

#[test]
fn base_color_texture_upload_failures_are_terminal() {
    let image = Rgba8Image::new([1, 1], vec![0; 4]).unwrap();
    let mut upload: BaseColorTextureUpload<CompletionFailure, BufferUploadError> =
        BaseColorTextureUpload::begin(2, &image);
    assert_eq!(
        upload.poll(Some(Observation::Retained(CompletionStatus::Unrecognized))),
        BaseColorTextureUploadStatus::Failed(BaseColorTextureUploadFailure::UnknownCompletionStatus)
    );
    assert_eq!(
        upload.poll(Some(Observation::Unobservable(BufferUploadError::ForeignDevice))),
        BaseColorTextureUploadStatus::Failed(BaseColorTextureUploadFailure::UnknownCompletionStatus)
    );
    assert_eq!(
        upload.poll(Some(Observation::Finalized)),
        BaseColorTextureUploadStatus::Failed(BaseColorTextureUploadFailure::UnknownCompletionStatus)
    );

    let mut lost: BaseColorTextureUpload<CompletionFailure, BufferUploadError> =
        BaseColorTextureUpload::begin(3, &image);
    assert_eq!(
        lost.poll(Some(Observation::Retained(CompletionStatus::Failed(
            CompletionFailure::DeviceLost
        )))),
        BaseColorTextureUploadStatus::Failed(BaseColorTextureUploadFailure::Completion(
            CompletionFailure::DeviceLost
        ))
    );
}

#[test]
fn indexed_upload_position_rejection_is_the_start_error_and_starts_no_index_upload() {
    let index_starts = std::cell::Cell::new(0);
    let upload: Result<IndexedMeshUpload<CompletionFailure, BufferUploadError>, _> =
        IndexedMeshUpload::begin(
            5,
            &indexed_geometry(),
            || Err(BufferUploadError::ForeignDevice),
            || {
                index_starts.set(index_starts.get() + 1);
                Ok(())
            },
        );
    assert_eq!(
        upload.err(),
        Some(IndexedMeshUploadStartError::PositionUpload(BufferUploadError::ForeignDevice))
    );
    assert_eq!(index_starts.get(), 0);
    assert_eq!(
        IndexedMeshUploadStartError::PositionUpload(BufferUploadError::ForeignDevice).message(),
        "position upload did not start"
    );
}
