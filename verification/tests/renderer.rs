use novade_system::compositor::renderer_interface::{
    BufferCoordSpace, LogicalCoordSpace, PhysicalCoordSpace, PlaceholderDmabuf,
    PlaceholderFrameInfo, PlaceholderImportDma, PlaceholderRectangle, PlaceholderRendererFormat,
    PlaceholderScale, PlaceholderSize, PlaceholderTransform, PlaceholderWlShmBuffer,
    RendererError,
};
use novade_system::compositor::{CompositorError, CompositorResult};

fn details() -> String {
    "out of luck".to_string()
}

#[test]
fn context_creation_message() {
    let error = RendererError::ContextCreationFailed { details: details() };
    assert_eq!(error.message(), "Context creation failed: out of luck");
    assert_eq!(error.source(), None);
}

#[test]
fn shader_compilation_message() {
    let error = RendererError::ShaderCompilationFailed {
        shader_type: "fragment".to_string(),
        details: details(),
    };
    assert_eq!(error.message(), "Shader (fragment) compilation failed: out of luck");
    assert_eq!(error.source(), None);
}

#[test]
fn texture_upload_message() {
    let error = RendererError::TextureUploadFailed { details: details() };
    assert_eq!(error.message(), "Texture upload failed: out of luck");
}

#[test]
fn buffer_import_message() {
    let error = RendererError::BufferImportFailed { details: details() };
    assert_eq!(error.message(), "Buffer import failed: out of luck");
}

#[test]
fn resource_allocation_message() {
    let error = RendererError::ResourceAllocationFailed { details: details() };
    assert_eq!(error.message(), "Resource allocation failed: out of luck");
}

#[test]
fn invalid_operation_message() {
    let error = RendererError::InvalidOperation { details: "no frame begun".to_string() };
    assert_eq!(error.message(), "Invalid operation: no frame begun");
    assert_eq!(error.source(), None);
}

#[test]
fn presentation_message() {
    let error = RendererError::PresentationFailed { details: String::new() };
    assert_eq!(error.message(), "Presentation failed: ");
}

#[test]
fn backend_specific_message_with_and_without_cause() {
    let bare = RendererError::BackendSpecificError { details: details(), source: None };
    assert_eq!(bare.message(), "Backend-specific error: out of luck");
    assert_eq!(bare.source(), None);

    let caused = RendererError::BackendSpecificError {
        details: details(),
        source: Some("device lost".to_string()),
    };
    assert_eq!(caused.message(), "Backend-specific error: out of luck (Source: device lost)");
    assert_eq!(caused.source(), Some(&"device lost".to_string()));
}

#[test]
fn sizes_and_rectangles_keep_their_numbers() {
    let size: PlaceholderSize<i32, PhysicalCoordSpace> = PlaceholderSize::new(1920, 1080);
    assert_eq!((size.w, size.h), (1920, 1080));
    let copy = size.clone();
    assert_eq!(copy, size);

    let rectangle: PlaceholderRectangle<i32, LogicalCoordSpace> =
        PlaceholderRectangle::new(-5, 7, 30, 40);
    assert_eq!((rectangle.x, rectangle.y, rectangle.w, rectangle.h), (-5, 7, 30, 40));
    let damage: PlaceholderRectangle<i32, BufferCoordSpace> = PlaceholderRectangle::new(0, 0, 1, 1);
    assert_eq!(damage.clone(), damage);

    let scale = PlaceholderScale { x: 2u32, y: 3u32 };
    assert_eq!(scale, PlaceholderScale { x: 2, y: 3 });
}

#[test]
fn frame_info_defaults_to_nothing_known() {
    let info = PlaceholderFrameInfo::default();
    assert_eq!(info.presentation_time, None);
    assert_eq!(info.flags, 0);
}

#[test]
fn buffer_handles_and_formats() {
    let shm = PlaceholderWlShmBuffer { id: 4 };
    let dma = PlaceholderDmabuf { planes_count: 2 };
    assert_eq!((shm.id, dma.planes_count), (4, 2));
    let import = PlaceholderImportDma {
        supported_formats: vec![
            PlaceholderRendererFormat::Argb8888,
            PlaceholderRendererFormat::Xrgb8888,
        ],
    };
    assert!(import.supported_formats.contains(&PlaceholderRendererFormat::Xrgb8888));
    assert!(!import.supported_formats.contains(&PlaceholderRendererFormat::Rgba8888));
    assert_ne!(PlaceholderTransform::Normal, PlaceholderTransform::Flipped);
}

#[test]
fn compositor_error_carries_its_reason() {
    let failed: CompositorResult<u32> =
        Err(CompositorError::InitializationFailed("no display".to_string()));
    match failed {
        Err(CompositorError::InitializationFailed(reason)) => assert_eq!(reason, "no display"),
        Ok(_) => panic!("an error was expected"),
    }
}
