//! The vocabulary shared with a rendering backend: pixel formats, sizes,
//! rectangles and transforms in their coordinate spaces, buffer handles,
//! frame information, and the errors that a backend reports.
//!
//! The backend itself is not part of this library. It is driven once per
//! output and frame: it begins a frame, is handed render elements any number
//! of times, each batch drawn over what is there, and finishes the frame.

use core::marker::PhantomData;
use core::time::Duration;
use vstd::prelude::*;
use vstd::string::StringExecFns;

verus! {

/// A pixel format.
#[derive(Debug, Clone, Copy, PartialEq, Eq, Structural)]
pub enum PlaceholderRendererFormat {
    Argb8888,
    Xrgb8888,
    Rgbx8888,
    Rgba8888,
}

/// What a rendering backend can fail at.
///
/// Setup failures (context, shader) are permanent, import and upload
/// failures concern one resource, and presentation failures one frame.
#[derive(Debug, Clone, PartialEq, Eq)]
pub enum RendererError {
    /// The graphics context could not be created.
    ContextCreationFailed { details: String },
    /// A shader of kind `shader_type` did not compile.
    ShaderCompilationFailed { shader_type: String, details: String },
    /// Pixel data could not be uploaded to a texture.
    TextureUploadFailed { details: String },
    /// A buffer could not be imported.
    BufferImportFailed { details: String },
    /// A resource could not be allocated.
    ResourceAllocationFailed { details: String },
    /// The operation is not allowed in the renderer's current state, such
    /// as drawing outside a begun frame.
    InvalidOperation { details: String },
    /// The finished frame could not be presented.
    PresentationFailed { details: String },
    /// A failure particular to the backend, with the description of the
    /// underlying cause where there is one.
    BackendSpecificError { details: String, source: Option<String> },
}

impl RendererError {
    /// The text that describes the error.
    pub open spec fn description(&self) -> Seq<char> {
        match *self {
            RendererError::ContextCreationFailed { details } => "Context creation failed: "@
                + details@,
            RendererError::ShaderCompilationFailed { shader_type, details } => "Shader ("@
                + shader_type@ + ") compilation failed: "@ + details@,
            RendererError::TextureUploadFailed { details } => "Texture upload failed: "@
                + details@,
            RendererError::BufferImportFailed { details } => "Buffer import failed: "@ + details@,
            RendererError::ResourceAllocationFailed {
                details,
            } => "Resource allocation failed: "@ + details@,
            RendererError::InvalidOperation { details } => "Invalid operation: "@ + details@,
            RendererError::PresentationFailed { details } => "Presentation failed: "@ + details@,
            RendererError::BackendSpecificError { details, source } => match source {
                Some(cause) => "Backend-specific error: "@ + details@ + " (Source: "@ + cause@
                    + ")"@,
                None => "Backend-specific error: "@ + details@,
            },
        }
    }

    /// The description of the underlying cause, which only a
    /// backend-specific error may have.
    pub open spec fn cause(&self) -> Option<Seq<char>> {
        match *self {
            RendererError::BackendSpecificError { source: Some(cause), .. } => Some(cause@),
            _ => None,
        }
    }

    /// The text that describes the error.
    pub fn message(&self) -> (text: String)
        ensures
            text@ == self.description(),
    {
        match self {
            RendererError::ContextCreationFailed { details } => labelled(
                "Context creation failed: ",
                details,
            ),
            RendererError::ShaderCompilationFailed { shader_type, details } => {
                let mut text = labelled("Shader (", shader_type);
                text.append(") compilation failed: ");
                text.append(details.as_str());
                text
            },
            RendererError::TextureUploadFailed { details } => labelled(
                "Texture upload failed: ",
                details,
            ),
            RendererError::BufferImportFailed { details } => labelled(
                "Buffer import failed: ",
                details,
            ),
            RendererError::ResourceAllocationFailed { details } => labelled(
                "Resource allocation failed: ",
                details,
            ),
            RendererError::InvalidOperation { details } => labelled("Invalid operation: ", details),
            RendererError::PresentationFailed { details } => labelled(
                "Presentation failed: ",
                details,
            ),
            RendererError::BackendSpecificError { details, source } => {
                let mut text = labelled("Backend-specific error: ", details);
                match source {
                    Some(cause) => {
                        text.append(" (Source: ");
                        text.append(cause.as_str());
                        text.append(")");
                    },
                    None => {},
                }
                text
            },
        }
    }

    /// The description of the underlying cause, which only a
    /// backend-specific error may have.
    pub fn source(&self) -> (cause: Option<&String>)
        ensures
            cause matches Some(text) ==> self.cause() == Some(text@),
            cause is None ==> self.cause() is None,
    {
        match self {
            RendererError::BackendSpecificError { source, .. } => match source {
                Some(cause) => Some(cause),
                None => None,
            },
            _ => None,
        }
    }
}

/// `label` followed by `details`.
fn labelled(label: &str, details: &String) -> (text: String)
    ensures
        text@ == label@ + details@,
{
    let mut text = label.to_owned();
    text.append(details.as_str());
    text
}

/// The coordinate space of physical pixels on an output.
#[derive(Debug, Clone, Copy, PartialEq, Eq, Structural)]
pub struct PhysicalCoordSpace;

/// The coordinate space of logical pixels, scaled by the output's
/// configuration.
#[derive(Debug, Clone, Copy, PartialEq, Eq, Structural)]
pub struct LogicalCoordSpace;

/// The coordinate space of a buffer's own pixels, before any transform.
#[derive(Debug, Clone, Copy, PartialEq, Eq, Structural)]
pub struct BufferCoordSpace;

/// A size in the coordinate space `S`.
#[derive(Debug, PartialEq, Eq)]
pub struct PlaceholderSize<N, S> {
    pub w: N,
    pub h: N,
    pub _phantom_coord_space: PhantomData<S>,
}

impl<N: Copy, S> Copy for PlaceholderSize<N, S> {

}

impl<N: Copy, S> Clone for PlaceholderSize<N, S> {
    fn clone(&self) -> (copy: Self)
        ensures
            copy.w == self.w,
            copy.h == self.h,
    {
        PlaceholderSize { w: self.w, h: self.h, _phantom_coord_space: PhantomData }
    }
}

impl<N, S> PlaceholderSize<N, S> {
    pub fn new(w: N, h: N) -> (size: Self)
        ensures
            size.w == w,
            size.h == h,
    {
        PlaceholderSize { w, h, _phantom_coord_space: PhantomData }
    }
}

/// A scale factor for each axis.
#[derive(Debug, Clone, Copy, PartialEq)]
pub struct PlaceholderScale<N> {
    pub x: N,
    pub y: N,
}

/// A rotation or reflection of an output or surface.
#[derive(Debug, Clone, Copy, PartialEq, Eq, Structural)]
pub enum PlaceholderTransform {
    Normal,
    Rotated90,
    Rotated180,
    Rotated270,
    Flipped,
    FlippedRotated90,
    FlippedRotated180,
    FlippedRotated270,
}

/// A rectangle in the coordinate space `S`.
#[derive(Debug, PartialEq, Eq)]
pub struct PlaceholderRectangle<N, S> {
    pub x: N,
    pub y: N,
    pub w: N,
    pub h: N,
    pub _phantom_coord_space: PhantomData<S>,
}

impl<N: Copy, S> Copy for PlaceholderRectangle<N, S> {

}

impl<N: Copy, S> Clone for PlaceholderRectangle<N, S> {
    fn clone(&self) -> (copy: Self)
        ensures
            copy.x == self.x,
            copy.y == self.y,
            copy.w == self.w,
            copy.h == self.h,
    {
        PlaceholderRectangle {
            x: self.x,
            y: self.y,
            w: self.w,
            h: self.h,
            _phantom_coord_space: PhantomData,
        }
    }
}

impl<N, S> PlaceholderRectangle<N, S> {
    pub fn new(x: N, y: N, w: N, h: N) -> (rectangle: Self)
        ensures
            rectangle.x == x,
            rectangle.y == y,
            rectangle.w == w,
            rectangle.h == h,
    {
        PlaceholderRectangle { x, y, w, h, _phantom_coord_space: PhantomData }
    }
}

/// A handle to a shared-memory buffer.
#[derive(Debug)]
pub struct PlaceholderWlShmBuffer {
    pub id: u32,
}

/// A handle to a buffer exported by the GPU.
#[derive(Debug)]
pub struct PlaceholderDmabuf {
    pub planes_count: u32,
}

/// The buffer formats that a backend can import.
#[derive(Debug, Clone)]
pub struct PlaceholderImportDma {
    pub supported_formats: Vec<PlaceholderRendererFormat>,
}

/// What a backend reports of a finished frame.
#[derive(Debug, Clone)]
pub struct PlaceholderFrameInfo {
    /// When the frame was presented, where the backend knows it.
    pub presentation_time: Option<Duration>,
    pub flags: u32,
}

impl Default for PlaceholderFrameInfo {
    /// No presentation time and no flag.
    fn default() -> (info: PlaceholderFrameInfo)
        ensures
            info.presentation_time is None,
            info.flags == 0,
    {
        PlaceholderFrameInfo { presentation_time: None, flags: 0 }
    }
}

} // verus!
