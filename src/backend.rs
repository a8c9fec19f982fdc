//! Capabilities a backend may offer, one trait per kind of resource, and the errors each kind of
//! resource creation can end with. A backend implements any subset of them.
use vstd::prelude::*;

verus! {

/// Error of a buffer creation.
#[derive(Clone, Copy, Debug, PartialEq, Eq, Structural)]
pub enum BufferError {
    /// The backend does not accept a buffer of this many elements.
    InvalidLength { len: usize },
    /// The backend could not allocate the buffer.
    AllocationFailed,
}

/// Error of a framebuffer creation.
#[derive(Clone, Copy, Debug, PartialEq, Eq, Structural)]
pub enum FramebufferError {
    /// The framebuffer is incomplete, for instance because one of its dimensions is zero.
    Incomplete,
    /// An attachment is not supported by the backend.
    UnsupportedAttachment,
}

/// Kind of a shader stage.
#[derive(Clone, Copy, Debug, PartialEq, Eq, Structural)]
pub enum StageType {
    /// Vertex shader.
    VertexShader,
    /// Tessellation control shader.
    TessellationControlShader,
    /// Tessellation evaluation shader.
    TessellationEvaluationShader,
    /// Geometry shader.
    GeometryShader,
    /// Fragment shader.
    FragmentShader,
}

/// Error of a shader stage creation.
#[derive(Debug, PartialEq, Eq)]
pub enum StageError {
    /// The stage failed to compile; the compiler's diagnostics are given.
    CompilationFailed(StageType, String),
    /// The backend does not support this kind of stage.
    UnsupportedType(StageType),
}

/// Error of a texture creation.
#[derive(Clone, Copy, Debug, PartialEq, Eq, Structural)]
pub enum TextureError {
    /// The backend could not create storage of this size.
    TextureStorageCreationFailed,
    /// The backend does not support this pixel format.
    UnsupportedPixelFormat,
}

/// How texture coordinates outside of the unit range are wrapped.
#[derive(Clone, Copy, Debug, PartialEq, Eq, Structural)]
pub enum Wrap {
    /// Clamp to the edge.
    ClampToEdge,
    /// Repeat.
    Repeat,
    /// Repeat, mirrored every other time.
    MirroredRepeat,
}

/// How texels are filtered.
#[derive(Clone, Copy, Debug, PartialEq, Eq, Structural)]
pub enum Filter {
    /// The nearest texel.
    Nearest,
    /// A linear blend of the nearest texels.
    Linear,
}

/// How a texture is sampled.
#[derive(Clone, Copy, Debug, PartialEq, Eq, Structural)]
pub struct Sampler {
    /// Wrapping of coordinates.
    pub wrap: Wrap,
    /// Filter used when the texture is minified.
    pub min_filter: Filter,
    /// Filter used when the texture is magnified.
    pub mag_filter: Filter,
}

/// A dimensionality of textures and framebuffers.
pub trait Dimensionable {
    /// Size in that dimensionality.
    type Size: Copy;
}

/// Two dimensions.
#[derive(Clone, Copy, Debug, PartialEq, Eq, Structural)]
pub struct Dim2;

impl Dimensionable for Dim2 {
    type Size = [u32; 2];
}

/// Storage of buffers of elements of type `T`.
///
/// Each request is answered as a function of the backend's state and the request alone: the
/// spec functions give the answer and the backend's state afterwards.
pub trait BufferBackend<T: Copy>: Sized {
    /// The backend's representation of a buffer.
    type BufferRepr;

    /// Answer to a request for `len` default elements, and the backend afterwards.
    spec fn spec_new_buffer(&self, len: usize) -> (Result<Self::BufferRepr, BufferError>, Self);

    /// Answer to a request for a buffer holding `values`, and the backend afterwards.
    spec fn spec_from_vec(&self, values: Seq<T>) -> (Result<Self::BufferRepr, BufferError>, Self);

    /// Answer to a request for `len` copies of `value`, and the backend afterwards.
    spec fn spec_repeat(&self, len: usize, value: T) -> (
        Result<Self::BufferRepr, BufferError>,
        Self,
    );

    /// Create a buffer of `len` default elements.
    fn new_buffer(&mut self, len: usize) -> (r: Result<Self::BufferRepr, BufferError>)
        ensures
            (r, *final(self)) == old(self).spec_new_buffer(len),
    ;

    /// Create a buffer holding `values`.
    fn from_vec(&mut self, values: Vec<T>) -> (r: Result<Self::BufferRepr, BufferError>)
        ensures
            (r, *final(self)) == old(self).spec_from_vec(values@),
    ;

    /// Create a buffer of `len` copies of `value`.
    fn repeat(&mut self, len: usize, value: T) -> (r: Result<Self::BufferRepr, BufferError>)
        ensures
            (r, *final(self)) == old(self).spec_repeat(len, value),
    ;
}

/// Storage of framebuffers of dimensionality `D`.
///
/// Each request is answered as a function of the backend's state and the request alone.
pub trait FramebufferBackend<D: Dimensionable>: Sized {
    /// The backend's representation of a framebuffer.
    type FramebufferRepr;

    /// Answer to a request for a framebuffer, and the backend afterwards.
    spec fn spec_new_framebuffer(&self, size: D::Size, mipmaps: usize, sampler: Sampler) -> (
        Result<Self::FramebufferRepr, FramebufferError>,
        Self,
    );

    /// Create a framebuffer of the given size.
    fn new_framebuffer(
        &mut self,
        size: D::Size,
        mipmaps: usize,
        sampler: Sampler,
    ) -> (r: Result<Self::FramebufferRepr, FramebufferError>)
        ensures
            (r, *final(self)) == old(self).spec_new_framebuffer(size, mipmaps, sampler),
    ;
}

/// Color attachments of a framebuffer of dimensionality `D` on backend `B`.
pub trait ColorSlot<B: ?Sized, D: Dimensionable> {
}

/// Depth attachment of a framebuffer of dimensionality `D` on backend `B`.
pub trait DepthSlot<B: ?Sized, D: Dimensionable> {
}

/// No color attachment.
impl<B: ?Sized, D: Dimensionable> ColorSlot<B, D> for () {
}

/// No depth attachment.
impl<B: ?Sized, D: Dimensionable> DepthSlot<B, D> for () {
}

/// Compilation of shader stages.
///
/// Each request is answered as a function of the backend's state and the request alone.
pub trait Shader: Sized {
    /// The backend's representation of a compiled stage.
    type StageRepr;

    /// Answer to a request for a stage of kind `ty` from source text `src`, and the backend
    /// afterwards.
    spec fn spec_new_stage(&self, ty: StageType, src: Seq<char>) -> (
        Result<Self::StageRepr, StageError>,
        Self,
    );

    /// Compile a stage of kind `ty` from its source text.
    fn new_stage(&mut self, ty: StageType, src: &str) -> (r: Result<Self::StageRepr, StageError>)
        ensures
            (r, *final(self)) == old(self).spec_new_stage(ty, src@),
    ;
}

/// Vertex attribute semantics of a shader program.
pub trait Semantics {
}

/// No vertex attribute.
impl Semantics for () {
}

/// Vertex attributes stored together, vertex by vertex.
#[derive(Clone, Copy, Debug, PartialEq, Eq, Structural)]
pub struct Interleaved;

/// Vertex attributes stored apart, attribute by attribute.
#[derive(Clone, Copy, Debug, PartialEq, Eq, Structural)]
pub struct Deinterleaved;

/// Data that can stand in a tessellation with memory layout `S`.
pub trait TessVertexData<S> {
}

/// No data.
impl<S> TessVertexData<S> for () {
}

/// Storage of tessellations with vertex data `V`, index data `I`, instance data `W` and memory
/// layout `S`.
pub trait TessBackend<V, I, W, S> {
    /// The backend's representation of a tessellation.
    type TessRepr;
}

/// Storage of textures of dimensionality `D` and pixel format `P`.
///
/// Each request is answered as a function of the backend's state and the request alone.
pub trait TextureBackend<D: Dimensionable, P>: Sized {
    /// The backend's representation of a texture.
    type TextureRepr;

    /// Answer to a request for a texture, and the backend afterwards.
    spec fn spec_new_texture(&self, size: D::Size, mipmaps: usize, sampler: Sampler) -> (
        Result<Self::TextureRepr, TextureError>,
        Self,
    );

    /// Create a texture of the given size.
    fn new_texture(
        &mut self,
        size: D::Size,
        mipmaps: usize,
        sampler: Sampler,
    ) -> (r: Result<Self::TextureRepr, TextureError>)
        ensures
            (r, *final(self)) == old(self).spec_new_texture(size, mipmaps, sampler),
    ;
}

} // verus!
