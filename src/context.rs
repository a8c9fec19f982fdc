//! Graphics context.
//!
//! A graphics context owns exactly one backend and hands out exclusive access to it. Every
//! resource is created through it: each constructor can be called only where the backend offers
//! the matching capability, so one piece of client code runs on any backend that has the
//! capabilities it needs. A backend's errors are handed back as they came.
use vstd::prelude::*;
use crate::backend::{
    BufferBackend, BufferError, ColorSlot, DepthSlot, Dimensionable, FramebufferBackend,
    FramebufferError, Deinterleaved, Interleaved, Sampler, Semantics, Shader, StageError,
    StageType, TessBackend, TessVertexData, TextureBackend, TextureError,
};

verus! {

/// A buffer of elements of type `T` on backend `B`.
pub struct Buffer<B: BufferBackend<T>, T: Copy> {
    repr: B::BufferRepr,
    len: usize,
}

impl<B: BufferBackend<T>, T: Copy> Buffer<B, T> {
    /// Number of elements.
    pub closed spec fn spec_len(&self) -> nat {
        self.len as nat
    }

    /// Number of elements.
    pub fn len(&self) -> (r: usize)
        ensures
            r == self.spec_len(),
    {
        self.len
    }

    /// The backend's representation.
    pub closed spec fn spec_repr(&self) -> B::BufferRepr {
        self.repr
    }

    /// The backend's representation.
    pub fn repr(&self) -> (r: &B::BufferRepr)
        ensures
            *r == self.spec_repr(),
    {
        &self.repr
    }
}

/// A framebuffer of dimensionality `D` on backend `B`, with color attachments `CS` and depth
/// attachment `DS`.
pub struct Framebuffer<B: FramebufferBackend<D>, D: Dimensionable, CS, DS> {
    repr: B::FramebufferRepr,
    size: D::Size,
    mipmaps: usize,
    slots: std::marker::PhantomData<(CS, DS)>,
}

impl<B: FramebufferBackend<D>, D: Dimensionable, CS, DS> Framebuffer<B, D, CS, DS> {
    /// Size.
    pub closed spec fn spec_size(&self) -> D::Size {
        self.size
    }

    /// Number of mipmap levels beyond the base one.
    pub closed spec fn spec_mipmaps(&self) -> nat {
        self.mipmaps as nat
    }

    /// Size.
    pub fn size(&self) -> (r: D::Size)
        ensures
            r == self.spec_size(),
    {
        self.size
    }

    /// Number of mipmap levels beyond the base one.
    pub fn mipmaps(&self) -> (r: usize)
        ensures
            r == self.spec_mipmaps(),
    {
        self.mipmaps
    }

    /// The backend's representation.
    pub closed spec fn spec_repr(&self) -> B::FramebufferRepr {
        self.repr
    }

    /// The backend's representation.
    pub fn repr(&self) -> (r: &B::FramebufferRepr)
        ensures
            *r == self.spec_repr(),
    {
        &self.repr
    }
}

/// A compiled shader stage on backend `B`.
pub struct Stage<B: Shader> {
    repr: B::StageRepr,
    ty: StageType,
}

impl<B: Shader> Stage<B> {
    /// Kind of the stage.
    pub closed spec fn spec_ty(&self) -> StageType {
        self.ty
    }

    /// Kind of the stage.
    pub fn ty(&self) -> (r: StageType)
        ensures
            r == self.spec_ty(),
    {
        self.ty
    }

    /// The backend's representation.
    pub closed spec fn spec_repr(&self) -> B::StageRepr {
        self.repr
    }

    /// The backend's representation.
    pub fn repr(&self) -> (r: &B::StageRepr)
        ensures
            *r == self.spec_repr(),
    {
        &self.repr
    }
}

/// A texture of dimensionality `D` and pixel format `P` on backend `B`.
pub struct Texture<B: TextureBackend<D, P>, D: Dimensionable, P> {
    repr: B::TextureRepr,
    size: D::Size,
    mipmaps: usize,
    pixel: std::marker::PhantomData<P>,
}

impl<B: TextureBackend<D, P>, D: Dimensionable, P> Texture<B, D, P> {
    /// Size.
    pub closed spec fn spec_size(&self) -> D::Size {
        self.size
    }

    /// Number of mipmap levels beyond the base one.
    pub closed spec fn spec_mipmaps(&self) -> nat {
        self.mipmaps as nat
    }

    /// Size.
    pub fn size(&self) -> (r: D::Size)
        ensures
            r == self.spec_size(),
    {
        self.size
    }

    /// Number of mipmap levels beyond the base one.
    pub fn mipmaps(&self) -> (r: usize)
        ensures
            r == self.spec_mipmaps(),
    {
        self.mipmaps
    }

    /// The backend's representation.
    pub closed spec fn spec_repr(&self) -> B::TextureRepr {
        self.repr
    }

    /// The backend's representation.
    pub fn repr(&self) -> (r: &B::TextureRepr)
        ensures
            *r == self.spec_repr(),
    {
        &self.repr
    }
}

/// Entry point of a render pipeline, scoped to the context it was made from.
pub struct PipelineGate<'a, C> {
    ctx: &'a mut C,
}

impl<'a, C> PipelineGate<'a, C> {
    /// The context this gate belongs to.
    pub closed spec fn spec_context(&self) -> C {
        *self.ctx
    }

    /// The context this gate belongs to.
    pub fn context(&mut self) -> (r: &mut C)
        ensures
            *r == old(self).spec_context(),
            final(self).spec_context() == *final(r),
    {
        self.ctx
    }
}

/// Builder of a shader program on context `C`, for vertex semantics `Sem`, fragment outputs
/// `Out` and uniform interface `Uni`.
pub struct ProgramBuilder<'a, C, Sem, Out, Uni> {
    ctx: &'a mut C,
    interface: std::marker::PhantomData<(Sem, Out, Uni)>,
}

impl<'a, C, Sem, Out, Uni> ProgramBuilder<'a, C, Sem, Out, Uni> {
    /// The context programs are built on.
    pub closed spec fn spec_context(&self) -> C {
        *self.ctx
    }

    /// The context programs are built on.
    pub fn context(&mut self) -> (r: &mut C)
        ensures
            *r == old(self).spec_context(),
            final(self).spec_context() == *final(r),
    {
        self.ctx
    }
}

/// Builder of a tessellation on backend `B`, with vertex data `V`, index data `I`, instance data
/// `W` and memory layout `S`.
pub struct TessBuilder<'a, B, V, I, W, S> {
    backend: &'a mut B,
    vertex_count: usize,
    data: std::marker::PhantomData<(V, I, W, S)>,
}

impl<'a, B, V, I, W, S> TessBuilder<'a, B, V, I, W, S> {
    /// The backend the tessellation is built on.
    pub closed spec fn spec_backend(&self) -> B {
        *self.backend
    }

    /// Number of vertices given so far.
    pub closed spec fn spec_vertex_count(&self) -> nat {
        self.vertex_count as nat
    }

    /// Number of vertices given so far.
    pub fn vertex_count(&self) -> (r: usize)
        ensures
            r == self.spec_vertex_count(),
    {
        self.vertex_count
    }

    /// The backend the tessellation is built on.
    pub fn backend(&mut self) -> (r: &mut B)
        ensures
            *r == old(self).spec_backend(),
            final(self).spec_backend() == *final(r),
            final(self).spec_vertex_count() == old(self).spec_vertex_count(),
    {
        self.backend
    }
}

/// Whether `r` hands on the backend's answer `answer` to a request for a buffer of `len`
/// elements: the backend's error unchanged, or a buffer of `len` elements holding the backend's
/// representation.
pub open spec fn buffer_handed_on<B: BufferBackend<T>, T: Copy>(
    r: Result<Buffer<B, T>, BufferError>,
    answer: Result<B::BufferRepr, BufferError>,
    len: nat,
) -> bool {
    match r {
        Ok(b) => answer is Ok && b.spec_repr() == answer->Ok_0 && b.spec_len() == len,
        Err(e) => answer == Err::<B::BufferRepr, BufferError>(e),
    }
}

/// Whether `r` hands on the backend's answer `answer` to a request for a framebuffer: the
/// backend's error unchanged, or a framebuffer of the requested size and mipmap count holding the
/// backend's representation.
pub open spec fn framebuffer_handed_on<B: FramebufferBackend<D>, D: Dimensionable, CS, DS>(
    r: Result<Framebuffer<B, D, CS, DS>, FramebufferError>,
    answer: Result<B::FramebufferRepr, FramebufferError>,
    size: D::Size,
    mipmaps: nat,
) -> bool {
    match r {
        Ok(f) => answer is Ok && f.spec_repr() == answer->Ok_0 && f.spec_size() == size
            && f.spec_mipmaps() == mipmaps,
        Err(e) => answer == Err::<B::FramebufferRepr, FramebufferError>(e),
    }
}

/// Whether `r` hands on the backend's answer `answer` to a request for a stage of kind `ty`: the
/// backend's error, diagnostics included, unchanged, or a stage of kind `ty` holding the
/// backend's representation.
pub open spec fn stage_handed_on<B: Shader>(
    r: Result<Stage<B>, StageError>,
    answer: Result<B::StageRepr, StageError>,
    ty: StageType,
) -> bool {
    match r {
        Ok(st) => answer is Ok && st.spec_repr() == answer->Ok_0 && st.spec_ty() == ty,
        Err(e) => answer == Err::<B::StageRepr, StageError>(e),
    }
}

/// Whether `r` hands on the backend's answer `answer` to a request for a texture: the backend's
/// error unchanged, or a texture of the requested size and mipmap count holding the backend's
/// representation.
pub open spec fn texture_handed_on<B: TextureBackend<D, P>, D: Dimensionable, P>(
    r: Result<Texture<B, D, P>, TextureError>,
    answer: Result<B::TextureRepr, TextureError>,
    size: D::Size,
    mipmaps: nat,
) -> bool {
    match r {
        Ok(t) => answer is Ok && t.spec_repr() == answer->Ok_0 && t.spec_size() == size
            && t.spec_mipmaps() == mipmaps,
        Err(e) => answer == Err::<B::TextureRepr, TextureError>(e),
    }
}

/// Class of graphics context: owns one backend and creates resources on it.
pub trait GraphicsContext: Sized {
    /// State the backend uses to reach the GPU, cache costly operations and so on.
    type Backend;

    /// The backend the context owns.
    spec fn spec_backend(&self) -> Self::Backend;

    /// Exclusive access to the backend the context owns: what is done through it is what the
    /// context's backend becomes.
    fn backend(&mut self) -> (r: &mut Self::Backend)
        ensures
            *r == old(self).spec_backend(),
            final(self).spec_backend() == *final(r),
    ;

    /// Create a pipeline gate on this context.
    fn new_pipeline_gate(&mut self) -> (r: PipelineGate<'_, Self>)
        ensures
            r.spec_context() == *old(self),
    {
        PipelineGate { ctx: self }
    }

    /// Start building a shader program on this context.
    fn new_shader_program<Sem: Semantics, Out, Uni>(&mut self) -> (r: ProgramBuilder<
        '_,
        Self,
        Sem,
        Out,
        Uni,
    >) where Self::Backend: Shader
        ensures
            r.spec_context() == *old(self),
    {
        ProgramBuilder { ctx: self, interface: std::marker::PhantomData }
    }

    /// Start building a tessellation with interleaved memory and no vertex, index or instance
    /// type yet, on the context's backend.
    fn new_tess(&mut self) -> (r: TessBuilder<'_, Self::Backend, (), (), (), Interleaved>) where
        Self::Backend: TessBackend<(), (), (), Interleaved>,

        ensures
            r.spec_backend() == old(self).spec_backend(),
            r.spec_vertex_count() == 0,
    {
        TessBuilder { backend: self.backend(), vertex_count: 0, data: std::marker::PhantomData }
    }

    /// Start building a tessellation with deinterleaved memory, vertex data `V` and instance
    /// data `W`, on the context's backend.
    fn new_deinterleaved_tess<V, W>(&mut self) -> (r: TessBuilder<
        '_,
        Self::Backend,
        V,
        (),
        W,
        Deinterleaved,
    >) where
        Self::Backend: TessBackend<V, (), W, Deinterleaved>,
        V: TessVertexData<Deinterleaved>,
        W: TessVertexData<Deinterleaved>,

        ensures
            r.spec_backend() == old(self).spec_backend(),
            r.spec_vertex_count() == 0,
    {
        TessBuilder { backend: self.backend(), vertex_count: 0, data: std::marker::PhantomData }
    }

    /// Create a buffer of `len` default elements: the backend's answer is handed on, and the
    /// backend is left as the request leaves it.
    fn new_buffer<T: Copy + Default>(&mut self, len: usize) -> (r: Result<
        Buffer<Self::Backend, T>,
        BufferError,
    >) where Self::Backend: BufferBackend<T>
        ensures
            ({
                let (answer, after) = old(self).spec_backend().spec_new_buffer(len);
                &&& buffer_handed_on(r, answer, len as nat)
                &&& final(self).spec_backend() == after
            }),
    {
        match self.backend().new_buffer(len) {
            Ok(repr) => Ok(Buffer { repr, len }),
            Err(e) => Err(e),
        }
    }

    /// Create a buffer holding `values`, in order: the backend's answer is handed on, and the
    /// backend is left as the request leaves it.
    fn new_buffer_from_vec<T: Copy>(&mut self, values: Vec<T>) -> (r: Result<
        Buffer<Self::Backend, T>,
        BufferError,
    >) where Self::Backend: BufferBackend<T>
        ensures
            ({
                let (answer, after) = old(self).spec_backend().spec_from_vec(values@);
                &&& buffer_handed_on(r, answer, values@.len())
                &&& final(self).spec_backend() == after
            }),
    {
        let len = values.len();
        match self.backend().from_vec(values) {
            Ok(repr) => Ok(Buffer { repr, len }),
            Err(e) => Err(e),
        }
    }

    /// Create a buffer of `len` copies of `value`: the backend's answer is handed on, and the
    /// backend is left as the request leaves it.
    fn new_buffer_repeating<T: Copy>(&mut self, len: usize, value: T) -> (r: Result<
        Buffer<Self::Backend, T>,
        BufferError,
    >) where Self::Backend: BufferBackend<T>
        ensures
            ({
                let (answer, after) = old(self).spec_backend().spec_repeat(len, value);
                &&& buffer_handed_on(r, answer, len as nat)
                &&& final(self).spec_backend() == after
            }),
    {
        match self.backend().repeat(len, value) {
            Ok(repr) => Ok(Buffer { repr, len }),
            Err(e) => Err(e),
        }
    }

    /// Create an off-screen framebuffer of the given size, with color attachments `CS` and
    /// depth attachment `DS`: the backend's answer is handed on, and the backend is left as the request leaves it.
    fn new_framebuffer<D: Dimensionable, CS, DS>(
        &mut self,
        size: D::Size,
        mipmaps: usize,
        sampler: Sampler,
    ) -> (r: Result<Framebuffer<Self::Backend, D, CS, DS>, FramebufferError>) where
        Self::Backend: FramebufferBackend<D>,
        CS: ColorSlot<Self::Backend, D>,
        DS: DepthSlot<Self::Backend, D>,

        ensures
            ({
                let (answer, after) = old(self).spec_backend().spec_new_framebuffer(
                    size,
                    mipmaps,
                    sampler,
                );
                &&& framebuffer_handed_on(r, answer, size, mipmaps as nat)
                &&& final(self).spec_backend() == after
            }),
    {
        match self.backend().new_framebuffer(size, mipmaps, sampler) {
            Ok(repr) => Ok(Framebuffer { repr, size, mipmaps, slots: std::marker::PhantomData }),
            Err(e) => Err(e),
        }
    }

    /// Compile a shader stage of kind `ty` from its source text: the backend's answer is handed
    /// on, and the backend is left as the request leaves it.
    fn new_shader_stage(&mut self, ty: StageType, src: &str) -> (r: Result<
        Stage<Self::Backend>,
        StageError,
    >) where Self::Backend: Shader
        ensures
            ({
                let (answer, after) = old(self).spec_backend().spec_new_stage(ty, src@);
                &&& stage_handed_on(r, answer, ty)
                &&& final(self).spec_backend() == after
            }),
    {
        match self.backend().new_stage(ty, src) {
            Ok(repr) => Ok(Stage { repr, ty }),
            Err(e) => Err(e),
        }
    }

    /// Create a texture of the given size and pixel format `P`: the backend's answer is handed
    /// on, and the backend is left as the request leaves it.
    fn new_texture<D: Dimensionable, P>(
        &mut self,
        size: D::Size,
        mipmaps: usize,
        sampler: Sampler,
    ) -> (r: Result<Texture<Self::Backend, D, P>, TextureError>) where
        Self::Backend: TextureBackend<D, P>,

        ensures
            ({
                let (answer, after) = old(self).spec_backend().spec_new_texture(
                    size,
                    mipmaps,
                    sampler,
                );
                &&& texture_handed_on(r, answer, size, mipmaps as nat)
                &&& final(self).spec_backend() == after
            }),
    {
        match self.backend().new_texture(size, mipmaps, sampler) {
            Ok(repr) => Ok(Texture { repr, size, mipmaps, pixel: std::marker::PhantomData }),
            Err(e) => Err(e),
        }
    }
}

/// A buffer request is answered the same way whenever it is made on the same backend state:
/// two requests for `len` elements made on contexts whose backends are equal both fail, with the
/// same error, or both succeed with the same representation.
pub proof fn lemma_buffer_request_repeatable<C: GraphicsContext, T: Copy>(
    c1: C,
    c2: C,
    len: usize,
    r1: Result<Buffer<C::Backend, T>, BufferError>,
    r2: Result<Buffer<C::Backend, T>, BufferError>,
)
    where C::Backend: BufferBackend<T>,
    requires
        c1.spec_backend() == c2.spec_backend(),
        buffer_handed_on(r1, c1.spec_backend().spec_new_buffer(len).0, len as nat),
        buffer_handed_on(r2, c2.spec_backend().spec_new_buffer(len).0, len as nat),
    ensures
        r1 is Err <==> r2 is Err,
        r1 is Err ==> r1->Err_0 == r2->Err_0,
        r1 is Ok ==> r1->Ok_0.spec_repr() == r2->Ok_0.spec_repr(),
{
}

/// A request for a buffer holding given contents is answered the same way whenever it is made on
/// the same backend state with the same contents: both fail, with the same error, or both
/// succeed with the same representation.
pub proof fn lemma_buffer_contents_request_repeatable<C: GraphicsContext, T: Copy>(
    c1: C,
    c2: C,
    values1: Seq<T>,
    values2: Seq<T>,
    r1: Result<Buffer<C::Backend, T>, BufferError>,
    r2: Result<Buffer<C::Backend, T>, BufferError>,
)
    where C::Backend: BufferBackend<T>,
    requires
        c1.spec_backend() == c2.spec_backend(),
        values1 == values2,
        buffer_handed_on(r1, c1.spec_backend().spec_from_vec(values1).0, values1.len()),
        buffer_handed_on(r2, c2.spec_backend().spec_from_vec(values2).0, values2.len()),
    ensures
        r1 is Err <==> r2 is Err,
        r1 is Err ==> r1->Err_0 == r2->Err_0,
        r1 is Ok ==> r1->Ok_0.spec_repr() == r2->Ok_0.spec_repr(),
{
}

} // verus!
