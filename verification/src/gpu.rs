//! Records of the GPU objects the viewer owns: their driver names and the
//! sizes and formats that decide when they must be replaced.
use vstd::prelude::*;
use crate::program::{BuildPhase, ProgramBuilder, ProgramKind};

verus! {

/// A linked compute program.
pub struct ComputeShader {
    id: u32,
}

impl View for ComputeShader {
    type V = u32;

    closed spec fn view(&self) -> u32 {
        self.id
    }
}

impl ComputeShader {
    /// The compute program a finished build produced; `None` while the build
    /// has not finished, when it failed, or when it built another kind.
    pub fn new(build: &ProgramBuilder) -> (shader: Option<ComputeShader>)
        requires
            build.wf(),
        ensures
            shader is Some <==> (build@.kind == ProgramKind::Compute && build@.phase is Finished),
            shader matches Some(s) ==> build@.phase == BuildPhase::Finished(s@),
    {
        match finished_program(build, ProgramKind::Compute) {
            Some(id) => Some(ComputeShader { id }),
            None => None,
        }
    }

    /// The driver's name of the program.
    pub fn id(&self) -> (id: u32)
        ensures
            id == self@,
    {
        self.id
    }
}

/// A linked program of a vertex and a fragment stage.
pub struct GeometryShader {
    id: u32,
}

impl View for GeometryShader {
    type V = u32;

    closed spec fn view(&self) -> u32 {
        self.id
    }
}

impl GeometryShader {
    /// The rasterising program a finished build produced; `None` while the
    /// build has not finished, when it failed, or when it built another kind.
    pub fn new(build: &ProgramBuilder) -> (shader: Option<GeometryShader>)
        requires
            build.wf(),
        ensures
            shader is Some <==> (build@.kind == ProgramKind::Geometry && build@.phase is Finished),
            shader matches Some(s) ==> build@.phase == BuildPhase::Finished(s@),
    {
        match finished_program(build, ProgramKind::Geometry) {
            Some(id) => Some(GeometryShader { id }),
            None => None,
        }
    }

    /// The driver's name of the program.
    pub fn id(&self) -> (id: u32)
        ensures
            id == self@,
    {
        self.id
    }
}

/// The program of a finished build of the given kind.
fn finished_program(build: &ProgramBuilder, kind: ProgramKind) -> (program: Option<u32>)
    requires
        build.wf(),
    ensures
        program is Some <==> (build@.kind == kind && build@.phase is Finished),
        program matches Some(p) ==> build@.phase == BuildPhase::Finished(p),
{
    let same_kind = match (build.kind(), kind) {
        (ProgramKind::Compute, ProgramKind::Compute) => true,
        (ProgramKind::Geometry, ProgramKind::Geometry) => true,
        _ => false,
    };
    if !same_kind {
        return None;
    }
    match build.pending() {
        crate::program::BuildAction::Finish(p) => Some(p),
        _ => None,
    }
}

/// What is known of a two-dimensional texture.
pub struct ImageInfo {
    pub id: u32,
    pub width: u32,
    pub height: u32,
    pub format: u32,
}

/// What a resize of `image` to `width` by `height` asks for: nothing when the
/// size is unchanged, otherwise new storage `(width, height, format)` in the
/// same format.
pub open spec fn resize_request(image: ImageInfo, width: u32, height: u32) -> Option<(u32, u32, u32)> {
    if width == image.width && height == image.height {
        None
    } else {
        Some((width, height, image.format))
    }
}

/// A two-dimensional texture with immutable storage of one mip level.
pub struct Image2D {
    id: u32,
    width: u32,
    height: u32,
    format: u32,
}

impl View for Image2D {
    type V = ImageInfo;

    closed spec fn view(&self) -> ImageInfo {
        ImageInfo { id: self.id, width: self.width, height: self.height, format: self.format }
    }
}

impl Image2D {
    /// The record of texture `id`, whose storage holds `width` by `height`
    /// texels of the internal format `format`.
    pub fn new(id: u32, width: u32, height: u32, format: u32) -> (image: Image2D)
        ensures
            image@ == (ImageInfo { id, width, height, format }),
    {
        Image2D { id, width, height, format }
    }

    /// The driver's name of the texture.
    pub fn id(&self) -> (id: u32)
        ensures
            id == self@.id,
    {
        self.id
    }

    /// The width in texels.
    pub fn width(&self) -> (width: u32)
        ensures
            width == self@.width,
    {
        self.width
    }

    /// The height in texels.
    pub fn height(&self) -> (height: u32)
        ensures
            height == self@.height,
    {
        self.height
    }

    /// The internal format of the texels.
    pub fn format(&self) -> (format: u32)
        ensures
            format == self@.format,
    {
        self.format
    }

    /// What a resize to `width` by `height` asks for: nothing when the size
    /// is unchanged, otherwise new storage of that size in the same format,
    /// given as `(width, height, format)`.
    pub fn resize(&self, width: u32, height: u32) -> (replacement: Option<(u32, u32, u32)>)
        ensures
            replacement == resize_request(self@, width, height),
            replacement is None <==> (width == self@.width && height == self@.height),
            replacement matches Some((w, h, f)) ==> w == width && h == height && f == self@.format,
    {
        if width == self.width && height == self.height {
            return None;
        }
        Some((width, height, self.format))
    }
}

/// Resizing a texture never asks for new storage when the size stays the
/// same, and once the texture has been replaced by the storage a resize asked
/// for, resizing it to that size again asks for nothing.
pub proof fn lemma_resize_idempotent(image: ImageInfo, new_id: u32, width: u32, height: u32)
    ensures
        resize_request(image, image.width, image.height) is None,
        resize_request(image, width, height) matches Some((w, h, f)) ==> resize_request(
            ImageInfo { id: new_id, width: w, height: h, format: f },
            width,
            height,
        ) is None,
        resize_request(image, width, height) matches Some((w, h, f)) ==> f == image.format,
        resize_request(image, width, height) is None <==> (width == image.width && height
            == image.height),
        resize_request(image, width, height) matches Some((w, h, f)) ==> w == width && h == height,
{
}

/// A uniform buffer of a fixed size in bytes.
pub struct UniformBuffer {
    id: u32,
    size: usize,
}

impl View for UniformBuffer {
    type V = (u32, usize);

    closed spec fn view(&self) -> (u32, usize) {
        (self.id, self.size)
    }
}

impl UniformBuffer {
    /// The record of buffer `id`, whose storage holds `size` bytes.
    pub fn new(id: u32, size: usize) -> (buffer: UniformBuffer)
        ensures
            buffer@ == (id, size),
    {
        UniformBuffer { id, size }
    }

    /// The driver's name of the buffer.
    pub fn id(&self) -> (id: u32)
        ensures
            id == self@.0,
    {
        self.id
    }

    /// The size of the buffer's storage in bytes.
    pub fn size(&self) -> (size: usize)
        ensures
            size == self@.1,
    {
        self.size
    }

    /// Whether an upload of `len` bytes at the start of the buffer stays
    /// within its storage.
    pub fn fits(&self, len: usize) -> (fits: bool)
        ensures
            fits == (len <= self@.1),
    {
        len <= self.size
    }
}

} // verus!
