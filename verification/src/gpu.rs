//! A model of the GPU driver interface as plain data.
//!
//! The painter never touches the driver itself: it decides which calls to
//! make and in what order, and hands that decision out as a list of
//! [`GpuCommand`] values. The surrounding program executes each command
//! against the real driver, in list order. Handles (program, buffer, texture
//! and vertex-layout names, uniform and attribute locations) are the plain
//! integers the driver deals in.

use vstd::prelude::*;

verus! {

/// A single GPU driver call, as decided by the painter. Commands that carry
/// no fields fix every argument of the underlying call; the others carry
/// exactly the arguments that vary.
#[derive(Clone, Copy, PartialEq, Eq, Structural, Debug)]
#[allow(inconsistent_fields)]
pub enum GpuCommand {
    EnableScissorTest,
    DisableScissorTest,
    EnableCullFace,
    DisableCullFace,
    /// Set the blend function for premultiplied-alpha source colors.
    BlendPremultipliedAlpha,
    /// Restore the conventional straight-alpha blend function.
    BlendDefault,
    SetViewport { x: i32, y: i32, width: i32, height: i32 },
    BindProgram { program: Option<u32> },
    /// Set the screen-size uniform, in logical points.
    SetScreenSizeUniform { location: u32, width_points: i32, height_points: i32 },
    /// Point the sampler uniform at a texture unit.
    SetSamplerUniform { location: u32, unit: i32 },
    BindTexture2d { texture: Option<u32> },
    BindVertexArray { vertex_array: Option<u32> },
    BindArrayBuffer { buffer: Option<u32> },
    BindElementBuffer { buffer: Option<u32> },
    /// Describe a float vertex attribute inside the interleaved layout.
    VertexAttribFloat { location: u32, components: u32, stride: u32, offset: u32 },
    /// Describe a byte vertex attribute inside the interleaved layout.
    VertexAttribByte { location: u32, components: u32, stride: u32, offset: u32 },
    EnableVertexAttrib { location: u32 },
    /// Upload the vertex bytes of the mesh at `mesh` into the bound array
    /// buffer, with stream usage.
    UploadVertexData { mesh: usize, vertex_count: usize },
    /// Upload the index bytes of the mesh at `mesh` into the bound element
    /// buffer, with stream usage.
    UploadIndexData { mesh: usize, index_count: usize },
    SetScissor { x: i32, y: i32, width: i32, height: i32 },
    /// Issue an indexed triangle draw over `index_count` 32-bit indices.
    DrawIndexedTriangles { index_count: i32 },
    /// Set linear magnification filtering on the bound 2d texture.
    TexMagFilterLinear,
    /// Set linear minification filtering on the bound 2d texture.
    TexMinFilterLinear,
    /// Clamp the bound 2d texture to its edge horizontally.
    TexWrapSClampToEdge,
    /// Clamp the bound 2d texture to its edge vertically.
    TexWrapTClampToEdge,
    /// Allocate one sRGB8-alpha8 storage level for the bound 2d texture.
    TexStorageSrgba8 { width: i32, height: i32 },
    /// Fill the bound 2d texture with RGBA bytes supplied by the caller.
    TexSubImageRgba { width: i32, height: i32 },
    DeleteProgram { program: u32 },
    DeleteTexture { texture: u32 },
    DeleteBuffer { buffer: u32 },
}

/// The host's own viewport, queried before drawing and restored afterward:
/// left, bottom, right, top edges in host pixels.
#[derive(Clone, Copy, PartialEq, Eq, Structural, Debug)]
pub struct HostViewport {
    pub left: i32,
    pub bottom: i32,
    pub right: i32,
    pub top: i32,
}

impl HostViewport {
    /// The edges are ordered and the extents fit in the machine integer type.
    pub open spec fn wf(self) -> bool {
        &&& self.left <= self.right
        &&& self.bottom <= self.top
        &&& self.right - self.left <= i32::MAX
        &&& self.top - self.bottom <= i32::MAX
    }
}

/// The command sequence that turns a freshly created texture handle into the
/// one-level sRGB 2d texture the painter samples from: bind, filter and wrap
/// parameters, storage allocation, pixel upload, unbind.
pub open spec fn spec_srgb_texture_commands(texture: u32, width: i32, height: i32) -> Seq<
    GpuCommand,
> {
    seq![
        GpuCommand::BindTexture2d { texture: Some(texture) },
        GpuCommand::TexMagFilterLinear,
        GpuCommand::TexMinFilterLinear,
        GpuCommand::TexWrapSClampToEdge,
        GpuCommand::TexWrapTClampToEdge,
        GpuCommand::TexStorageSrgba8 { width, height },
        GpuCommand::TexSubImageRgba { width, height },
        GpuCommand::BindTexture2d { texture: None },
    ]
}

/// Build the setup call list for a new sRGB 2d texture of the given pixel
/// extent. The caller must hand the upload step exactly four RGBA bytes per
/// pixel; `expected_pixel_bytes` states that count.
pub fn srgb_texture_commands(texture: u32, width: i32, height: i32) -> (cmds: Vec<GpuCommand>)
    requires
        1 <= width,
        1 <= height,
    ensures
        cmds@ == spec_srgb_texture_commands(texture, width, height),
{
    let mut cmds: Vec<GpuCommand> = Vec::new();
    cmds.push(GpuCommand::BindTexture2d { texture: Some(texture) });
    cmds.push(GpuCommand::TexMagFilterLinear);
    cmds.push(GpuCommand::TexMinFilterLinear);
    cmds.push(GpuCommand::TexWrapSClampToEdge);
    cmds.push(GpuCommand::TexWrapTClampToEdge);
    cmds.push(GpuCommand::TexStorageSrgba8 { width, height });
    cmds.push(GpuCommand::TexSubImageRgba { width, height });
    cmds.push(GpuCommand::BindTexture2d { texture: None });
    assert(cmds@ =~= spec_srgb_texture_commands(texture, width, height));
    cmds
}

/// The number of bytes a texture upload must supply: four RGBA bytes for
/// each pixel of the image.
pub fn expected_pixel_bytes(width: usize, height: usize) -> (n: usize)
    requires
        width * height * 4 <= usize::MAX,
    ensures
        n == width * height * 4,
{
    width * height * 4
}

} // verus!
