use vstd::prelude::*;

use crate::extent::{clamp_extent, side};

verus! {

#[verifier::external_type_specification]
#[verifier::external_body]
pub struct ExDevice(wgpu::Device);

#[verifier::external_type_specification]
#[verifier::external_body]
pub struct ExTexture(wgpu::Texture);

#[verifier::external_type_specification]
#[verifier::external_body]
pub struct ExTextureView(wgpu::TextureView);

#[verifier::external_type_specification]
#[verifier::external_body]
pub struct ExTextureFormat(wgpu::TextureFormat);

/// A device whose validation, out-of-memory and internal errors are caught by
/// error scopes opened for the lifetime of this value, instead of reaching the
/// device's uncaptured-error handler (which panics by default).
struct CapturingDevice<'a> {
    device: &'a wgpu::Device,
}

/// Relies on wgpu::Device::push_error_scope: opens one scope for each error
/// filter, so that every error the device reports until they are popped is
/// caught by one of them.
#[verifier::external_body]
fn begin_capture<'a>(device: &'a wgpu::Device) -> (r: CapturingDevice<'a>) {
    device.push_error_scope(wgpu::ErrorFilter::Validation);
    device.push_error_scope(wgpu::ErrorFilter::OutOfMemory);
    device.push_error_scope(wgpu::ErrorFilter::Internal);
    CapturingDevice { device }
}

/// Relies on wgpu::Device::pop_error_scope, run by pollster::block_on (on
/// native backends the future is ready at once): closes the three scopes of `begin_capture` and
/// tells whether none of them caught an error.
#[verifier::external_body]
fn end_capture(gpu: CapturingDevice) -> (r: bool) {
    let internal = pollster::block_on(gpu.device.pop_error_scope());
    let out_of_memory = pollster::block_on(gpu.device.pop_error_scope());
    let validation = pollster::block_on(gpu.device.pop_error_scope());
    internal.is_none() && out_of_memory.is_none() && validation.is_none()
}

/// The format of a render target: the color format it is given, or 32-bit
/// float depth.
#[derive(Clone, Copy, Debug)]
pub enum TargetFormat {
    Color(wgpu::TextureFormat),
    Depth32Float,
}

/// How a render target may be used.
#[derive(Clone, Copy, Debug, PartialEq, Eq, Structural)]
pub enum TargetUsage {
    /// A render attachment only.
    AttachmentOnly,
    /// A render attachment that shaders may also sample.
    AttachmentAndSampled,
}

/// A 2D render-target texture with what it was created as: its size as
/// `(width, height, layers)`, format and usage.
pub struct TargetTexture {
    pub texture: wgpu::Texture,
    pub size: (u32, u32, u32),
    pub format: TargetFormat,
    pub usage: TargetUsage,
}

/// Relies on wgpu::Device::create_texture: a 2D texture with one mip level,
/// one sample and one layer, of the given size, format and usage. Its size is
/// read back through wgpu::Texture::width, height and depth_or_array_layers,
/// which always equal the size it was created with. An invalid request is
/// reported to the open error scopes, not the panicking default handler.
#[verifier::external_body]
fn create_texture_2d(
    gpu: &CapturingDevice,
    label: &str,
    format: TargetFormat,
    usage: TargetUsage,
    width: u32,
    height: u32,
) -> (r: TargetTexture)
    ensures
        r.size == (width, height, 1u32),
        r.format == format,
        r.usage == usage,
{
    let wgpu_format = match format {
        TargetFormat::Color(f) => f,
        TargetFormat::Depth32Float => wgpu::TextureFormat::Depth32Float,
    };
    let wgpu_usage = match usage {
        TargetUsage::AttachmentOnly => wgpu::TextureUsages::RENDER_ATTACHMENT,
        TargetUsage::AttachmentAndSampled => wgpu::TextureUsages::RENDER_ATTACHMENT
            | wgpu::TextureUsages::TEXTURE_BINDING,
    };
    let texture = gpu.device.create_texture(&wgpu::TextureDescriptor { label: Some(label),
        size: wgpu::Extent3d { width, height, depth_or_array_layers: 1 }, mip_level_count: 1,
        sample_count: 1, dimension: wgpu::TextureDimension::D2, format: wgpu_format,
        usage: wgpu_usage, view_formats: &[] });
    let size = (texture.width(), texture.height(), texture.depth_or_array_layers());
    TargetTexture { texture, size, format, usage }
}

/// Relies on wgpu::Texture::create_view: a view of the whole texture. `texture`
/// comes from `gpu`, so an error goes to its open error scopes.
#[verifier::external_body]
fn create_default_view(_gpu: &CapturingDevice, texture: &wgpu::Texture) -> (r: wgpu::TextureView) {
    texture.create_view(&wgpu::TextureViewDescriptor::default())
}

/// An offscreen color + depth target pair that the scene is drawn into and
/// the UI shows as a texture.
///
/// Both textures are created together at the one `(width, height)` stored
/// here, and are only ever replaced together.
pub struct Viewport {
    color: TargetTexture,
    color_view: wgpu::TextureView,
    depth: TargetTexture,
    depth_view: wgpu::TextureView,
    width: u32,
    height: u32,
    format: wgpu::TextureFormat,
}

impl Viewport {
    /// The (width, height) shared by the color and the depth target.
    pub closed spec fn dims(&self) -> (u32, u32) {
        (self.width, self.height)
    }

    /// The color format the viewport was made with.
    pub closed spec fn color_format(&self) -> wgpu::TextureFormat {
        self.format
    }

    /// The color target's format, usage and size.
    pub closed spec fn color_target(&self) -> (TargetFormat, TargetUsage, (u32, u32, u32)) {
        (self.color.format, self.color.usage, self.color.size)
    }

    /// The depth target's format, usage and size.
    pub closed spec fn depth_target(&self) -> (TargetFormat, TargetUsage, (u32, u32, u32)) {
        (self.depth.format, self.depth.usage, self.depth.size)
    }

    /// What a viewport of size `dims` in color format `format` is made of: a
    /// sampled color attachment in that format and a 32-bit float depth
    /// attachment, both one layer of that size.
    pub open spec fn targets_for(self, dims: (u32, u32), format: wgpu::TextureFormat) -> bool {
        &&& dims.0 >= 1
        &&& dims.1 >= 1
        &&& self.dims() == dims
        &&& self.color_format() == format
        &&& self.color_target() == (TargetFormat::Color(format), TargetUsage::AttachmentAndSampled, (
            dims.0,
            dims.1,
            1u32,
        ))
        &&& self.depth_target() == (TargetFormat::Depth32Float, TargetUsage::AttachmentOnly, (
            dims.0,
            dims.1,
            1u32,
        ))
    }

    /// Every viewport holds targets of its own size and format.
    pub open spec fn wf(self) -> bool {
        self.targets_for(self.dims(), self.color_format())
    }

    #[verifier::type_invariant]
    spec fn inv(self) -> bool {
        self.wf()
    }

    /// Allocates both targets at `(max(width, 1), max(height, 1))`: the color
    /// target in `format`, usable as attachment and as sampled texture, the
    /// depth target in 32-bit float depth, usable as attachment only. Returns
    /// `None`, without panicking, when the device rejects either (a side over
    /// its limit, a format it cannot render to and sample, no memory).
    pub fn new(device: &wgpu::Device, format: wgpu::TextureFormat, width: u32, height: u32) -> (r:
        Option<Viewport>)
        ensures
            r matches Some(v) ==> v.wf() && v.targets_for((side(width), side(height)), format),
    {
        let (width, height) = clamp_extent(width, height);
        let gpu = begin_capture(device);
        let color = create_texture_2d(
            &gpu,
            "viewport_color",
            TargetFormat::Color(format),
            TargetUsage::AttachmentAndSampled,
            width,
            height,
        );
        let color_view = create_default_view(&gpu, &color.texture);
        let depth = create_texture_2d(
            &gpu,
            "viewport_depth",
            TargetFormat::Depth32Float,
            TargetUsage::AttachmentOnly,
            width,
            height,
        );
        let depth_view = create_default_view(&gpu, &depth.texture);
        if end_capture(gpu) {
            Some(Viewport { color, color_view, depth, depth_view, width, height, format })
        } else {
            None
        }
    }

    /// Replaces the whole target pair (textures and views) with a new one at
    /// `(max(width, 1), max(height, 1))`, keeping the color format, and returns
    /// true; views taken from the old pair must be fetched again. When the
    /// device rejects the new pair, nothing changes and it returns false.
    pub fn resize(&mut self, device: &wgpu::Device, width: u32, height: u32) -> (r: bool)
        ensures
            final(self).wf(),
            r ==> final(self).targets_for((side(width), side(height)), old(self).color_format()),
            !r ==> *final(self) == *old(self),
    {
        proof {
            use_type_invariant(&*self);
        }
        match Viewport::new(device, self.format, width, height) {
            Some(v) => {
                *self = v;
                true
            },
            None => false,
        }
    }

    /// The current target size.
    pub fn size(&self) -> (r: (u32, u32))
        ensures
            r == self.dims(),
            r.0 >= 1 && r.1 >= 1,
    {
        proof {
            use_type_invariant(self);
        }
        (self.width, self.height)
    }

    /// The color format.
    pub fn format(&self) -> (r: wgpu::TextureFormat)
        ensures
            r == self.color_format(),
    {
        self.format
    }

    /// The color target, to be sampled by the UI.
    pub fn color_texture(&self) -> &wgpu::Texture {
        &self.color.texture
    }

    /// The view the scene pass draws into and the UI registers; it changes on
    /// every resize.
    pub fn color_view(&self) -> &wgpu::TextureView {
        &self.color_view
    }

    /// The depth target.
    pub fn depth_texture(&self) -> &wgpu::Texture {
        &self.depth.texture
    }

    /// The view of the depth target.
    pub fn depth_view(&self) -> &wgpu::TextureView {
        &self.depth_view
    }
}

/// Resizing twice to the same request gives targets of the same size: both
/// textures of either result are one layer of `(max(width, 1), max(height, 1))`,
/// and resizing to the size a resize produced keeps that size.
pub proof fn lemma_resize_idempotent(first: Viewport, second: Viewport, width: u32, height: u32)
    requires
        first.wf(),
        first.dims() == (side(width), side(height)),
        second.wf(),
        second.dims() == (side(width), side(height)),
    ensures
        first.color_target().2 == second.color_target().2,
        first.depth_target().2 == second.depth_target().2,
        first.color_target().2 == first.depth_target().2,
        first.color_target().2 == (side(width), side(height), 1u32),
        (side(first.dims().0), side(first.dims().1)) == first.dims(),
{
}

} // verus!
