//! The size-dependent GPU resources and their resize lifecycle.
//!
//! The renderer draws into three textures sized exactly to the window —
//! the high-precision accumulation target, the single-channel revealage
//! target and the depth buffer — and the composite pass reads the first
//! two through one bind group. The four always live and die together:
//! [`RenderTargets`] creates them as one generation, and [`RenderTargets::resize`]
//! replaces the whole generation atomically after the GPU has drained, so
//! no frame can ever be recorded against a bind group whose views belong
//! to a destroyed texture. A resize to a degenerate size is ignored
//! without touching any resource.
//!
//! The GPU objects themselves come from `wgpu` and are opaque to the
//! verifier; every call into `wgpu` sits behind a trusted wrapper below.

use vstd::prelude::*;
use crate::pipeline::TargetFormat;

verus! {

/// Trusted declaration of `wgpu::Instance`, the entry object of the GPU
/// API; the renderer only uses it to drain all outstanding GPU work.
#[verifier::external_type_specification]
#[verifier::external_body]
pub struct ExInstance(wgpu::Instance);

/// Trusted declaration of `wgpu::Device`, the open connection that creates
/// every GPU resource.
#[verifier::external_type_specification]
#[verifier::external_body]
pub struct ExDevice(wgpu::Device);

/// Trusted declaration of `wgpu::Surface`, the presentable swap surface of
/// the window.
#[verifier::external_type_specification]
#[verifier::external_body]
pub struct ExSurface<'window>(wgpu::Surface<'window>);

/// Trusted declaration of `wgpu::Texture`.
#[verifier::external_type_specification]
#[verifier::external_body]
pub struct ExTexture(wgpu::Texture);

/// Trusted declaration of `wgpu::TextureView`, the handle a render pass or
/// bind group attaches a texture through.
#[verifier::external_type_specification]
#[verifier::external_body]
pub struct ExTextureView(wgpu::TextureView);

/// Trusted declaration of `wgpu::BindGroupLayout`.
#[verifier::external_type_specification]
#[verifier::external_body]
pub struct ExBindGroupLayout(wgpu::BindGroupLayout);

/// Trusted declaration of `wgpu::BindGroup`.
#[verifier::external_type_specification]
#[verifier::external_body]
pub struct ExBindGroup(wgpu::BindGroup);

/// Trusted declaration of `wgpu::TextureFormat`, carried between the
/// format-conversion wrapper and the creation wrappers.
#[verifier::external_type_specification]
#[verifier::external_body]
pub struct ExTextureFormat(wgpu::TextureFormat);

/// Converts a [`TargetFormat`] of the verified model into the equal
/// `wgpu` format, one variant for one variant.
#[verifier::external_body]
fn to_wgpu_format(format: &TargetFormat) -> wgpu::TextureFormat {
    match format {
        TargetFormat::Bgra8Unorm => wgpu::TextureFormat::Bgra8Unorm,
        TargetFormat::Rgba16Float => wgpu::TextureFormat::Rgba16Float,
        TargetFormat::R8Unorm => wgpu::TextureFormat::R8Unorm,
        TargetFormat::Depth32Float => wgpu::TextureFormat::Depth32Float,
    }
}

/// Relies on `wgpu::Device::create_texture`: allocates a 2-D texture of
/// the given size and format, with one mip level and one sample, usable as
/// a render attachment and as a texture binding. A zero extent is a
/// validation error that `wgpu` reports as fatal, so the size must be
/// positive; a size beyond the device's limits is likewise fatal, as it is
/// wherever this device is used with a window that large.
#[verifier::external_body]
fn create_target_texture(
    device: &wgpu::Device,
    label: &str,
    width: u32,
    height: u32,
    format: wgpu::TextureFormat,
) -> wgpu::Texture
    requires
        width > 0,
        height > 0,
{
    device.create_texture(
        &wgpu::TextureDescriptor {
            label: Some(label),
            size: wgpu::Extent3d { width, height, depth_or_array_layers: 1 },
            mip_level_count: 1,
            sample_count: 1,
            dimension: wgpu::TextureDimension::D2,
            format,
            usage: wgpu::TextureUsages::RENDER_ATTACHMENT | wgpu::TextureUsages::TEXTURE_BINDING,
            view_formats: &[],
        },
    )
}

/// Relies on `wgpu::Texture::create_view`: creates a view covering the
/// whole texture in its own format.
#[verifier::external_body]
fn create_full_view(texture: &wgpu::Texture) -> wgpu::TextureView {
    texture.create_view(&wgpu::TextureViewDescriptor::default())
}

/// Relies on `wgpu::Device::create_bind_group`: builds the bind group the
/// composite pass reads the accumulation and revealage textures through,
/// with the accumulation view at binding zero and the revealage view at
/// binding one. The bind group holds the given views, so it must be
/// rebuilt whenever the textures are.
#[verifier::external_body]
fn create_oit_bind_group(
    device: &wgpu::Device,
    layout: &wgpu::BindGroupLayout,
    accum_view: &wgpu::TextureView,
    reveal_view: &wgpu::TextureView,
) -> wgpu::BindGroup {
    let accum = wgpu::BindingResource::TextureView(accum_view);
    let reveal = wgpu::BindingResource::TextureView(reveal_view);
    device.create_bind_group(&wgpu::BindGroupDescriptor {
        label: Some("BindGroup(WeightedBlendedOIT)"),
        layout,
        entries: &[
            wgpu::BindGroupEntry { binding: 0, resource: accum },
            wgpu::BindGroupEntry { binding: 1, resource: reveal },
        ],
    })
}

/// Relies on `wgpu::Instance::poll_all` with a forced wait: blocks until
/// every submitted command buffer of every device has finished executing.
/// Destroying a texture still referenced by in-flight GPU work is
/// undefined, so the resize path calls this before it replaces anything.
#[verifier::external_body]
fn wait_for_gpu_idle(instance: &wgpu::Instance) {
    instance.poll_all(true);
}

/// Relies on `wgpu::Surface::configure`: (re)configures the presentation
/// surface at the given size with the renderer's swap-surface format,
/// automatic vsync and a frame latency of two. `wgpu` panics on a zero
/// width or height, so the size must be positive.
#[verifier::external_body]
fn configure_surface_at(
    surface: &wgpu::Surface,
    device: &wgpu::Device,
    format: wgpu::TextureFormat,
    width: u32,
    height: u32,
)
    requires
        width > 0,
        height > 0,
{
    surface.configure(
        device,
        &wgpu::SurfaceConfiguration {
            usage: wgpu::TextureUsages::RENDER_ATTACHMENT,
            format,
            width,
            height,
            present_mode: wgpu::PresentMode::AutoVsync,
            desired_maximum_frame_latency: 2,
            alpha_mode: wgpu::CompositeAlphaMode::Auto,
            view_formats: Vec::new(),
        },
    );
}

/// One generation of the size-dependent render resources: the three
/// texture views the passes attach, the bind group the composite pass
/// samples the first two through, and the size they were all created at.
/// The fields are private so that the four can only ever be replaced
/// together.
pub struct RenderTargets {
    accum_view: wgpu::TextureView,
    reveal_view: wgpu::TextureView,
    depth_view: wgpu::TextureView,
    oit_bind_group: wgpu::BindGroup,
    width: u32,
    height: u32,
}

impl RenderTargets {
    /// The width the current generation was created at, in pixels.
    pub closed spec fn spec_width(self) -> u32 {
        self.width
    }

    /// The height the current generation was created at, in pixels.
    pub closed spec fn spec_height(self) -> u32 {
        self.height
    }

    /// The accumulation view of the current generation.
    pub closed spec fn spec_accum_view(self) -> wgpu::TextureView {
        self.accum_view
    }

    /// The revealage view of the current generation.
    pub closed spec fn spec_reveal_view(self) -> wgpu::TextureView {
        self.reveal_view
    }

    /// The depth view of the current generation.
    pub closed spec fn spec_depth_view(self) -> wgpu::TextureView {
        self.depth_view
    }

    /// The composite bind group of the current generation.
    pub closed spec fn spec_oit_bind_group(self) -> wgpu::BindGroup {
        self.oit_bind_group
    }

    /// Every generation is created at a positive size.
    pub closed spec fn wf(self) -> bool {
        self.width > 0 && self.height > 0
    }

    pub fn width(&self) -> (r: u32)
        ensures
            r == self.spec_width(),
    {
        self.width
    }

    pub fn height(&self) -> (r: u32)
        ensures
            r == self.spec_height(),
    {
        self.height
    }

    /// The depth view the three passes attach as their depth-stencil
    /// attachment.
    pub fn depth_view(&self) -> (r: &wgpu::TextureView)
        ensures
            *r == self.spec_depth_view(),
    {
        &self.depth_view
    }

    /// The accumulation view the transparent pass draws into.
    pub fn accum_view(&self) -> (r: &wgpu::TextureView)
        ensures
            *r == self.spec_accum_view(),
    {
        &self.accum_view
    }

    /// The revealage view the transparent pass draws into.
    pub fn reveal_view(&self) -> (r: &wgpu::TextureView)
        ensures
            *r == self.spec_reveal_view(),
    {
        &self.reveal_view
    }

    /// The bind group of the composite pass; it references exactly the
    /// current generation's accumulation and revealage views.
    pub fn oit_bind_group(&self) -> (r: &wgpu::BindGroup)
        ensures
            *r == self.spec_oit_bind_group(),
    {
        &self.oit_bind_group
    }

    /// Creates the first generation of render targets at the window's
    /// size and configures the presentation surface to match, as at
    /// startup.
    pub fn new(
        surface: &wgpu::Surface,
        device: &wgpu::Device,
        oit_layout: &wgpu::BindGroupLayout,
        width: u32,
        height: u32,
    ) -> (r: RenderTargets)
        requires
            width > 0,
            height > 0,
        ensures
            r.wf(),
            r.spec_width() == width,
            r.spec_height() == height,
    {
        configure_surface_at(
            surface,
            device,
            to_wgpu_format(&TargetFormat::Bgra8Unorm),
            width,
            height,
        );
        Self::create_generation(device, oit_layout, width, height)
    }

    /// Creates the three textures, their views, and the bind group, all at
    /// the given size — one complete generation.
    fn create_generation(
        device: &wgpu::Device,
        oit_layout: &wgpu::BindGroupLayout,
        width: u32,
        height: u32,
    ) -> (r: RenderTargets)
        requires
            width > 0,
            height > 0,
        ensures
            r.wf(),
            r.spec_width() == width,
            r.spec_height() == height,
    {
        let accum_texture = create_target_texture(
            device,
            "Accumulate",
            width,
            height,
            to_wgpu_format(&TargetFormat::Rgba16Float),
        );
        let accum_view = create_full_view(&accum_texture);
        let reveal_texture = create_target_texture(
            device,
            "Revealage",
            width,
            height,
            to_wgpu_format(&TargetFormat::R8Unorm),
        );
        let reveal_view = create_full_view(&reveal_texture);
        let depth_texture = create_target_texture(
            device,
            "DepthStencilBuffer",
            width,
            height,
            to_wgpu_format(&TargetFormat::Depth32Float),
        );
        let depth_view = create_full_view(&depth_texture);
        let oit_bind_group = create_oit_bind_group(device, oit_layout, &accum_view, &reveal_view);
        RenderTargets { accum_view, reveal_view, depth_view, oit_bind_group, width, height }
    }

    /// The resize transition of the resource lifecycle. A degenerate size
    /// (zero width or height, a minimized window) leaves every resource
    /// exactly as it was. A positive size first blocks until all in-flight
    /// GPU work has drained, then reconfigures the presentation surface,
    /// and then replaces the whole resource generation — textures, views
    /// and bind group together — at the new size.
    pub fn resize(
        &mut self,
        instance: &wgpu::Instance,
        surface: &wgpu::Surface,
        device: &wgpu::Device,
        oit_layout: &wgpu::BindGroupLayout,
        width: u32,
        height: u32,
    )
        requires
            old(self).wf(),
        ensures
            final(self).wf(),
            (width == 0 || height == 0) ==> *final(self) == *old(self),
            (width > 0 && height > 0) ==> final(self).spec_width() == width
                && final(self).spec_height() == height,
    {
        if width == 0 || height == 0 {
            return ;
        }
        wait_for_gpu_idle(instance);
        configure_surface_at(
            surface,
            device,
            to_wgpu_format(&TargetFormat::Bgra8Unorm),
            width,
            height,
        );
        *self = Self::create_generation(device, oit_layout, width, height);
    }
}

} // verus!
