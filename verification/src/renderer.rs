//! The renderer: construction, resize, and the per-frame state machine.
//!
//! A `RendererBuilder` collects the configuration surface — back ends,
//! power preference, present mode, feature and limit sets, clear color,
//! shader source, decoded texture, vertex and index data, an optional
//! camera — and one validating `build` call assembles the long-lived
//! `Renderer` from it and the negotiated surface formats, failing fast with
//! a typed error.  Thereafter `resize` guards zero-area sizes and rebuilds
//! the depth resource and surface, and `redraw` advances the camera and
//! lays out one frame as an exact command plan: clear, bind in fixed slot
//! order, draw, present.  The driver executes each plan on the GPU and
//! feeds frame-acquisition outcomes back in; the recovery policy for a
//! failed acquisition is decided here.

use vstd::prelude::*;
use crate::adapter::{
    AdapterRequest,
    BACKEND_DX12,
    BACKEND_METAL,
    BACKEND_VULKAN,
    Limits,
    PowerPreference,
};
use crate::camera::{
    advance,
    advance_n,
    apply_key,
    lemma_forward_motion_monotonic,
    CameraController,
    CameraState,
    ControlKey,
    DEFAULT_CAMERA_DISTANCE,
    DEFAULT_CAMERA_SPEED,
};
use crate::format::{ClearColor, ColorFormat, PresentMode, UNIT_SCALE, negotiated_format};
use crate::instances::{create_instances, grid_instance, Instance, NUM_INSTANCES_PER_ROW};
use crate::pipeline::{build_pipeline, PipelineLayoutKind, RenderPipeline};
use crate::size_class::{log2_floor, pow2_u32, size_class};
use vstd::arithmetic::power2::pow2;
use crate::surface::Surface;
use crate::texture_metas::{
    bind_group_cache_mirrors,
    image_cache_wf,
    TextureBindGroupMetadatas,
    TextureDepthMetadatas,
    TextureImageMetadatas,
};

verus! {

/// Why construction failed.  Negotiation and resource-load failures are
/// fatal at construction and propagated to the caller.
#[derive(Clone, Copy, Debug, PartialEq, Eq, Structural)]
pub enum RendererError {
    /// No surface or adapter could be obtained.
    SurfaceAdapterRequest,
    /// The logical device could not be obtained from the adapter.
    DeviceRequest,
    /// The texture image cannot be loaded into the cache.
    LoadTexture,
    /// The texture image cannot be enqueued for upload.
    WriteTexture,
    /// The shader source could not be loaded.
    ShaderLoad,
}

impl RendererError {
    /// A short description of the failure.
    pub fn describe(&self) -> (s: &'static str)
        ensures
            *self is SurfaceAdapterRequest ==> s@ == "unable to get a Surface or Adapter"@,
            *self is DeviceRequest ==> s@ == "unable to get a Device"@,
            *self is LoadTexture ==> s@ == "unable to load the texture"@,
            *self is WriteTexture ==> s@ == "unable to enqueue the texture"@,
            *self is ShaderLoad ==> s@ == "unable to load the shader source"@,
    {
        match self {
            RendererError::SurfaceAdapterRequest => "unable to get a Surface or Adapter",
            RendererError::DeviceRequest => "unable to get a Device",
            RendererError::LoadTexture => "unable to load the texture",
            RendererError::WriteTexture => "unable to enqueue the texture",
            RendererError::ShaderLoad => "unable to load the shader source",
        }
    }
}

/// A decoded image: its texel extent and its RGBA pixels, four bytes per
/// texel.  Decoding happens outside; the renderer receives plain bytes.
#[derive(Clone, Debug)]
pub struct ImageData {
    pub width: u32,
    pub height: u32,
    pub pixels: Vec<u8>,
}

/// Whether a texture of this extent has a cell in a cache built for the
/// given maximum texture dimension: both dimensions must be nonzero and
/// their size classes must lie within the cache's class range.
pub open spec fn texture_fits(width: u32, height: u32, max_dimension: u32) -> bool {
    &&& width >= 1
    &&& height >= 1
    &&& max_dimension >= 1
    &&& size_class(width as nat) < size_class(max_dimension as nat)
    &&& size_class(height as nat) < size_class(max_dimension as nat)
}

/// Collects everything a renderer is assembled from.  Every field has a
/// default; setters replace one field each.
#[derive(Clone, Debug)]
pub struct RendererBuilder {
    /// Bitmask of the native back ends the instance may consider.
    pub backends: u32,
    pub power_preference: PowerPreference,
    pub force_fallback_adapter: bool,
    pub preferred_format: Option<ColorFormat>,
    pub present_mode: PresentMode,
    /// Bitmask of the features the device is requested with.
    pub features: u64,
    pub limits: Limits,
    pub camera: Option<CameraState>,
    /// Shader text; absent means no pipeline and a headless clear.
    pub shader_source: Option<String>,
    /// Decoded texture image; absent means camera-only binding.
    pub texture: Option<ImageData>,
    /// Raw contents of the mesh vertex buffer.
    pub vertices: Option<Vec<u8>>,
    pub indices: Option<Vec<u32>>,
    pub clear_color: Option<ClearColor>,
}

/// What a successful `build` hands back: every conjunct pins one field of
/// the assembled renderer to the builder's configuration and the
/// negotiated formats.
pub open spec fn built_renderer_ok(
    r: Result<Renderer, RendererError>,
    b: RendererBuilder,
    window_width: u32,
    window_height: u32,
    formats: Seq<ColorFormat>,
) -> bool {
    r matches Ok(rr) && {
        &&& rr.window_width == window_width
        &&& rr.window_height == window_height
        &&& rr.clear_color == (match b.clear_color {
            Some(c) => c,
            None => ClearColor { r: UNIT_SCALE, g: UNIT_SCALE, b: UNIT_SCALE, a: UNIT_SCALE },
        })
        &&& rr.surface.width == window_width
        &&& rr.surface.height == window_height
        &&& Some(rr.surface.format) == negotiated_format(formats, b.preferred_format)
        &&& rr.surface.present_mode == b.present_mode
        &&& rr.surface.configured
        &&& rr.surface.generation == 1
        &&& rr.camera == (match b.camera {
            Some(c) => c,
            None => CameraState {
                distance: DEFAULT_CAMERA_DISTANCE,
                yaw: 0u64,
                width: window_width,
                height: window_height,
            },
        })
        &&& rr.camera_controller == (CameraController {
            speed: DEFAULT_CAMERA_SPEED,
            is_forward_pressed: false,
            is_backward_pressed: false,
            is_left_pressed: false,
            is_right_pressed: false,
        })
        &&& (b.texture is Some ==> image_cache_wf(
            rr.texture_image_metadatas@,
            rr.surface.format,
            size_class(b.limits.max_texture_dimension_2d as nat),
        ))
        &&& (b.texture is None ==> rr.texture_image_metadatas@.len() == 0)
        &&& bind_group_cache_mirrors(
            rr.texture_bind_group_metadatas@,
            rr.texture_image_metadatas@,
        )
        &&& rr.texture_depth_metadatas == (TextureDepthMetadatas {
            width: window_width,
            height: window_height,
        })
        &&& rr.texture_class == (match b.texture {
            Some(t) => Some(
                (size_class(t.width as nat) as u32, size_class(t.height as nat) as u32),
            ),
            None => None::<(u32, u32)>,
        })
        &&& (match b.shader_source {
            Some(src) => rr.renderer_pipeline matches Some(p) && {
                &&& p.shader_source@ == src@
                &&& p.layout == (if b.texture is Some {
                    PipelineLayoutKind::TextureAndCamera
                } else {
                    PipelineLayoutKind::CameraOnly
                })
                &&& p.color_target_format == rr.surface.format
                &&& p.has_vertex_layout == (b.vertices is Some)
            },
            None => rr.renderer_pipeline is None,
        })
        &&& rr.vertex_data == b.vertices
        &&& rr.index_data == b.indices
        &&& rr.num_indices == (match b.indices {
            Some(v) => v@.len(),
            None => 0,
        })
        &&& (b.vertices is Some ==> (rr.instances matches Some(inst) && inst@.len()
            == NUM_INSTANCES_PER_ROW * NUM_INSTANCES_PER_ROW && (forall|k: int|
            0 <= k < inst@.len() ==> #[trigger] inst@[k] == grid_instance(k))))
        &&& (b.vertices is None ==> rr.instances is None)
        &&& rr.texture_image == b.texture
        &&& rr.wf()
    }
}

impl RendererBuilder {
    /// A fresh builder holding every default: the three first-tier back
    /// ends, high performance preferred, no fallback forced, vertical-sync
    /// presentation, no optional feature, the conservative limit set, and
    /// no resource supplied yet.
    pub fn new() -> (b: RendererBuilder)
        ensures
            b.backends == BACKEND_VULKAN | BACKEND_DX12 | BACKEND_METAL,
            b.power_preference == PowerPreference::HighPerformance,
            !b.force_fallback_adapter,
            b.preferred_format is None,
            b.present_mode == PresentMode::Fifo,
            b.features == 0,
            b.limits.max_texture_dimension_2d == 2048,
            b.camera is None,
            b.shader_source is None,
            b.texture is None,
            b.vertices is None,
            b.indices is None,
            b.clear_color is None,
    {
        RendererBuilder {
            backends: BACKEND_VULKAN | BACKEND_DX12 | BACKEND_METAL,
            power_preference: PowerPreference::HighPerformance,
            force_fallback_adapter: false,
            preferred_format: None,
            present_mode: PresentMode::Fifo,
            features: 0,
            limits: Limits::downlevel_defaults(),
            camera: None,
            shader_source: None,
            texture: None,
            vertices: None,
            indices: None,
            clear_color: None,
        }
    }

    pub fn with_backends(self, backends: u32) -> (r: RendererBuilder)
        ensures
            r == (RendererBuilder { backends, ..self }),
    {
        RendererBuilder { backends, ..self }
    }

    pub fn with_power_preference(self, power_preference: PowerPreference) -> (r: RendererBuilder)
        ensures
            r == (RendererBuilder { power_preference, ..self }),
    {
        RendererBuilder { power_preference, ..self }
    }

    pub fn with_force_fallback_adapter(self, force_fallback_adapter: bool) -> (r: RendererBuilder)
        ensures
            r == (RendererBuilder { force_fallback_adapter, ..self }),
    {
        RendererBuilder { force_fallback_adapter, ..self }
    }

    pub fn with_preferred_format(self, preferred_format: Option<ColorFormat>) -> (r:
        RendererBuilder)
        ensures
            r == (RendererBuilder { preferred_format, ..self }),
    {
        RendererBuilder { preferred_format, ..self }
    }

    pub fn with_present_mode(self, present_mode: PresentMode) -> (r: RendererBuilder)
        ensures
            r == (RendererBuilder { present_mode, ..self }),
    {
        RendererBuilder { present_mode, ..self }
    }

    pub fn with_features(self, features: u64) -> (r: RendererBuilder)
        ensures
            r == (RendererBuilder { features, ..self }),
    {
        RendererBuilder { features, ..self }
    }

    pub fn with_limits(self, limits: Limits) -> (r: RendererBuilder)
        ensures
            r == (RendererBuilder { limits, ..self }),
    {
        RendererBuilder { limits, ..self }
    }

    pub fn with_camera(self, camera: Option<CameraState>) -> (r: RendererBuilder)
        ensures
            r == (RendererBuilder { camera, ..self }),
    {
        RendererBuilder { camera, ..self }
    }

    pub fn with_shader_source(self, shader_source: String) -> (r: RendererBuilder)
        ensures
            r == (RendererBuilder { shader_source: Some(shader_source), ..self }),
    {
        RendererBuilder { shader_source: Some(shader_source), ..self }
    }

    pub fn with_texture(self, texture: ImageData) -> (r: RendererBuilder)
        ensures
            r == (RendererBuilder { texture: Some(texture), ..self }),
    {
        RendererBuilder { texture: Some(texture), ..self }
    }

    pub fn with_vertices(self, vertices: Vec<u8>) -> (r: RendererBuilder)
        ensures
            r == (RendererBuilder { vertices: Some(vertices), ..self }),
    {
        RendererBuilder { vertices: Some(vertices), ..self }
    }

    pub fn with_indices(self, indices: Vec<u32>) -> (r: RendererBuilder)
        ensures
            r == (RendererBuilder { indices: Some(indices), ..self }),
    {
        RendererBuilder { indices: Some(indices), ..self }
    }

    pub fn with_clear_color(self, clear_color: ClearColor) -> (r: RendererBuilder)
        ensures
            r == (RendererBuilder { clear_color: Some(clear_color), ..self }),
    {
        RendererBuilder { clear_color: Some(clear_color), ..self }
    }

    /// The capability request adapter selection works from: the hard
    /// feature, limit and fallback constraints and the soft power
    /// preference, exactly as configured here.
    pub fn adapter_request(&self) -> (rq: AdapterRequest)
        ensures
            rq == (AdapterRequest {
                power_preference: self.power_preference,
                force_fallback_adapter: self.force_fallback_adapter,
                required_features: self.features,
                required_limits: self.limits,
            }),
    {
        AdapterRequest {
            power_preference: self.power_preference,
            force_fallback_adapter: self.force_fallback_adapter,
            required_features: self.features,
            required_limits: self.limits,
        }
    }

    /// Build the complete cache table for the given color format, one cell per
    /// pair of size classes within the device's maximum texture dimension.
    /// It cannot represent a zero-sized texture.
    pub fn create_texture_image_metadatas(format: ColorFormat, max_texture_dimension: u32) -> (r: Vec<
        Vec<TextureImageMetadatas>,
    >)
        requires
            max_texture_dimension >= 1,
        ensures
            image_cache_wf(r@, format, size_class(max_texture_dimension as nat)),
    {
        let qty = log2_floor(max_texture_dimension);
        let mut table: Vec<Vec<TextureImageMetadatas>> = Vec::new();
        let mut i: u32 = 0;
        while i < qty
            invariant
                i <= qty < 32,
                table@.len() == i,
                forall|a: int| 0 <= a < i ==> (#[trigger] table@[a])@.len() == qty,
                forall|a: int, b: int|
                    0 <= a < i && 0 <= b < qty ==> {
                        &&& (#[trigger] table@[a]@[b]).width_class == a
                        &&& table@[a]@[b].height_class == b
                        &&& table@[a]@[b].width == pow2(a as nat)
                        &&& table@[a]@[b].height == pow2(b as nat)
                        &&& table@[a]@[b].format == format
                    },
            decreases qty - i,
        {
            let width = pow2_u32(i);
            let mut row: Vec<TextureImageMetadatas> = Vec::new();
            let mut j: u32 = 0;
            while j < qty
                invariant
                    j <= qty < 32,
                    i < qty,
                    width == pow2(i as nat),
                    row@.len() == j,
                    forall|b: int|
                        0 <= b < j ==> {
                            &&& (#[trigger] row@[b]).width_class == i
                            &&& row@[b].height_class == b
                            &&& row@[b].width == pow2(i as nat)
                            &&& row@[b].height == pow2(b as nat)
                            &&& row@[b].format == format
                        },
                decreases qty - j,
            {
                let height = pow2_u32(j);
                row.push(
                    TextureImageMetadatas { width_class: i, height_class: j, width, height, format },
                );
                j = j + 1;
            }
            table.push(row);
            i = i + 1;
        }
        table
    }

    /// Build the bind-group table beside an image cache table: one bind group
    /// per cached texture, wrapping that texture's view.
    pub fn create_texture_bind_group_metadatas(
        texture_image_metadatas: &Vec<Vec<TextureImageMetadatas>>,
    ) -> (r: Vec<Vec<TextureBindGroupMetadatas>>)
        ensures
            bind_group_cache_mirrors(r@, texture_image_metadatas@),
    {
        let mut table: Vec<Vec<TextureBindGroupMetadatas>> = Vec::new();
        let mut i: usize = 0;
        while i < texture_image_metadatas.len()
            invariant
                i <= texture_image_metadatas@.len(),
                table@.len() == i,
                forall|a: int|
                    0 <= a < i ==> (#[trigger] table@[a])@.len() == texture_image_metadatas@[a]@.len(),
                forall|a: int, b: int|
                    0 <= a < i && 0 <= b < texture_image_metadatas@[a]@.len() ==> {
                        &&& (#[trigger] table@[a]@[b]).width_class
                            == texture_image_metadatas@[a]@[b].width_class
                        &&& table@[a]@[b].height_class == texture_image_metadatas@[a]@[b].height_class
                    },
            decreases texture_image_metadatas@.len() - i,
        {
            let source_row = &texture_image_metadatas[i];
            let mut row: Vec<TextureBindGroupMetadatas> = Vec::new();
            let mut j: usize = 0;
            while j < source_row.len()
                invariant
                    j <= source_row@.len(),
                    source_row@ == texture_image_metadatas@[i as int]@,
                    i < texture_image_metadatas@.len(),
                    row@.len() == j,
                    forall|b: int|
                        0 <= b < j ==> {
                            &&& (#[trigger] row@[b]).width_class == source_row@[b].width_class
                            &&& row@[b].height_class == source_row@[b].height_class
                        },
                decreases source_row@.len() - j,
            {
                let cell = &source_row[j];
                row.push(
                    TextureBindGroupMetadatas {
                        width_class: cell.width_class,
                        height_class: cell.height_class,
                    },
                );
                j = j + 1;
            }
            table.push(row);
            i = i + 1;
        }
        table
    }

    /// Assemble the renderer, validating as it goes.
    ///
    /// `supported_formats` is what the negotiated adapter reports for the
    /// surface, in preference order.  Construction fails fast with a typed
    /// error: `SurfaceAdapterRequest` exactly when no format is supported,
    /// `LoadTexture` exactly when a supplied texture has no cell in the
    /// cache's class range, and `WriteTexture` exactly when its pixel
    /// payload is not four bytes per texel.  On success every field of the
    /// renderer is pinned by `built_renderer_ok`.
    pub fn build(
        self,
        window_width: u32,
        window_height: u32,
        supported_formats: &Vec<ColorFormat>,
    ) -> (r: Result<Renderer, RendererError>)
        requires
            window_width >= 1,
            window_height >= 1,
            self.indices is Some ==> self.vertices is Some,
            self.camera matches Some(c) ==> c.wf(),
            self.indices matches Some(v) ==> v@.len() <= u32::MAX,
        ensures
            supported_formats@.len() == 0 ==> r == Err::<Renderer, RendererError>(
                RendererError::SurfaceAdapterRequest,
            ),
            supported_formats@.len() > 0 ==> (match self.texture {
                Some(t) => {
                    if !texture_fits(t.width, t.height, self.limits.max_texture_dimension_2d) {
                        r == Err::<Renderer, RendererError>(RendererError::LoadTexture)
                    } else if t.pixels@.len() != 4 * t.width * t.height {
                        r == Err::<Renderer, RendererError>(RendererError::WriteTexture)
                    } else {
                        built_renderer_ok(r, self, window_width, window_height, supported_formats@)
                    }
                },
                None => built_renderer_ok(
                    r,
                    self,
                    window_width,
                    window_height,
                    supported_formats@,
                ),
            }),
    {
        let surface_opt = Surface::new(
            window_width,
            window_height,
            supported_formats,
            self.preferred_format,
            self.present_mode,
        );
        let mut surface = match surface_opt {
            Some(s) => s,
            None => {
                return Err(RendererError::SurfaceAdapterRequest);
            },
        };
        surface.configure();

        let texture_class: Option<(u32, u32)> = match &self.texture {
            Some(t) => {
                let max = self.limits.max_texture_dimension_2d;
                if t.width == 0 || t.height == 0 || max == 0 {
                    return Err(RendererError::LoadTexture);
                }
                let qty = log2_floor(max);
                let wc = log2_floor(t.width);
                let hc = log2_floor(t.height);
                if wc >= qty || hc >= qty {
                    return Err(RendererError::LoadTexture);
                }
                proof {
                    crate::size_class::lemma_size_class_small(max as nat);
                    crate::size_class::lemma_size_class_bounds(t.width as nat);
                    crate::size_class::lemma_size_class_bounds(t.height as nat);
                    vstd::arithmetic::power2::lemma2_to64();
                    if ((wc + 1) as nat) < 31 {
                        vstd::arithmetic::power2::lemma_pow2_strictly_increases(
                            (wc + 1) as nat,
                            31nat,
                        );
                    }
                    if ((hc + 1) as nat) < 31 {
                        vstd::arithmetic::power2::lemma_pow2_strictly_increases(
                            (hc + 1) as nat,
                            31nat,
                        );
                    }
                    assert(t.width < 0x80000000 && t.height < 0x80000000);
                    assert(4 * (t.width as int) * (t.height as int) < 0x10000000000000000int)
                        by (nonlinear_arith)
                        requires
                            0 < t.width < 0x80000000int,
                            0 < t.height < 0x80000000int,
                    ;
                }
                let expected: u64 = 4u64 * (t.width as u64) * (t.height as u64);
                if (t.pixels.len() as u64) != expected {
                    return Err(RendererError::WriteTexture);
                }
                Some((wc, hc))
            },
            None => None,
        };

        let camera = match self.camera {
            Some(c) => c,
            None => CameraState::new(window_width, window_height),
        };
        let camera_controller = CameraController::new(DEFAULT_CAMERA_SPEED);

        let texture_image_metadatas: Vec<Vec<TextureImageMetadatas>> = if self.texture.is_some() {
            RendererBuilder::create_texture_image_metadatas(
                surface.format,
                self.limits.max_texture_dimension_2d,
            )
        } else {
            Vec::new()
        };
        let texture_bind_group_metadatas: Vec<Vec<TextureBindGroupMetadatas>> = if self
            .texture
            .is_some() {
            RendererBuilder::create_texture_bind_group_metadatas(&texture_image_metadatas)
        } else {
            Vec::new()
        };
        let texture_depth_metadatas = TextureDepthMetadatas::new(window_width, window_height);

        let has_vertices = self.vertices.is_some();
        let has_texture = self.texture.is_some();
        let renderer_pipeline = match self.shader_source {
            Some(src) => Some(build_pipeline(src, surface.format, has_vertices, has_texture)),
            None => None,
        };

        let num_indices: u32 = match &self.indices {
            Some(v) => v.len() as u32,
            None => 0,
        };
        let instances = if has_vertices {
            Some(create_instances())
        } else {
            None
        };

        Ok(
            Renderer {
                window_width,
                window_height,
                clear_color: match self.clear_color {
                    Some(c) => c,
                    None => ClearColor::white(),
                },
                surface,
                camera,
                camera_controller,
                texture_image_metadatas,
                texture_bind_group_metadatas,
                texture_depth_metadatas,
                texture_class,
                renderer_pipeline,
                vertex_data: self.vertices,
                index_data: self.indices,
                num_indices,
                instances,
                texture_image: self.texture,
            },
        )
    }
}

/// The long-lived owner of the frame's draw state.
#[derive(Debug)]
pub struct Renderer {
    pub window_width: u32,
    pub window_height: u32,
    pub clear_color: ClearColor,
    pub surface: Surface,
    pub camera: CameraState,
    pub camera_controller: CameraController,
    pub texture_image_metadatas: Vec<Vec<TextureImageMetadatas>>,
    pub texture_bind_group_metadatas: Vec<Vec<TextureBindGroupMetadatas>>,
    pub texture_depth_metadatas: TextureDepthMetadatas,
    /// The cache cell of the loaded texture: its pair of size classes.
    pub texture_class: Option<(u32, u32)>,
    pub renderer_pipeline: Option<RenderPipeline>,
    pub vertex_data: Option<Vec<u8>>,
    pub index_data: Option<Vec<u32>>,
    pub num_indices: u32,
    pub instances: Option<Vec<Instance>>,
    /// The loaded texture image, kept for the one-time upload.
    pub texture_image: Option<ImageData>,
}

/// How the surface reported a failed frame acquisition.
#[derive(Clone, Copy, Debug, PartialEq, Eq, Structural)]
pub enum SurfaceError {
    /// The frame took too long to become available: recoverable.
    Timeout,
    /// The surface no longer matches the window: recoverable.
    Outdated,
    /// The surface was lost and must be reconfigured.
    Lost,
    /// The system is out of memory: fatal.
    OutOfMemory,
}

/// What the frame loop should do after a failed acquisition was handled.
#[derive(Clone, Copy, Debug, PartialEq, Eq, Structural)]
pub enum LoopControl {
    Continue,
    Exit,
}

/// One recorded step of the render pass, in issue order.
#[derive(Clone, Copy, Debug, PartialEq, Eq, Structural)]
pub enum DrawCommand {
    SetPipeline,
    /// Bind the cached texture-and-sampler group of the given cache cell.
    BindTextureGroup { slot: u32, width_class: u32, height_class: u32 },
    /// Bind the camera uniform group.
    BindCameraGroup { slot: u32 },
    /// Bind a vertex buffer: slot 0 holds the mesh, slot 1 the instances.
    SetVertexBuffer { slot: u32 },
    SetIndexBuffer,
    /// Draw the full index range once per instance.
    DrawIndexed { index_count: u32, instance_count: u32 },
    /// The fallback draw when no real geometry was supplied.
    Draw { vertex_count: u32, instance_count: u32 },
}

/// One frame, fully planned: the driver clears the color target to the
/// clear color and the depth target to the far value, uploads the camera,
/// replays the commands in order, then submits and presents.
#[derive(Clone, Debug, PartialEq, Eq)]
pub struct FramePlan {
    pub frame_width: u32,
    pub frame_height: u32,
    pub clear_color: ClearColor,
    /// Depth clear value in millionths: always full scale, the far plane.
    pub depth_clear: u32,
    /// The camera state to upload to the uniform buffer before the pass.
    pub camera: CameraState,
    pub commands: Vec<DrawCommand>,
}

/// The exact command sequence one frame records against the given state:
/// nothing without a pipeline; otherwise the pipeline, the bind groups in
/// fixed slot order (texture at 0 and camera at 1 when a texture is
/// present, camera alone at 0 otherwise), the vertex and instance buffers,
/// and one indexed draw over the full index range replicated across every
/// instance — or the fallback three-vertex draw when no index buffer
/// exists.
pub open spec fn planned_commands(r: Renderer) -> Seq<DrawCommand> {
    if r.renderer_pipeline is None {
        Seq::empty()
    } else {
        seq![DrawCommand::SetPipeline] + (match r.texture_class {
            Some((wc, hc)) => seq![
                DrawCommand::BindTextureGroup { slot: 0u32, width_class: wc, height_class: hc },
                DrawCommand::BindCameraGroup { slot: 1u32 },
            ],
            None => seq![DrawCommand::BindCameraGroup { slot: 0u32 }],
        }) + (if r.vertex_data is Some {
            seq![DrawCommand::SetVertexBuffer { slot: 0u32 }]
        } else {
            Seq::empty()
        }) + (if r.instances is Some {
            seq![DrawCommand::SetVertexBuffer { slot: 1u32 }]
        } else {
            Seq::empty()
        }) + (if r.index_data is Some {
            seq![
                DrawCommand::SetIndexBuffer,
                DrawCommand::DrawIndexed {
                    index_count: r.num_indices,
                    instance_count: (match r.instances {
                        Some(v) => v@.len() as u32,
                        None => 1u32,
                    }),
                },
            ]
        } else {
            seq![DrawCommand::Draw { vertex_count: 3u32, instance_count: 1u32 }]
        })
    }
}

/// What `refresh_current_size` does to the state: the surface is
/// reconfigured to the recorded window size, and one more configuration is
/// counted — unless the window has zero area, in which case nothing at all
/// changes.
pub open spec fn spec_refresh_current_size(r: Renderer) -> Renderer {
    if r.window_width >= 1 && r.window_height >= 1 {
        Renderer {
            surface: Surface {
                width: r.window_width,
                height: r.window_height,
                configured: true,
                generation: (r.surface.generation + 1) as u64,
                ..r.surface
            },
            ..r
        }
    } else {
        r
    }
}

/// What `resize` does to the state: the recorded window size always takes
/// the new value; a zero-area size changes nothing else, while a real size
/// recreates the depth resource at the new extent and reconfigures the
/// surface to it.
pub open spec fn spec_resize(r: Renderer, width: u32, height: u32) -> Renderer {
    let moved = Renderer { window_width: width, window_height: height, ..r };
    if width >= 1 && height >= 1 {
        spec_refresh_current_size(
            Renderer {
                texture_depth_metadatas: TextureDepthMetadatas { width, height },
                ..moved
            },
        )
    } else {
        moved
    }
}

/// What one `redraw` call does to the state: the camera advances by one
/// tick of the controller's integrated velocity and nothing else moves.
pub open spec fn spec_redraw_state(r: Renderer) -> Renderer {
    Renderer { camera: advance(r.camera_controller, r.camera), ..r }
}

/// The state after `n` consecutive `redraw` calls.
pub open spec fn spec_redraw_n(r: Renderer, n: nat) -> Renderer
    decreases n,
{
    if n == 0 {
        r
    } else {
        spec_redraw_state(spec_redraw_n(r, (n - 1) as nat))
    }
}

impl Renderer {
    /// Internal consistency of the assembled state.
    pub open spec fn wf(self) -> bool {
        &&& self.surface.wf()
        &&& self.surface.configured
        &&& self.camera.wf()
        &&& self.camera_controller.wf()
        &&& image_cache_wf(
            self.texture_image_metadatas@,
            self.surface.format,
            self.texture_image_metadatas@.len() as nat,
        )
        &&& bind_group_cache_mirrors(
            self.texture_bind_group_metadatas@,
            self.texture_image_metadatas@,
        )
        &&& (self.texture_class matches Some((wc, hc)) ==> {
            &&& (wc as int) < self.texture_image_metadatas@.len()
            &&& (hc as int) < self.texture_image_metadatas@.len()
        })
        &&& (self.renderer_pipeline matches Some(p) ==> p.layout == (if self.texture_class
            is Some {
            PipelineLayoutKind::TextureAndCamera
        } else {
            PipelineLayoutKind::CameraOnly
        }))
        &&& (self.instances is Some <==> self.vertex_data is Some)
        &&& (self.index_data is Some ==> self.vertex_data is Some)
        &&& (self.instances matches Some(v) ==> v@.len() == NUM_INSTANCES_PER_ROW
            * NUM_INSTANCES_PER_ROW)
        &&& self.num_indices == (match self.index_data {
            Some(v) => v@.len(),
            None => 0,
        })
    }

    /// The window's physical size.
    pub fn get_size(&self) -> (r: (u32, u32))
        ensures
            r == (self.window_width, self.window_height),
    {
        (self.window_width, self.window_height)
    }

    /// Reconfigure the surface for the current window size.  A zero-area
    /// window leaves the GPU surface untouched.
    pub fn refresh_current_size(&mut self)
        requires
            old(self).wf(),
            old(self).surface.generation < u64::MAX,
        ensures
            *final(self) == spec_refresh_current_size(*old(self)),
            final(self).wf(),
    {
        if self.window_width >= 1 && self.window_height >= 1 {
            let width = self.window_width;
            let height = self.window_height;
            self.surface.update(width, height);
        }
    }

    /// Resize the renderer.  A zero-area size changes the recorded window
    /// size and nothing else — no GPU resource is touched; a real size
    /// recreates the depth resource and reconfigures the surface to it.
    pub fn resize(&mut self, width: u32, height: u32)
        requires
            old(self).wf(),
            old(self).surface.generation < u64::MAX,
        ensures
            *final(self) == spec_resize(*old(self), width, height),
            final(self).wf(),
    {
        self.window_width = width;
        self.window_height = height;
        if width > 0 && height > 0 {
            self.texture_depth_metadatas = TextureDepthMetadatas::new(width, height);
            self.refresh_current_size();
        }
    }

    /// Forward one key event to the camera controller.
    pub fn process_camera_events(&mut self, key: ControlKey, pressed: bool) -> (handled: bool)
        requires
            old(self).wf(),
        ensures
            *final(self) == (Renderer {
                camera_controller: apply_key(old(self).camera_controller, key, pressed),
                ..*old(self)
            }),
            handled <==> key != ControlKey::Other,
            final(self).wf(),
    {
        self.camera_controller.process_events(key, pressed)
    }

    /// Execute one tick of the frame state machine against the acquisition
    /// outcome the driver observed.
    ///
    /// The camera advances by one tick of integrated velocity whether or
    /// not the frame was acquired, as the upload precedes acquisition.  A
    /// successful acquisition yields the full plan for this frame — sized
    /// to the surface, cleared to the clear color and the far depth value,
    /// with the exact command sequence of `planned_commands`; a failed one
    /// returns the error for the recovery policy, with every GPU resource
    /// untouched.
    pub fn redraw(&mut self, acquisition: Result<(), SurfaceError>) -> (r: Result<
        FramePlan,
        SurfaceError,
    >)
        requires
            old(self).wf(),
        ensures
            *final(self) == spec_redraw_state(*old(self)),
            final(self).wf(),
            acquisition matches Err(e) ==> r == Err::<FramePlan, SurfaceError>(e),
            acquisition is Ok ==> (r matches Ok(plan) && {
                &&& plan.frame_width == old(self).surface.width
                &&& plan.frame_height == old(self).surface.height
                &&& plan.clear_color == old(self).clear_color
                &&& plan.depth_clear == UNIT_SCALE
                &&& plan.camera == final(self).camera
                &&& plan.commands@ == planned_commands(*old(self))
            }),
    {
        let controller = self.camera_controller;
        controller.update_camera(&mut self.camera);
        match acquisition {
            Err(e) => Err(e),
            Ok(()) => {
                let mut commands: Vec<DrawCommand> = Vec::new();
                if self.renderer_pipeline.is_some() {
                    commands.push(DrawCommand::SetPipeline);
                    match &self.texture_class {
                        Some(class) => {
                            commands.push(
                                DrawCommand::BindTextureGroup {
                                    slot: 0,
                                    width_class: class.0,
                                    height_class: class.1,
                                },
                            );
                            commands.push(DrawCommand::BindCameraGroup { slot: 1 });
                        },
                        None => {
                            commands.push(DrawCommand::BindCameraGroup { slot: 0 });
                        },
                    }
                    if self.vertex_data.is_some() {
                        commands.push(DrawCommand::SetVertexBuffer { slot: 0 });
                    }
                    if self.instances.is_some() {
                        commands.push(DrawCommand::SetVertexBuffer { slot: 1 });
                    }
                    if self.index_data.is_some() {
                        let instance_count: u32 = match &self.instances {
                            Some(v) => v.len() as u32,
                            None => 1,
                        };
                        commands.push(DrawCommand::SetIndexBuffer);
                        commands.push(
                            DrawCommand::DrawIndexed {
                                index_count: self.num_indices,
                                instance_count,
                            },
                        );
                    } else {
                        commands.push(DrawCommand::Draw { vertex_count: 3, instance_count: 1 });
                    }
                }
                proof {
                    assert(commands@ =~= planned_commands(*old(self)));
                }
                Ok(
                    FramePlan {
                        frame_width: self.surface.width,
                        frame_height: self.surface.height,
                        clear_color: self.clear_color,
                        depth_clear: UNIT_SCALE,
                        camera: self.camera,
                        commands,
                    },
                )
            },
        }
    }

    /// Apply the recovery policy to a failed frame acquisition.
    ///
    /// `Timeout` and `Outdated` resolve themselves by the next frame, so
    /// nothing changes and the loop continues.  `Lost` triggers exactly one
    /// surface reconfiguration, inline, and the loop continues.
    /// `OutOfMemory` is fatal: nothing changes and the loop must exit.
    pub fn on_redraw_error(&mut self, error: SurfaceError) -> (r: LoopControl)
        requires
            old(self).wf(),
            old(self).surface.generation < u64::MAX,
        ensures
            final(self).wf(),
            error == SurfaceError::Timeout || error == SurfaceError::Outdated ==> r
                == LoopControl::Continue && *final(self) == *old(self),
            error == SurfaceError::OutOfMemory ==> r == LoopControl::Exit && *final(self) == *old(
                self,
            ),
            error == SurfaceError::Lost ==> {
                &&& r == LoopControl::Continue
                &&& *final(self) == spec_refresh_current_size(*old(self))
            },
    {
        match error {
            SurfaceError::Timeout => LoopControl::Continue,
            SurfaceError::Outdated => LoopControl::Continue,
            SurfaceError::Lost => {
                self.refresh_current_size();
                LoopControl::Continue
            },
            SurfaceError::OutOfMemory => LoopControl::Exit,
        }
    }
}

/// A zero-area resize leaves every GPU-backed resource untouched — no
/// reallocation, no reconfiguration: the surface, the depth resource, the
/// caches, the pipeline, the buffers, the instances and the camera all
/// keep their values.  Only the recorded window size moves.
pub proof fn lemma_zero_resize_preserves_resources(r: Renderer, width: u32, height: u32)
    requires
        width == 0 || height == 0,
    ensures
        spec_resize(r, width, height).surface == r.surface,
        spec_resize(r, width, height).texture_depth_metadatas == r.texture_depth_metadatas,
        spec_resize(r, width, height).texture_image_metadatas == r.texture_image_metadatas,
        spec_resize(r, width, height).texture_bind_group_metadatas
            == r.texture_bind_group_metadatas,
        spec_resize(r, width, height).renderer_pipeline == r.renderer_pipeline,
        spec_resize(r, width, height).vertex_data == r.vertex_data,
        spec_resize(r, width, height).index_data == r.index_data,
        spec_resize(r, width, height).instances == r.instances,
        spec_resize(r, width, height).camera == r.camera,
        spec_resize(r, width, height).window_width == width,
        spec_resize(r, width, height).window_height == height,
{
}

/// A resize to a real extent sizes the surface to exactly that extent and
/// changes nothing about what the next frame draws; with `redraw`'s
/// contract, the frame planned after the resize is sized to the new width
/// and height.
pub proof fn lemma_resize_then_redraw_frame_size(r: Renderer, width: u32, height: u32)
    requires
        r.wf(),
        width >= 1,
        height >= 1,
    ensures
        spec_resize(r, width, height).surface.width == width,
        spec_resize(r, width, height).surface.height == height,
        spec_resize(r, width, height).wf(),
        planned_commands(spec_resize(r, width, height)) == planned_commands(r),
{
}

/// Without a pipeline a frame records no command at all: the pass still
/// clears the targets and presents, and nothing is drawn.
pub proof fn lemma_headless_clear(r: Renderer)
    requires
        r.renderer_pipeline is None,
    ensures
        planned_commands(r) == Seq::<DrawCommand>::empty(),
{
}

/// With a shader, a texture, vertices and indices all supplied, one frame
/// records exactly: the pipeline; the texture bind group at slot 0 and the
/// camera bind group at slot 1; the mesh vertex buffer at slot 0 and the
/// instance buffer at slot 1; the index buffer; and one indexed draw over
/// the full index range, replicated across the whole instance grid.
pub proof fn lemma_textured_indexed_plan(r: Renderer, wc: u32, hc: u32)
    requires
        r.wf(),
        r.renderer_pipeline is Some,
        r.texture_class == Some((wc, hc)),
        r.vertex_data is Some,
        r.index_data is Some,
    ensures
        planned_commands(r) =~= seq![
            DrawCommand::SetPipeline,
            DrawCommand::BindTextureGroup { slot: 0u32, width_class: wc, height_class: hc },
            DrawCommand::BindCameraGroup { slot: 1u32 },
            DrawCommand::SetVertexBuffer { slot: 0u32 },
            DrawCommand::SetVertexBuffer { slot: 1u32 },
            DrawCommand::SetIndexBuffer,
            DrawCommand::DrawIndexed {
                index_count: r.num_indices,
                instance_count: (NUM_INSTANCES_PER_ROW * NUM_INSTANCES_PER_ROW) as u32,
            },
        ],
{
}

/// A lost surface is reconfigured exactly once, inline: the configuration
/// count rises by one, the surface keeps its negotiated format and present
/// mode, and no other resource moves.
pub proof fn lemma_lost_reconfigures_exactly_once(r: Renderer)
    requires
        r.wf(),
        r.window_width >= 1,
        r.window_height >= 1,
        r.surface.generation < u64::MAX,
    ensures
        spec_refresh_current_size(r).surface.generation == r.surface.generation + 1,
        spec_refresh_current_size(r).surface.format == r.surface.format,
        spec_refresh_current_size(r).surface.present_mode == r.surface.present_mode,
        spec_refresh_current_size(r) == (Renderer {
            surface: spec_refresh_current_size(r).surface,
            ..r
        }),
{
}

/// After any number of frames the camera has advanced exactly that many
/// velocity ticks and nothing else in the renderer has moved.
pub proof fn lemma_redraw_n_only_camera(r: Renderer, n: nat)
    ensures
        spec_redraw_n(r, n) == (Renderer {
            camera: advance_n(r.camera_controller, r.camera, n),
            ..r
        }),
    decreases n,
{
    if n > 0 {
        lemma_redraw_n_only_camera(r, (n - 1) as nat);
    }
}

/// Holding a constant "move forward" input across frames moves the camera
/// monotonically toward its target: the eye-to-target distance never
/// grows, shrinks by exactly one speed step per frame while far enough
/// away, and any run of frames begun more than a step away ends strictly
/// closer than it started.
pub proof fn lemma_constant_forward_input_closes_in(r: Renderer, n: nat)
    requires
        r.camera_controller.is_forward_pressed,
        !r.camera_controller.is_backward_pressed,
        r.camera_controller.speed > 0,
    ensures
        spec_redraw_n(r, n).camera.distance <= r.camera.distance,
        r.camera.distance > n * r.camera_controller.speed ==> spec_redraw_n(r, n).camera.distance
            == r.camera.distance - n * r.camera_controller.speed,
        n > 0 && r.camera.distance > r.camera_controller.speed ==> spec_redraw_n(
            r,
            n,
        ).camera.distance < r.camera.distance,
{
    lemma_redraw_n_only_camera(r, n);
    lemma_forward_motion_monotonic(r.camera_controller, r.camera, n);
}

} // verus!
