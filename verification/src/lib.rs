//! A verified model of a single-pass GPU renderer.
//!
//! The crate owns every decision the renderer makes — adapter selection,
//! surface format negotiation, the power-of-two texture cache, pipeline
//! assembly, the camera controller, and the per-frame command plan — and
//! proves each against its contract.  The GPU and window calls themselves
//! (wgpu, winit) are outside work: a thin driver performs them and feeds
//! their outcomes back into the verified state machine as plain values.

pub mod adapter;
pub mod camera;
pub mod format;
pub mod instances;
pub mod pipeline;
pub mod renderer;
pub mod size_class;
pub mod surface;
pub mod texture_metas;

pub use adapter::AdapterError;
pub use adapter::AdapterProfile;
pub use adapter::AdapterRequest;
pub use adapter::DeviceType;
pub use adapter::Limits;
pub use adapter::PowerPreference;
pub use adapter::select_adapter;
pub use camera::CameraController;
pub use camera::CameraState;
pub use camera::ControlKey;
pub use format::ClearColor;
pub use format::ColorFormat;
pub use format::PresentMode;
pub use format::negotiate_format;
pub use instances::Instance;
pub use pipeline::PipelineLayoutKind;
pub use pipeline::RenderPipeline;
pub use renderer::DrawCommand;
pub use renderer::FramePlan;
pub use renderer::ImageData;
pub use renderer::LoopControl;
pub use renderer::Renderer;
pub use renderer::RendererBuilder;
pub use renderer::RendererError;
pub use renderer::SurfaceError;
pub use size_class::log2_floor;
pub use size_class::pow2_u32;
pub use surface::Surface;
pub use texture_metas::TextureBindGroupMetadatas;
pub use texture_metas::TextureDepthMetadatas;
pub use texture_metas::TextureImageMetadatas;
