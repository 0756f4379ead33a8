//! The decisions of a minimal Vulkan render loop, verified.
//!
//! The library owns no GPU object and makes no call that touches the device.
//! It decides: which parameters an image chain gets from what the surface
//! reports, what an acquire or present result means, which commands make up
//! a frame, in which order objects are destroyed, and, as a state machine,
//! what the render loop does next. A driver around it carries the decisions
//! out and reports back. Handles pass through as raw 64-bit values.
//!
//! The raw Vulkan codes come from the `ash` bindings, through the trusted
//! readers in [`codes`] and [`names`]; everything else is proved.
pub mod chain;
pub mod codes;
pub mod generation;
pub mod instance;
pub mod names;
pub mod queue_family;
pub mod recorder;
pub mod render_loop;
pub mod required_names;
pub mod shader;
pub mod surface;
pub mod swapchain;
pub mod sync;
pub mod targets;
pub mod teardown;
pub mod window;
