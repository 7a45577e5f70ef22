//! Image component logic: attribute enumerations, the layout resolver that
//! turns a layout strategy into container styles, the image's style and
//! attributes, and the lazy-load / fallback controller that decides what
//! happens on each browser event.

pub mod common;
pub mod component;
pub mod json;
pub mod layout;
pub mod loader;
pub mod props;
pub mod text;

pub use common::{
    AriaLive, AriaPressed, CrossOrigin, Decoding, FetchPriority, Layout, Loading, ObjectFit,
    Position, ReferrerPolicy,
};
pub use component::{Image, ImageMarkup};
pub use layout::{container_style, resolve_layout, responsive_padding, LayoutPlan};
pub use loader::{FallbackResponse, ImageLoader, LoaderAction};
pub use props::ImageProps;
