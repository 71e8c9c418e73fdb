//! A small retained-mode UI core: a tree of named rectangular sections whose
//! leaves are spans, laid out by fractional sizes inside padded containers,
//! painted as a display list, and hit-tested for pointer events.
//!
//! All geometry is integral: coordinates are whole canvas pixels (`i64`) and
//! fractions are counted in thousandths (`u32`, where [`units::FULL`] is the
//! whole). Arithmetic on coordinates saturates at the ends of `i64`.

pub mod units;
pub mod component;
pub mod paint;
pub mod traits;
pub mod input;
pub mod span;
pub mod content;
pub mod container;
pub mod section;
pub mod scene;
pub mod registry;
pub mod utils;
pub mod counter;
pub mod application;
pub mod lemmas;

pub use crate::application::Application;
pub use crate::container::Container;
pub use crate::counter::FpsCounterProto;
pub use crate::content::Content;
pub use crate::registry::StateProto;
pub use crate::scene::Scene;
pub use crate::section::Section;
pub use crate::span::Span;
pub use crate::span::SpanTrait;
pub use crate::span::TextSpan;
pub use crate::span::WorldSpan;
