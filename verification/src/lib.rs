//! Configuration and writing logic of JPEG compression with MozJPEG, with
//! contracts proved by Verus: lazily collected settings applied in an order
//! that `jpeg_set_defaults` cannot undo, the type-safe configuration API, and
//! the checks and row plans used once compression has started.

pub mod density;
pub mod binary32;
pub mod colorspace;
pub mod qtable;
pub mod compress;
pub mod ordering;
pub mod rowbatch;
pub mod typed;
pub mod text;
pub mod validation;
pub mod messages;

pub use colorspace::ColorSpace;
pub use compress::{Compress, CompressStarted, ScanMode};
pub use density::{PixelDensity, PixelDensityUnit};
pub use qtable::QTable;
