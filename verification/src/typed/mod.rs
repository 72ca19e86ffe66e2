//! Type-safe JPEG encoding API, where invalid configurations are
//! unrepresentable.
pub mod config;
pub mod encoder;

pub use config::{
    ChromaSubsampling, CompressionMode, ConfigError, JpegConfig, JpegInput, Preset, QTableChoice,
    QTableConfig, RawMcuConfig, ScanlineConfig, SmoothingWarning,
};
pub use encoder::{RawMcuEncoder, RawMcuEncoderStarted, RawWriteError, ScanlineEncoder, ScanlineEncoderStarted};
