//! The configuration model shared by the status line and the editor.

pub mod edit;
pub mod types;

pub use edit::ColorTarget;
pub use types::AnsiColor;
pub use types::ColorConfig;
pub use types::Config;
pub use types::IconConfig;
pub use types::InputData;
pub use types::OptionEntry;
pub use types::OptionValue;
pub use types::SegmentConfig;
pub use types::SegmentId;
pub use types::StyleConfig;
pub use types::TextStyleConfig;
