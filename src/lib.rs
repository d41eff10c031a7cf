//! Rewrites structured (one JSON object per line) log records into aligned,
//! optionally colored, human-readable lines.

pub mod clock;
pub mod colors;
pub mod facts;
pub mod format;
pub mod record;
pub mod residual;
pub mod terminal;
pub mod text;

pub use clock::Timestamp;
pub use colors::{colorize, colorize_when, Color};
pub use format::{extract_date, extract_severity, format_line, render_line, severity_fmt, Output};
pub use residual::render_residual;
pub use terminal::{color_enabled, version_report};
