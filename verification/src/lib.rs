//! A pluggable terminal-rendering core: a backend contract for output sinks,
//! a cell-diffing renderer, a cursor visibility state machine, and a frame
//! loop driver that guarantees restoration on shutdown.

pub mod backend;
pub mod buffer;
pub mod cell;
pub mod compose;
pub mod cursor;
pub mod diff;
pub mod sim;
pub mod terminal;

pub use backend::Backend;
pub use backend::IoError;
pub use backend::SinkCall;
pub use buffer::Buffer;
pub use cell::Cell;
pub use cell::Position;
pub use cell::Rect;
pub use compose::Composer;
pub use compose::Directive;
pub use compose::DirectiveComposer;
pub use compose::FillComposer;
pub use compose::StampComposer;
pub use cursor::CursorState;
pub use cursor::Visibility;
pub use cursor::clamp_position;
pub use diff::Change;
pub use diff::diff;
pub use diff::full_changes;
pub use sim::RecordedCall;
pub use sim::SimSink;
pub use terminal::DriverError;
pub use terminal::Terminal;
