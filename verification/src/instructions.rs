//! The instructions of the canvas program, one module each.

pub mod commit_canvas;
pub mod delegate_canvas;
pub mod initialize_canvas;
pub mod place_pixel;
pub mod undelegate_canvas;

pub use commit_canvas::{handle_commit_canvas, CommitCanvas, CommitRequest};
pub use delegate_canvas::{handle_delegate_canvas, DelegateCanvas, DelegateConfig, DelegateRequest};
pub use initialize_canvas::{handle_initialize_canvas, InitializeCanvas, CANVAS_SEED};
pub use place_pixel::{check_placement, handle_place_pixel, PlacePixel, Placement};
pub use undelegate_canvas::{handle_undelegate_canvas, UndelegateCanvas};
