pub mod canvas;
pub mod commands;
pub mod error_board;
pub mod layout;
pub mod model;
pub mod text;

pub use commands::Color;
pub use commands::DrawCmd;
pub use commands::FontKind;
pub use commands::RenderError;
pub use error_board::ErrorValue;
pub use model::AgencyEntry;
pub use model::DirectionEntry;
pub use model::LayoutConfig;
pub use model::LineInfo;
pub use model::SectionSpec;
pub use model::StopData;
pub use model::Upcoming;
pub use model::Warning;

use vstd::prelude::*;

verus! {

/// Which physical display class the finished bitmap is meant for. A `Kindle`
/// board is rotated a quarter turn before encoding; any `Other` target takes
/// the buffer as drawn.
#[derive(Clone, Copy, Debug, PartialEq, Eq, Structural)]
pub enum RenderTarget {
    Kindle,
    Other,
}

/// Dimensions of the encoded image for a board drawn at `width x height`:
/// a `Kindle` board is rotated, so its sides are swapped.
pub fn output_dimensions(target: RenderTarget, width: i32, height: i32) -> (r: (i32, i32))
    ensures
        target == RenderTarget::Kindle ==> r == (height, width),
        target == RenderTarget::Other ==> r == (width, height),
{
    match target {
        RenderTarget::Kindle => (height, width),
        RenderTarget::Other => (width, height),
    }
}

} // verus!
