//! Text-mode display driver: colours, character cells and the cursor-bearing
//! writer that lays bytes out on a 25 x 80 grid.

pub mod buffer;
pub mod cell;
pub mod color;
pub mod screen;
pub mod writer;

pub use buffer::Buffer;
pub use cell::{ScreenChar, BUFFER_HEIGHT, BUFFER_WIDTH};
pub use color::{Color, ColorCode};
pub use screen::Screen;
pub use writer::{Writer, _print};
