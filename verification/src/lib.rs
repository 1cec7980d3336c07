//! Styled terminal text: colored cells, fixed-length lines with a
//! run-compressing ANSI serializer, and a 2D canvas compositor.

pub mod cell;
pub mod codes;
pub mod color;
pub mod drawer;
pub mod graphics;
pub mod string;

pub use color::AnsiColor;
pub use color::ColorGround;
pub use color::ColorMode;
pub use cell::AnsiChar;
pub use drawer::Drawer;
pub use graphics::AnsiGraphicMode;
pub use graphics::AnsiGraphics;
pub use string::AnsiString;
