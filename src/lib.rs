//! Bounds-checked reader for FXR visual-effect resource containers.
//!
//! A file is a fixed header followed by offset-addressed sections, several
//! of which nest further sections. Every offset and count is checked against
//! the buffer before anything is read, every container is validated before
//! it is descended into, and a parse either yields the whole tree or a
//! single error.
pub mod bytes;
pub mod fxr;
pub mod header;
pub mod record;
pub mod section1;
pub mod section4;
pub mod section6;
pub mod section7;
pub mod sections;
pub mod select;
pub mod view;
pub mod walk;
