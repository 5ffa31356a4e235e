//! Core of a small image-upload service: uploaded byte buffers are turned into
//! inline base64 images, collected in upload order into a view model, and the
//! outcome of rendering or of an OCR round-trip is mapped to a tagged result.
//!
//! Everything in this crate is pure: reading the request, rendering templates
//! and talking to the OCR provider are left to the caller, which hands plain
//! values in and takes plain values back.

pub mod codec;
pub mod image;
pub mod ocr;
pub mod page;
