//! Verified core of a small image-annotation and OCR viewer.
//!
//! The library holds the logic that is worth proving: the pixel-buffer
//! annotation transform, the texture/state bookkeeping of the render-loop
//! controller, and the OCR dispatcher's state machine with its single-slot
//! result mailbox. Window creation, file dialogs, image decoding, GPU texture
//! upload and the OCR engine itself are platform glue that the surrounding
//! application performs, handing plain values in and out.

pub mod controller;
pub mod ocr;
pub mod pixels;
