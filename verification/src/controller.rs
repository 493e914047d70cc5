//! Render-loop controller: the per-frame decisions of the application. The
//! host windowing system calls into the surrounding program once per frame;
//! that program performs the platform work (file dialog, image decode, GPU
//! texture upload, the background OCR call) and hands the outcomes to these
//! functions as plain values.

use vstd::prelude::*;

use crate::ocr::Dispatcher;
use crate::ocr::OcrOutcome;
use crate::ocr::OcrRequest;
use crate::ocr::SubmissionState;
use crate::ocr::is_default_request;
use crate::ocr::outcome_of;
use crate::pixels::BYTES_PER_PIXEL;
use crate::pixels::annotate;
use crate::pixels::annotated;

verus! {

/// A decoded image: RGBA bytes, row-major, four bytes per pixel.
pub struct DecodedImage {
    pub pixels: Vec<u8>,
    pub width: usize,
    pub height: usize,
}

impl DecodedImage {
    /// The buffer holds exactly `width` x `height` four-byte pixels.
    pub open spec fn wf(self) -> bool {
        self.pixels@.len() == self.width * self.height * BYTES_PER_PIXEL
    }
}

/// Reference to the texture most recently installed by the rendering backend.
/// Each successful open yields a fresh identifier, so the previously
/// installed texture is no longer referenced and the backend may reclaim it.
#[derive(Clone, Copy, PartialEq, Eq, Structural, Debug)]
pub struct TextureRef {
    pub id: u64,
}

/// Render-loop controller state: the selected image path, the installed
/// texture, and the OCR dispatcher. The path and texture are replaced
/// together, only by a successful open.
pub struct App {
    image_path: Option<String>,
    texture: Option<TextureRef>,
    uploads: u64,
    ocr: Dispatcher,
}

impl App {
    /// The selected image path.
    pub closed spec fn path(self) -> Option<String> {
        self.image_path
    }

    /// The installed texture, if any.
    pub closed spec fn texture(self) -> Option<TextureRef> {
        self.texture
    }

    /// How many textures have been installed so far; also the next fresh
    /// texture identifier.
    pub closed spec fn upload_count(self) -> u64 {
        self.uploads
    }

    /// Phase of the most recent OCR submission.
    pub closed spec fn ocr_phase(self) -> SubmissionState {
        self.ocr.phase()
    }

    /// The outcome held in the OCR result mailbox.
    pub closed spec fn ocr_result(self) -> Option<OcrOutcome> {
        self.ocr.result()
    }

    /// Invariant: a texture is installed only while a path is selected, and
    /// its identifier predates the upload counter.
    pub open spec fn wf(self) -> bool {
        &&& self.texture() is Some ==> self.path() is Some
        &&& self.texture() matches Some(t) ==> t.id < self.upload_count()
    }

    /// The initial state: nothing selected, nothing installed, OCR idle.
    pub fn new() -> (r: Self)
        ensures
            r.path() is None,
            r.texture() is None,
            r.upload_count() == 0,
            r.ocr_phase() == SubmissionState::Idle,
            r.ocr_result() is None,
            r.wf(),
    {
        App { image_path: None, texture: None, uploads: 0, ocr: Dispatcher::new() }
    }

    /// Handles one "open file" action. `picked` is what the file dialog
    /// returned, `decoded` what the image decoder produced for that file.
    /// When both are present, the buffer is annotated and returned for the
    /// backend to upload, and the selected path and the texture are replaced
    /// together; when the user cancelled or the file did not decode, the
    /// prior state is left untouched and nothing is returned for upload.
    pub fn handle_open(&mut self, picked: Option<String>, decoded: Option<DecodedImage>) -> (r:
        Option<DecodedImage>)
        requires
            old(self).wf(),
            old(self).upload_count() < u64::MAX,
            decoded matches Some(d) ==> d.wf(),
        ensures
            final(self).wf(),
            final(self).ocr_phase() == old(self).ocr_phase(),
            final(self).ocr_result() == old(self).ocr_result(),
            picked is None || decoded is None ==> r is None && *final(self) == *old(self),
            decoded matches Some(d) ==> picked is Some ==> {
                &&& final(self).path() == picked
                &&& final(self).texture() matches Some(t) && t.id == old(self).upload_count()
                &&& final(self).upload_count() == old(self).upload_count() + 1
                &&& r matches Some(out) && out.width == d.width && out.height == d.height
                    && out.pixels@ == annotated(d.pixels@, d.width as int) && out.wf()
            },
    {
        match (picked, decoded) {
            (Some(path), Some(mut img)) => {
                annotate(&mut img.pixels, img.width, img.height);
                self.image_path = Some(path);
                self.texture = Some(TextureRef { id: self.uploads });
                self.uploads = self.uploads + 1;
                Some(img)
            },
            _ => None,
        }
    }

    /// Handles one "run OCR" action. With a selected path, builds the
    /// fixed-configuration request for it and marks a submission outstanding;
    /// the caller hands the request to the background task. With no selected
    /// path the action is a no-op: no request is constructed and nothing
    /// changes.
    pub fn handle_run_ocr(&mut self) -> (r: Option<OcrRequest>)
        requires
            old(self).wf(),
        ensures
            final(self).wf(),
            final(self).path() == old(self).path(),
            final(self).texture() == old(self).texture(),
            final(self).upload_count() == old(self).upload_count(),
            final(self).ocr_result() == old(self).ocr_result(),
            old(self).path() is None ==> r is None && *final(self) == *old(self),
            old(self).path() matches Some(p) ==> r matches Some(req) && is_default_request(
                req,
                p@,
            ) && final(self).ocr_phase() == SubmissionState::Requested,
    {
        let path: Option<String> = match &self.image_path {
            Some(p) => Some(p.clone()),
            None => None,
        };
        match path {
            Some(p) => Some(self.ocr.submit(&p)),
            None => None,
        }
    }

    /// The background task could not construct the OCR engine: the submission
    /// is aborted and no result becomes pending.
    pub fn ocr_engine_unavailable(&mut self)
        requires
            old(self).wf(),
        ensures
            final(self).wf(),
            final(self).path() == old(self).path(),
            final(self).texture() == old(self).texture(),
            final(self).upload_count() == old(self).upload_count(),
            final(self).ocr_phase() == SubmissionState::Failed,
            final(self).ocr_result() == old(self).ocr_result(),
    {
        self.ocr.engine_unavailable();
    }

    /// The background task finished: records the engine's response in the
    /// result mailbox, last writer wins.
    pub fn ocr_finished(&mut self, response: Result<(String, String, Option<i64>), String>)
        requires
            old(self).wf(),
        ensures
            final(self).wf(),
            final(self).path() == old(self).path(),
            final(self).texture() == old(self).texture(),
            final(self).upload_count() == old(self).upload_count(),
            final(self).ocr_phase() == (if response is Ok {
                SubmissionState::Completed
            } else {
                SubmissionState::Failed
            }),
            final(self).ocr_result() == Some(outcome_of(response)),
    {
        self.ocr.finish(response);
    }

    /// Reads the result mailbox, emptying it: the render loop's once-per-frame
    /// poll for a background completion.
    pub fn poll_ocr(&mut self) -> (r: Option<OcrOutcome>)
        requires
            old(self).wf(),
        ensures
            final(self).wf(),
            final(self).path() == old(self).path(),
            final(self).texture() == old(self).texture(),
            final(self).upload_count() == old(self).upload_count(),
            final(self).ocr_phase() == old(self).ocr_phase(),
            r == old(self).ocr_result(),
            final(self).ocr_result() is None,
    {
        self.ocr.poll()
    }

    /// The per-frame read-only render step: the texture to draw and the path
    /// for its hover label, present exactly when a texture is installed.
    pub fn render_info(&self) -> (r: Option<(TextureRef, &String)>)
        requires
            self.wf(),
        ensures
            r is Some <==> self.texture() is Some,
            r matches Some(t) ==> Some(t.0) == self.texture() && Some(*t.1) == self.path(),
    {
        match (&self.texture, &self.image_path) {
            (Some(t), Some(p)) => Some((*t, p)),
            _ => None,
        }
    }

    /// The selected image path, for display.
    pub fn selected_path(&self) -> (r: &Option<String>)
        ensures
            *r == self.path(),
    {
        &self.image_path
    }

    /// The installed texture reference, for display.
    pub fn texture_ref(&self) -> (r: Option<TextureRef>)
        ensures
            r == self.texture(),
    {
        self.texture
    }

    /// Whether another texture can still be installed; true until the upload
    /// counter reaches its machine limit.
    pub fn can_install_texture(&self) -> (r: bool)
        ensures
            r == (self.upload_count() < u64::MAX),
    {
        self.uploads < u64::MAX
    }

    /// Phase of the most recent OCR submission, for display.
    pub fn ocr_phase_now(&self) -> (r: SubmissionState)
        ensures
            r == self.ocr_phase(),
    {
        self.ocr.current_phase()
    }
}

} // verus!
