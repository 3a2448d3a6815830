//! Control loop integration: the per-tick step that polls the controller and
//! applies the observed outcome to the display-side state, and the error
//! surface that turns failures into one notification each.

use vstd::prelude::*;

use crate::codec::{
    decode_for_display, decoded_height_of, decoded_rgb_of, decoded_width_of, png_decodable,
    PixelImage,
};
use crate::job::{elapsed_since, poll_emits, poll_next, JobController, Outcome, Phase};
use crate::transport::JobResult;

verus! {

/// What one tick asks the presentation layer to show, exactly once. Every
/// failure produces a notification; none is suppressed or deduplicated.
#[derive(Clone, Debug, PartialEq)]
pub enum Notice {
    /// A generation finished; the elapsed time is ready to display.
    Done { elapsed_ms: u64 },
    /// A generation failed; the message describes why.
    Error { message: String },
}

/// The display-side state the control loop owns exclusively: the decoded
/// image on show, the raw encoded bytes retained verbatim for saving, and the
/// last reported duration.
#[derive(Clone, Debug, PartialEq)]
pub struct DisplayState {
    pub image: Option<PixelImage>,
    pub raw_png: Option<Vec<u8>>,
    pub last_elapsed_ms: Option<u64>,
}

impl DisplayState {
    /// A fresh display: nothing shown, nothing to save.
    pub fn new() -> (d: DisplayState)
        ensures
            d.image is None,
            d.raw_png is None,
            d.last_elapsed_ms is None,
    {
        DisplayState { image: None, raw_png: None, last_elapsed_ms: None }
    }

    /// Whether a save can be offered: exactly when an image is on show.
    pub fn can_save(&self) -> (b: bool)
        ensures
            b == (self.image is Some),
    {
        self.image.is_some()
    }

    /// Applies one observed outcome. On success the encoded bytes are
    /// retained verbatim for saving, decoded for display — the image is shown
    /// exactly when the bytes are readable, and is then their fixed decoding —
    /// and the duration is recorded. On failure nothing changes: a failed
    /// generation never blanks a previously shown image nor touches the bytes
    /// retained for saving, and only the notification carries the message.
    pub fn apply_outcome(&mut self, outcome: Outcome) -> (n: Notice)
        ensures
            outcome.result matches JobResult::Success { png_bytes } ==> {
                &&& final(self).raw_png == Some(png_bytes)
                &&& final(self).last_elapsed_ms == Some(outcome.elapsed_ms)
                &&& (final(self).image is Some <==> png_decodable(png_bytes@))
                &&& (final(self).image matches Some(img) ==> img.wf() && img.rgb@
                    == decoded_rgb_of(png_bytes@) && img.width == decoded_width_of(png_bytes@)
                    && img.height == decoded_height_of(png_bytes@))
                &&& n == (Notice::Done { elapsed_ms: outcome.elapsed_ms })
            },
            outcome.result matches JobResult::Failure { message } ==> {
                &&& *final(self) == *old(self)
                &&& n == (Notice::Error { message })
            },
    {
        match outcome.result {
            JobResult::Success { png_bytes } => {
                self.image = match decode_for_display(&png_bytes) {
                    Ok(img) => Some(img),
                    Err(_) => None,
                };
                self.raw_png = Some(png_bytes);
                self.last_elapsed_ms = Some(outcome.elapsed_ms);
                Notice::Done { elapsed_ms: outcome.elapsed_ms }
            },
            JobResult::Failure { message } => Notice::Error { message },
        }
    }
}

/// One control-loop tick: a single non-blocking poll, and the outcome, if
/// one was observed, applied to the display. A tick never blocks and a tick
/// that observes nothing changes nothing.
pub fn tick(controller: &mut JobController, display: &mut DisplayState, now_ms: u64) -> (n: Option<
    Notice,
>)
    ensures
        exists|terminal: bool|
            final(controller).phase() == #[trigger] poll_next(old(controller).phase(), terminal)
                && (n is Some) == poll_emits(old(controller).phase(), terminal),
        n is None ==> final(controller).phase() == old(controller).phase() && *final(display)
            == *old(display),
        n is Some ==> final(controller).phase() is Idle,
        n matches Some(Notice::Done { elapsed_ms }) ==> (old(controller).phase() matches
            Phase::Running { start_ms } && elapsed_ms == elapsed_since(start_ms, now_ms)
            && final(display).last_elapsed_ms == Some(elapsed_ms)),
        n matches Some(Notice::Done { elapsed_ms }) ==> (final(display).raw_png matches Some(bytes)
            && (final(display).image is Some <==> png_decodable(bytes@))
            && (final(display).image matches Some(img) ==> img.wf()
                && img.rgb@ == decoded_rgb_of(bytes@)
                && img.width == decoded_width_of(bytes@)
                && img.height == decoded_height_of(bytes@))),
        n matches Some(Notice::Error { message }) ==> *final(display) == *old(display),
{
    match controller.poll(now_ms) {
        None => None,
        Some(outcome) => Some(display.apply_outcome(outcome)),
    }
}

} // verus!
