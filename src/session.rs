//! The capture session: per-display frames held between the start of a capture
//! and the extraction of one region, and the single-session rule.
use crate::encode::{encode_frame, encoded, EncodeError};
use crate::frame::{extract_region, extracted, FrameBuffer};
use crate::region::{clamp_spec, lemma_clamp_within_bounds, window_inside, SelectionCoords};
use std::collections::HashMap;
use vstd::prelude::*;

verus! {

broadcast use vstd::std_specs::hash::group_hash_axioms;

/// The frame captured from one display.
pub struct MonitorInfo {
    pub image: FrameBuffer,
}

/// Session state: the frames of the running capture, by display index, and
/// whether a capture is running.
pub struct CaptureState {
    pub captured_monitors: HashMap<usize, MonitorInfo>,
    pub overlay_active: bool,
}

/// What can go wrong during a capture session.
#[derive(Debug)]
pub enum CaptureError {
    /// No display was found.
    NoMonitors,
    /// Capturing the display with this index failed.
    CaptureFailed { index: usize, message: String },
    /// Creating the overlay over the display with this index failed.
    OverlayFailed { index: usize, message: String },
    /// No frame is held for this display: no session, or its region was taken.
    MissingFrame { monitor_index: usize },
    /// The selection has no width or no height.
    InvalidSelection,
    /// The cut-out region could not be encoded.
    Encoding(EncodeError),
}

/// The frames of a fresh capture, keyed by their position in enumeration order.
pub open spec fn frames_by_index(frames: Seq<FrameBuffer>) -> Map<usize, MonitorInfo> {
    Map::new(|i: usize| 0 <= i < frames.len(), |i: usize| MonitorInfo { image: frames[i as int] })
}

/// The frames that remain when a session starts: a running session is torn down.
pub open spec fn frames_after_start(
    active: bool,
    frames: Map<usize, MonitorInfo>,
    monitor_count: usize,
) -> Map<usize, MonitorInfo> {
    if monitor_count == 0 || !active {
        frames
    } else {
        Map::empty()
    }
}

/// Whether the session is running after a start: it is unless no display exists.
pub open spec fn active_after_start(active: bool, monitor_count: usize) -> bool {
    if monitor_count == 0 {
        active
    } else {
        true
    }
}

/// The frames held after extracting a region of display `index`.
pub open spec fn frames_after_extract(
    frames: Map<usize, MonitorInfo>,
    index: usize,
    c: SelectionCoords,
) -> Map<usize, MonitorInfo> {
    if frames.contains_key(index) && c.width != 0 && c.height != 0 {
        Map::empty()
    } else {
        frames.remove(index)
    }
}

/// What extracting a region of display `index` returns.
pub open spec fn extract_outcome(
    frames: Map<usize, MonitorInfo>,
    index: usize,
    c: SelectionCoords,
) -> Result<Seq<char>, CaptureError> {
    if !frames.contains_key(index) {
        Err(CaptureError::MissingFrame { monitor_index: index })
    } else if c.width == 0 || c.height == 0 {
        Err(CaptureError::InvalidSelection)
    } else {
        match encoded(extracted(frames[index].image, c)) {
            Ok(text) => Ok(text),
            Err(e) => Err(CaptureError::Encoding(e)),
        }
    }
}

/// Whether the session is running after extracting a region of display `index`:
/// a missing frame ends it, success ends it, any other failure leaves it as it was.
pub open spec fn active_after_extract(
    active: bool,
    frames: Map<usize, MonitorInfo>,
    index: usize,
    c: SelectionCoords,
) -> bool {
    match extract_outcome(frames, index, c) {
        Ok(_) => false,
        Err(CaptureError::MissingFrame { .. }) => false,
        Err(_) => active,
    }
}

impl CaptureState {
    /// No session: no frames, not active.
    pub fn new() -> (r: CaptureState)
        ensures
            r.captured_monitors@ == Map::<usize, MonitorInfo>::empty(),
            !r.overlay_active,
    {
        CaptureState { captured_monitors: HashMap::new(), overlay_active: false }
    }
}

impl Default for CaptureState {
    fn default() -> (r: CaptureState)
        ensures
            r.captured_monitors@ == Map::<usize, MonitorInfo>::empty(),
            !r.overlay_active,
    {
        CaptureState::new()
    }
}

/// Begins a session over `monitor_count` enumerated displays. With none, fails and
/// changes nothing. Otherwise a running session is torn down first (its frames are
/// dropped) and the new one is marked active; the result says whether one was torn
/// down, so that its overlays can be destroyed.
pub fn start_screen_capture(state: &mut CaptureState, monitor_count: usize) -> (r: Result<
    bool,
    CaptureError,
>)
    ensures
        monitor_count == 0 ==> r matches Err(CaptureError::NoMonitors),
        monitor_count > 0 ==> r == Ok::<bool, CaptureError>(old(state).overlay_active),
        final(state).captured_monitors@ == frames_after_start(
            old(state).overlay_active,
            old(state).captured_monitors@,
            monitor_count,
        ),
        final(state).overlay_active == active_after_start(old(state).overlay_active, monitor_count),
{
    if monitor_count == 0 {
        return Err(CaptureError::NoMonitors);
    }
    let was_active = state.overlay_active;
    if was_active {
        state.captured_monitors.clear();
    }
    state.overlay_active = true;
    Ok(was_active)
}

/// Records a failed capture of display `index`: the session is no longer active,
/// and the frames of this attempt, never stored, are dropped with it.
pub fn capture_failed(state: &mut CaptureState, index: usize, message: String) -> (r: CaptureError)
    ensures
        r == (CaptureError::CaptureFailed { index, message }),
        !final(state).overlay_active,
        final(state).captured_monitors@ == old(state).captured_monitors@,
{
    state.overlay_active = false;
    CaptureError::CaptureFailed { index, message }
}

/// Records a failed overlay creation over display `index`: the session ends, and its
/// frames, which no overlay can select from any more, are dropped.
pub fn overlay_failed(state: &mut CaptureState, index: usize, message: String) -> (r: CaptureError)
    ensures
        r == (CaptureError::OverlayFailed { index, message }),
        !final(state).overlay_active,
        final(state).captured_monitors@ == Map::<usize, MonitorInfo>::empty(),
{
    state.captured_monitors.clear();
    state.overlay_active = false;
    CaptureError::OverlayFailed { index, message }
}

/// Stores the frames of every display, in enumeration order, as the session's frames.
pub fn store_captures(state: &mut CaptureState, frames: Vec<FrameBuffer>)
    ensures
        final(state).captured_monitors@ == frames_by_index(frames@),
        final(state).overlay_active == old(state).overlay_active,
{
    let ghost all = frames@;
    let mut frames = frames;
    let mut stored: HashMap<usize, MonitorInfo> = HashMap::new();
    while frames.len() > 0
        invariant
            frames@.len() <= all.len(),
            frames@ == all.subrange(0, frames@.len() as int),
            stored@ == Map::new(
                |i: usize| frames@.len() <= i < all.len(),
                |i: usize| MonitorInfo { image: all[i as int] },
            ),
        decreases frames@.len(),
    {
        let ghost before = stored@;
        let frame = frames.pop().unwrap();
        let index = frames.len();
        assert(frames@ =~= all.subrange(0, index as int));
        assert(frame == all[index as int]);
        stored.insert(index, MonitorInfo { image: frame });
        assert(stored@ =~= Map::new(
            |i: usize| frames@.len() <= i < all.len(),
            |i: usize| MonitorInfo { image: all[i as int] },
        ));
    }
    assert(stored@ =~= frames_by_index(all));
    state.captured_monitors = stored;
}

/// Ends the session: every frame is dropped and the session is no longer active.
pub fn close_overlay_window(state: &mut CaptureState)
    ensures
        final(state).captured_monitors@ == Map::<usize, MonitorInfo>::empty(),
        !final(state).overlay_active,
{
    state.captured_monitors.clear();
    state.overlay_active = false;
}

/// Takes the frame of display `monitor_index` out of the session, cuts the clamped
/// selection out of it and encodes the result. A missing frame ends the session. A
/// selection without width or height fails after the frame was taken. Otherwise the
/// remaining frames are dropped, and the session ends when encoding succeeds.
pub fn capture_selected_area(
    state: &mut CaptureState,
    coords: &SelectionCoords,
    monitor_index: usize,
) -> (r: Result<String, CaptureError>)
    ensures
        match extract_outcome(old(state).captured_monitors@, monitor_index, *coords) {
            Ok(text) => r matches Ok(s) && s@ == text,
            Err(e) => r matches Err(e2) && e2 == e,
        },
        final(state).captured_monitors@ == frames_after_extract(
            old(state).captured_monitors@,
            monitor_index,
            *coords,
        ),
        final(state).overlay_active == active_after_extract(
            old(state).overlay_active,
            old(state).captured_monitors@,
            monitor_index,
            *coords,
        ),
{
    let info = match state.captured_monitors.remove(&monitor_index) {
        Some(info) => info,
        None => {
            state.overlay_active = false;
            return Err(CaptureError::MissingFrame { monitor_index });
        },
    };
    if coords.width == 0 || coords.height == 0 {
        return Err(CaptureError::InvalidSelection);
    }
    let region = extract_region(&info.image, coords);
    state.captured_monitors.clear();
    match encode_frame(&region) {
        Ok(text) => {
            state.overlay_active = false;
            Ok(text)
        },
        Err(e) => Err(CaptureError::Encoding(e)),
    }
}

/// Once a region of a display has been extracted, whatever the outcome, a second
/// extraction for the same display fails for want of its frame.
pub proof fn lemma_second_extraction_fails(
    frames: Map<usize, MonitorInfo>,
    index: usize,
    first: SelectionCoords,
    second: SelectionCoords,
)
    ensures
        extract_outcome(frames_after_extract(frames, index, first), index, second) == Err::<
            Seq<char>,
            CaptureError,
        >(CaptureError::MissingFrame { monitor_index: index }),
{
}

/// Starting a session while another one runs drops every frame of the first: after
/// the second start nothing is held, the session is active, and the start reports
/// that a session was torn down; storing the new frames leaves only those.
pub proof fn lemma_restart_replaces_session(
    active: bool,
    frames: Map<usize, MonitorInfo>,
    first_count: usize,
    first: Seq<FrameBuffer>,
    second_count: usize,
    second: Seq<FrameBuffer>,
)
    requires
        first_count > 0,
        second_count > 0,
    ensures
        active_after_start(active, first_count),
        frames_after_start(
            active_after_start(active, first_count),
            frames_by_index(first),
            second_count,
        ) == Map::<usize, MonitorInfo>::empty(),
        active_after_start(active_after_start(active, first_count), second_count),
        forall|i: usize| #[trigger]
            frames_by_index(second).contains_key(i) ==> i < second.len()
                && frames_by_index(second)[i].image == second[i as int],
{
}

/// A selection that reaches past the frame, or starts outside it, is not rejected
/// for that: with a frame held and a non-zero extent, extraction returns the
/// encoding of the clamped window, which lies inside the frame and is not empty on
/// a frame with pixels.
pub proof fn lemma_out_of_range_selection_accepted(
    frames: Map<usize, MonitorInfo>,
    index: usize,
    c: SelectionCoords,
)
    requires
        frames.contains_key(index),
        c.width > 0,
        c.height > 0,
    ensures
        extract_outcome(frames, index, c) == match encoded(extracted(frames[index].image, c)) {
            Ok(text) => Ok::<Seq<char>, CaptureError>(text),
            Err(e) => Err::<Seq<char>, CaptureError>(CaptureError::Encoding(e)),
        },
        window_inside(
            clamp_spec(c, frames[index].image.spec_width(), frames[index].image.spec_height()),
            frames[index].image.spec_width(),
            frames[index].image.spec_height(),
        ),
        frames[index].image.spec_width() > 0 && frames[index].image.spec_height() > 0 ==> {
            &&& extracted(frames[index].image, c).0 > 0
            &&& extracted(frames[index].image, c).1 > 0
        },
{
    lemma_clamp_within_bounds(c, frames[index].image.spec_width(), frames[index].image.spec_height());
}

} // verus!
