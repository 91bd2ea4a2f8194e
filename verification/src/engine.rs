//! The compositor: one render loop driving every video instance.
//!
//! The compositor owns the list of video instances exclusively. Each tick it
//! reads the playback state once; while playing, it asks each instance's
//! pacer whether a frame is due, has the decoder pulled for exactly the due
//! instances, and folds the results back in. End of stream is terminal for
//! one instance only: that instance keeps its last image and is never due
//! again, while the others continue. Decoding, the window system and the GPU
//! stay outside the library: the loop around this type samples the clock,
//! performs the decode and draw calls, and hands their outcomes in as plain
//! values.

use vstd::prelude::*;

use crate::frame::{Frame, TextureResource, frame_wf, texture_wf};
use crate::layout::{
    AspectCorrection, ComposedTransform, MAX_INSTANCES, Placement, aspect_correction, compose,
    layout, placement_at, placement_wf,
};
use crate::pacing::{PlaybackTimer, VideoStatus, is_due, is_due_spec};

verus! {

/// One video's on-screen rectangle: its current texture, its pacing state,
/// and its static placement. The placement and nominal duration are fixed at
/// startup; only the texture, the timer, the acceptance count and the
/// end-of-stream flag ever change.
#[derive(Clone, PartialEq, Eq, Debug)]
pub struct VideoInstance {
    pub placement: Placement,
    pub texture: TextureResource,
    pub timer: PlaybackTimer,
    /// Nominal frame duration in milliseconds; `None` when the container
    /// reported no frame rate, which paces the stream as always due.
    pub nominal_ms: Option<u64>,
    /// Set once the source reported end of stream or failed to decode; the
    /// instance then keeps its last image and is never due again.
    pub finished: bool,
    /// How many frames have been admitted since startup (the initial frame
    /// uploaded at startup not counted).
    pub frames_accepted: u64,
}

/// Everything one instance must satisfy at all times.
pub open spec fn instance_wf(v: VideoInstance) -> bool {
    &&& placement_wf(v.placement)
    &&& texture_wf(v.texture)
}

/// What the decoder produced when asked for one frame. End of stream and an
/// unrecoverable decode failure are both terminal for that one instance —
/// it freezes on its last good image — so one corrupt file never ends the
/// comparison of the others; the failure is only surfaced as a diagnostic at
/// the boundary.
#[derive(Clone, PartialEq, Eq, Debug)]
pub enum DecodeOutcome {
    Frame(Frame),
    EndOfStream,
    Failed,
}

/// Everything the decoder hands over for one source at startup: the first
/// decoded picture and the nominal frame duration derived from the stream's
/// declared frame rate.
#[derive(Clone, PartialEq, Eq, Debug)]
pub struct SourceInit {
    pub first_frame: Frame,
    pub nominal_ms: Option<u64>,
}

/// Why the compositor could not be built. Startup errors abort the whole
/// session: there is no partial session.
#[derive(Clone, Copy, PartialEq, Eq, Structural, Debug)]
pub enum StartupError {
    /// A source's first decoded frame does not match its declared
    /// dimensions.
    InvalidFirstFrame,
}

/// The render-loop state: all instances, the shared playback state, and the
/// current window size (the only input to the aspect correction).
#[derive(Clone, PartialEq, Eq, Debug)]
pub struct Compositor {
    pub instances: Vec<VideoInstance>,
    pub video_status: VideoStatus,
    pub window_width: u32,
    pub window_height: u32,
}

/// Compositor invariant: every instance is well formed and the window has a
/// positive size (a render surface cannot be configured otherwise).
pub open spec fn compositor_wf(c: Compositor) -> bool {
    &&& c.instances@.len() <= MAX_INSTANCES
    &&& forall|i: int| 0 <= i < c.instances@.len() ==> instance_wf(#[trigger] c.instances@[i])
    &&& c.window_width >= 1
    &&& c.window_height >= 1
}

/// Instance `i` should have a frame pulled now: playback is running, the
/// source has not ended, and its pacer says a nominal duration has elapsed.
/// While paused this is false for every instance — no pacer is consulted,
/// and no due time accumulates.
pub open spec fn needs_frame_spec(c: Compositor, i: int, now: u64) -> bool {
    &&& c.video_status == VideoStatus::Playing
    &&& !c.instances@[i].finished
    &&& is_due_spec(c.instances@[i].timer, c.instances@[i].nominal_ms, now)
}

/// The playback state after a toggle request: an explicit request sets the
/// state (idempotently), an unspecified one flips it.
pub open spec fn toggled_status(current: VideoStatus, requested: Option<VideoStatus>) -> VideoStatus {
    match requested {
        Option::Some(s) => s,
        Option::None => match current {
            VideoStatus::Playing => VideoStatus::Paused,
            VideoStatus::Paused => VideoStatus::Playing,
        },
    }
}

/// An instance as it stands after resuming from pause at `now`: identical
/// except that its timing restarts at the resume instant, so no due-time
/// backlog from the paused period can fire.
pub open spec fn resumed_instance(v: VideoInstance, now: u64) -> VideoInstance {
    VideoInstance { timer: PlaybackTimer { last_accepted: now }, ..v }
}

/// Relation between the compositor states before and after
/// `toggle_video_status(requested, now)`.
pub open spec fn toggle_post(
    pre: Compositor,
    post: Compositor,
    requested: Option<VideoStatus>,
    now: u64,
) -> bool {
    let new_status = toggled_status(pre.video_status, requested);
    &&& post.video_status == new_status
    &&& post.window_width == pre.window_width
    &&& post.window_height == pre.window_height
    &&& post.instances@.len() == pre.instances@.len()
    &&& if pre.video_status == VideoStatus::Paused && new_status == VideoStatus::Playing {
        // Resume: every timer restarts at the resume instant.
        forall|j: int|
            0 <= j < pre.instances@.len() ==> post.instances@[j] == resumed_instance(
                #[trigger] pre.instances@[j],
                now,
            )
    } else {
        post.instances@ == pre.instances@
    }
}

/// Relation between the compositor states before and after
/// `resize(new_width, new_height)`: a degenerate size is ignored; otherwise
/// only the window size — and with it the aspect correction — changes.
/// Instances, placements and playback state are untouched.
pub open spec fn resize_post(
    pre: Compositor,
    post: Compositor,
    new_width: u32,
    new_height: u32,
) -> bool {
    if new_width >= 1 && new_height >= 1 {
        post == Compositor { window_width: new_width, window_height: new_height, ..pre }
    } else {
        post == pre
    }
}

/// Relation between the compositor states before and after
/// `apply_decode(i, outcome, now)`: instance `i` either admits the frame
/// (fresh texture sized to the frame, timer advanced to `now`, count up by
/// one) or freezes on end of stream (texture and timer untouched, finished
/// set); every other instance is exactly unchanged.
pub open spec fn apply_decode_post(
    pre: Compositor,
    post: Compositor,
    i: int,
    outcome: DecodeOutcome,
    now: u64,
) -> bool {
    &&& post.video_status == pre.video_status
    &&& post.window_width == pre.window_width
    &&& post.window_height == pre.window_height
    &&& post.instances@.len() == pre.instances@.len()
    &&& forall|j: int|
        0 <= j < pre.instances@.len() && j != i ==> post.instances@[j] == #[trigger] pre
            .instances@[j]
    &&& {
        let v0 = pre.instances@[i];
        let v1 = post.instances@[i];
        &&& v1.placement == v0.placement
        &&& v1.nominal_ms == v0.nominal_ms
        &&& match outcome {
            DecodeOutcome::Frame(f) => {
                &&& v1.texture.width == f.width
                &&& v1.texture.height == f.height
                &&& v1.texture.pixels@ == f.data@
                &&& v1.timer.last_accepted == now
                &&& v1.finished == v0.finished
                &&& v1.frames_accepted == v0.frames_accepted + 1
            },
            DecodeOutcome::EndOfStream | DecodeOutcome::Failed => {
                &&& v1.texture == v0.texture
                &&& v1.timer == v0.timer
                &&& v1.finished == true
                &&& v1.frames_accepted == v0.frames_accepted
            },
        }
    }
}

impl Compositor {
    /// Builds the session state from the per-source startup data: placements
    /// come from the layout row for `sources.len()` videos, each instance
    /// starts on its first decoded frame with its timer at `now`, and
    /// playback starts running. Fails — aborting startup entirely — if and
    /// only if some first frame does not match its declared dimensions.
    pub fn new(sources: Vec<SourceInit>, window_width: u32, window_height: u32, now: u64) -> (r:
        Result<Compositor, StartupError>)
        requires
            sources@.len() <= MAX_INSTANCES,
            window_width >= 1,
            window_height >= 1,
        ensures
            r is Ok <==> (forall|i: int|
                0 <= i < sources@.len() ==> frame_wf(#[trigger] sources@[i].first_frame)),
            r matches Ok(c) ==> {
                &&& compositor_wf(c)
                &&& c.video_status == VideoStatus::Playing
                &&& c.window_width == window_width
                &&& c.window_height == window_height
                &&& c.instances@.len() == sources@.len()
                &&& forall|i: int|
                    0 <= i < sources@.len() ==> {
                        let v = #[trigger] c.instances@[i];
                        &&& v.placement == placement_at(sources@.len() as int, i)
                        &&& v.texture.width == sources@[i].first_frame.width
                        &&& v.texture.height == sources@[i].first_frame.height
                        &&& v.texture.pixels@ == sources@[i].first_frame.data@
                        &&& v.timer.last_accepted == now
                        &&& v.nominal_ms == sources@[i].nominal_ms
                        &&& v.finished == false
                        &&& v.frames_accepted == 0
                    }
            },
            r is Err ==> r == Result::<Compositor, StartupError>::Err(
                StartupError::InvalidFirstFrame,
            ),
    {
        let ghost osrc = sources@;
        let n = sources.len();

        let mut k: usize = 0;
        while k < n
            invariant
                sources@ == osrc,
                n == osrc.len(),
                k <= n,
                forall|i: int| 0 <= i < k ==> frame_wf(#[trigger] osrc[i].first_frame),
            decreases n - k,
        {
            if !sources[k].first_frame.is_well_formed() {
                return Result::Err(StartupError::InvalidFirstFrame);
            }
            k = k + 1;
        }

        let placements = layout(n);

        let mut sources = sources;
        let mut instances: Vec<VideoInstance> = Vec::new();
        let mut k: usize = 0;
        while k < n
            invariant
                n == osrc.len(),
                n <= MAX_INSTANCES,
                k <= n,
                sources@ == osrc.skip(k as int),
                placements@.len() == n,
                forall|i: int| 0 <= i < n ==> placements@[i] == placement_at(n as int, i),
                forall|i: int| 0 <= i < n ==> placement_wf(#[trigger] placements@[i]),
                forall|i: int| 0 <= i < n ==> frame_wf(#[trigger] osrc[i].first_frame),
                instances@.len() == k,
                forall|i: int|
                    0 <= i < k ==> {
                        let v = #[trigger] instances@[i];
                        &&& v.placement == placement_at(n as int, i)
                        &&& v.texture.width == osrc[i].first_frame.width
                        &&& v.texture.height == osrc[i].first_frame.height
                        &&& v.texture.pixels@ == osrc[i].first_frame.data@
                        &&& v.timer.last_accepted == now
                        &&& v.nominal_ms == osrc[i].nominal_ms
                        &&& v.finished == false
                        &&& v.frames_accepted == 0
                        &&& instance_wf(v)
                    },
            decreases n - k,
        {
            let s = sources.remove(0);
            proof {
                assert(osrc.skip(k as int)[0] == osrc[k as int]);
            }
            let texture = TextureResource::upload(s.first_frame);
            let placement = placements[k];
            instances.push(
                VideoInstance {
                    placement,
                    texture,
                    timer: PlaybackTimer { last_accepted: now },
                    nominal_ms: s.nominal_ms,
                    finished: false,
                    frames_accepted: 0,
                },
            );
            k = k + 1;
            proof {
                assert(sources@ =~= osrc.skip(k as int));
            }
        }

        Result::Ok(
            Compositor {
                instances,
                video_status: VideoStatus::Playing,
                window_width,
                window_height,
            },
        )
    }

    /// Pacer gate for one instance this tick. True exactly when playback is
    /// running, the source has not ended, and the nominal duration has
    /// elapsed since the instance's last accepted frame.
    pub fn needs_frame(&self, i: usize, now: u64) -> (r: bool)
        requires
            i < self.instances@.len(),
        ensures
            r == needs_frame_spec(*self, i as int, now),
    {
        match self.video_status {
            VideoStatus::Paused => false,
            VideoStatus::Playing => {
                let v = &self.instances[i];
                if v.finished {
                    false
                } else {
                    is_due(&v.timer, v.nominal_ms, now)
                }
            },
        }
    }

    /// The instances due for a new frame this tick, in ascending order: the
    /// loop around the compositor pulls the decoder for exactly these. While
    /// paused the list is empty.
    pub fn due_instances(&self, now: u64) -> (r: Vec<usize>)
        ensures
            forall|k: int|
                0 <= k < r@.len() ==> #[trigger] r@[k] < self.instances@.len()
                    && needs_frame_spec(*self, r@[k] as int, now),
            forall|i: int|
                0 <= i < self.instances@.len() && needs_frame_spec(*self, i, now) ==> r@.contains(
                    i as usize,
                ),
            forall|k1: int, k2: int|
                #![trigger r@[k1], r@[k2]]
                0 <= k1 < k2 < r@.len() ==> r@[k1] < r@[k2],
    {
        let mut r: Vec<usize> = Vec::new();
        let n = self.instances.len();
        let mut i: usize = 0;
        while i < n
            invariant
                n == self.instances@.len(),
                i <= n,
                forall|k: int|
                    0 <= k < r@.len() ==> #[trigger] r@[k] < i && needs_frame_spec(
                        *self,
                        r@[k] as int,
                        now,
                    ),
                forall|j: int|
                    0 <= j < i && needs_frame_spec(*self, j, now) ==> r@.contains(j as usize),
                forall|k1: int, k2: int|
                #![trigger r@[k1], r@[k2]]
                0 <= k1 < k2 < r@.len() ==> r@[k1] < r@[k2],
            decreases n - i,
        {
            if self.needs_frame(i, now) {
                let ghost r0 = r@;
                r.push(i);
                proof {
                    assert forall|j: usize| r0.contains(j) implies r@.contains(j) by {
                        let k = choose|k: int| 0 <= k < r0.len() && r0[k] == j;
                        assert(r@[k] == j);
                    }
                    assert(r@[r@.len() - 1] == i);
                }
            }
            i = i + 1;
        }
        r
    }

    /// Folds one decode outcome back into instance `i`. An admitted frame
    /// becomes a whole new texture resource — replaced in a single
    /// assignment, so no draw can see a half-updated instance — and advances
    /// the timer to `now`; end of stream, or a decode failure on this source
    /// alone, freezes the instance on its current image for good. No other
    /// instance is touched.
    pub fn apply_decode(&mut self, i: usize, outcome: DecodeOutcome, now: u64)
        requires
            compositor_wf(*old(self)),
            i < old(self).instances@.len(),
            outcome matches DecodeOutcome::Frame(f) ==> frame_wf(f),
            // The tick clock is monotonic: `now` is at or past the last
            // admission, so the playback timer never decreases.
            now >= old(self).instances@[i as int].timer.last_accepted,
            old(self).instances@[i as int].frames_accepted < u64::MAX,
        ensures
            compositor_wf(*final(self)),
            apply_decode_post(*old(self), *final(self), i as int, outcome, now),
    {
        match outcome {
            DecodeOutcome::Frame(f) => {
                let texture = TextureResource::upload(f);
                let v = &mut self.instances[i];
                v.texture = texture;
                v.timer = PlaybackTimer { last_accepted: now };
                v.frames_accepted = v.frames_accepted + 1;
            },
            DecodeOutcome::EndOfStream => {
                let v = &mut self.instances[i];
                v.finished = true;
            },
            DecodeOutcome::Failed => {
                let v = &mut self.instances[i];
                v.finished = true;
            },
        }
    }

    /// Applies a toggle request from the input boundary. An explicit request
    /// sets the playback state, an unspecified one flips it. Entering pause
    /// changes nothing else; resuming restarts every instance's timing at
    /// the resume instant, so the paused period leaves no catch-up burst.
    pub fn toggle_video_status(&mut self, requested: Option<VideoStatus>, now: u64)
        requires
            compositor_wf(*old(self)),
            // The tick clock is monotonic: a resume instant is at or past
            // every last admission, so no playback timer ever decreases.
            (old(self).video_status == VideoStatus::Paused && toggled_status(
                old(self).video_status,
                requested,
            ) == VideoStatus::Playing) ==> forall|j: int|
                0 <= j < old(self).instances@.len() ==> now >= #[trigger] old(
                    self,
                ).instances@[j].timer.last_accepted,
        ensures
            compositor_wf(*final(self)),
            toggle_post(*old(self), *final(self), requested, now),
    {
        let new_status = match requested {
            Option::Some(s) => s,
            Option::None => match self.video_status {
                VideoStatus::Playing => VideoStatus::Paused,
                VideoStatus::Paused => VideoStatus::Playing,
            },
        };
        let resuming = self.video_status == VideoStatus::Paused && new_status
            == VideoStatus::Playing;
        self.video_status = new_status;
        if resuming {
            let ghost pre = self.instances@;
            let n = self.instances.len();
            let mut j: usize = 0;
            while j < n
                invariant
                    n == self.instances@.len(),
                    n == pre.len(),
                    j <= n,
                    pre == old(self).instances@,
                    self.video_status == new_status,
                    self.window_width == old(self).window_width,
                    self.window_height == old(self).window_height,
                    forall|k: int|
                        0 <= k < j ==> #[trigger] self.instances@[k] == resumed_instance(
                            pre[k],
                            now,
                        ),
                    forall|k: int| j <= k < n ==> #[trigger] self.instances@[k] == pre[k],
                    forall|k: int| 0 <= k < n ==> instance_wf(#[trigger] pre[k]),
                decreases n - j,
            {
                let v = &mut self.instances[j];
                v.timer = PlaybackTimer { last_accepted: now };
                j = j + 1;
            }
            proof {
                assert forall|k: int| 0 <= k < n implies instance_wf(
                    #[trigger] self.instances@[k],
                ) by {
                    assert(self.instances@[k] == resumed_instance(pre[k], now));
                    assert(instance_wf(pre[k]));
                }
            }
        }
    }

    /// Updates the stored window size on a resize event. A degenerate size
    /// (zero in either dimension) is ignored. Placements and instances are
    /// never touched: resizing only changes the aspect correction that
    /// `current_aspect` derives from the stored size.
    pub fn resize(&mut self, new_width: u32, new_height: u32)
        requires
            compositor_wf(*old(self)),
        ensures
            compositor_wf(*final(self)),
            resize_post(*old(self), *final(self), new_width, new_height),
    {
        if new_width >= 1 && new_height >= 1 {
            self.window_width = new_width;
            self.window_height = new_height;
        }
    }

    /// The aspect-ratio correction for the current window size: the y axis
    /// stretched by exactly `width / height`.
    pub fn current_aspect(&self) -> (r: AspectCorrection)
        requires
            compositor_wf(*self),
        ensures
            r.y_stretch_num == self.window_width,
            r.y_stretch_den == self.window_height,
    {
        aspect_correction(self.window_width, self.window_height)
    }

    /// Rebuilds the per-instance bind state for this tick: one draw of the
    /// shared quad per instance, each carrying its texture's dimensions and
    /// byte count and its placement composed with the current aspect
    /// correction. Every draw's pixel byte count matches its declared
    /// dimensions exactly — a draw can never bind a texture whose data
    /// disagrees with its layout, whatever swaps earlier ticks performed.
    pub fn render_plan(&self) -> (r: Vec<DrawCall>)
        requires
            compositor_wf(*self),
        ensures
            r@.len() == self.instances@.len(),
            forall|i: int| 0 <= i < r@.len() ==> draw_call_matches(#[trigger] r@[i], *self, i),
            forall|i: int|
                0 <= i < r@.len() ==> #[trigger] r@[i].pixel_bytes == 4 * r@[i].width
                    * r@[i].height,
    {
        let aspect = self.current_aspect();
        let mut r: Vec<DrawCall> = Vec::new();
        let n = self.instances.len();
        let mut i: usize = 0;
        while i < n
            invariant
                n == self.instances@.len(),
                compositor_wf(*self),
                aspect.y_stretch_num == self.window_width,
                aspect.y_stretch_den == self.window_height,
                i <= n,
                r@.len() == i,
                forall|k: int| 0 <= k < i ==> draw_call_matches(#[trigger] r@[k], *self, k),
                forall|k: int|
                    0 <= k < i ==> #[trigger] r@[k].pixel_bytes == 4 * r@[k].width * r@[k].height,
            decreases n - i,
        {
            let v = &self.instances[i];
            let transform = compose(&v.placement, &aspect);
            r.push(
                DrawCall {
                    width: v.texture.width,
                    height: v.texture.height,
                    pixel_bytes: v.texture.pixels.len(),
                    transform,
                },
            );
            i = i + 1;
        }
        r
    }

    /// Applies one window-system event: a close request or the escape key
    /// ends the session; the space key toggles playback; a resize (or scale
    /// change) updates the stored window size. Nothing else about the state
    /// changes.
    pub fn handle_event(&mut self, event: SessionEvent, now: u64) -> (r: SessionControl)
        requires
            compositor_wf(*old(self)),
            // Monotonic clock, as for toggle_video_status: a space press
            // while paused resumes at `now`.
            (event == SessionEvent::SpacePressed && old(self).video_status
                == VideoStatus::Paused) ==> forall|j: int|
                0 <= j < old(self).instances@.len() ==> now >= #[trigger] old(
                    self,
                ).instances@[j].timer.last_accepted,
        ensures
            compositor_wf(*final(self)),
            match event {
                SessionEvent::CloseRequested | SessionEvent::EscapePressed => r
                    == SessionControl::Exit && *final(self) == *old(self),
                SessionEvent::SpacePressed => r == SessionControl::Continue && toggle_post(
                    *old(self),
                    *final(self),
                    Option::None,
                    now,
                ),
                SessionEvent::Resized { width, height } => r == SessionControl::Continue
                    && resize_post(*old(self), *final(self), width, height),
            },
    {
        match event {
            SessionEvent::CloseRequested => SessionControl::Exit,
            SessionEvent::EscapePressed => SessionControl::Exit,
            SessionEvent::SpacePressed => {
                self.toggle_video_status(Option::None, now);
                SessionControl::Continue
            },
            SessionEvent::Resized { width, height } => {
                self.resize(width, height);
                SessionControl::Continue
            },
        }
    }
}

/// One draw call of the shared unit quad, as the render pass binds it: the
/// texture's declared dimensions, the byte count of the bound pixel data,
/// and the instance's composed transform.
#[derive(Clone, Copy, PartialEq, Eq, Structural, Debug)]
pub struct DrawCall {
    pub width: u32,
    pub height: u32,
    pub pixel_bytes: usize,
    pub transform: ComposedTransform,
}

/// The draw call for instance `i` binds that instance's current texture and
/// its placement composed with the compositor's current aspect correction.
pub open spec fn draw_call_matches(d: DrawCall, c: Compositor, i: int) -> bool {
    let v = c.instances@[i];
    &&& d.width == v.texture.width
    &&& d.height == v.texture.height
    &&& d.pixel_bytes == v.texture.pixels@.len()
    &&& d.transform.placement == v.placement
    &&& d.transform.aspect == (AspectCorrection {
        y_stretch_num: c.window_width,
        y_stretch_den: c.window_height,
    })
}

/// A window-system event the session reacts to, reduced to plain values.
#[derive(Clone, Copy, PartialEq, Eq, Structural, Debug)]
pub enum SessionEvent {
    CloseRequested,
    EscapePressed,
    SpacePressed,
    Resized { width: u32, height: u32 },
}

/// Whether the session keeps running after an event.
#[derive(Clone, Copy, PartialEq, Eq, Structural, Debug)]
pub enum SessionControl {
    Continue,
    Exit,
}

/// A failure to acquire the render target for one tick, reduced to the
/// cases the loop distinguishes.
#[derive(Clone, Copy, PartialEq, Eq, Structural, Debug)]
pub enum SurfaceError {
    /// The target was lost and must be reconfigured.
    Lost,
    /// The target no longer matches the window; the next tick resolves it.
    Outdated,
    /// Acquiring the target timed out; the next tick resolves it.
    Timeout,
    /// The device is out of memory: unrecoverable.
    OutOfMemory,
}

/// What the render loop does after a failed tick.
#[derive(Clone, Copy, PartialEq, Eq, Structural, Debug)]
pub enum RenderRecovery {
    /// Reconfigure the render target at the current window size and retry
    /// on the next tick.
    Reconfigure,
    /// Terminate the session: the failure is fatal.
    Terminate,
    /// Report and skip: the following tick resolves the condition.
    SkipTick,
}

/// Law: while playback is paused no instance is ever due, whatever the
/// clock says — the pacer is never consulted while paused, so a pause
/// accumulates no backlog of due frames.
pub proof fn lemma_paused_never_due(c: Compositor, i: int, now: u64)
    requires
        c.video_status == VideoStatus::Paused,
    ensures
        !needs_frame_spec(c, i, now),
{
}

/// Law: toggling playback twice (Playing → Paused → Playing) at one instant
/// causes no catch-up burst. After the second toggle every instance's timing
/// restarts at the toggle instant, so an instance with nominal duration `d`
/// is not due again before a full `d` has elapsed — no backlog fires on
/// resume.
pub proof fn lemma_toggle_twice_no_backlog(
    c0: Compositor,
    c1: Compositor,
    c2: Compositor,
    now: u64,
    i: int,
    d: u64,
    now2: u64,
)
    requires
        c0.video_status == VideoStatus::Playing,
        toggle_post(c0, c1, Option::None, now),
        toggle_post(c1, c2, Option::None, now),
        0 <= i < c2.instances@.len(),
        c2.instances@[i].nominal_ms == Option::Some(d),
        1 <= d,
        now <= now2 < now + d,
    ensures
        !needs_frame_spec(c2, i, now2),
{
    assert(c2.instances@[i] == resumed_instance(c1.instances@[i], now));
}

/// Law: end of stream — and likewise an isolated decode failure — freezes
/// exactly the instance it arrives on. The transition leaves every other
/// instance untouched, keeps the affected instance's image and timing as
/// they were, and marks it finished — after which it is never due again at
/// any time, so no later tick replaces its texture while the other instances
/// continue to be paced as before.
pub proof fn lemma_end_of_stream_freezes(
    pre: Compositor,
    post: Compositor,
    i: int,
    outcome: DecodeOutcome,
    now: u64,
)
    requires
        0 <= i < pre.instances@.len(),
        outcome is EndOfStream || outcome is Failed,
        apply_decode_post(pre, post, i, outcome, now),
    ensures
        post.instances@[i].texture == pre.instances@[i].texture,
        post.instances@[i].finished,
        forall|j: int|
            0 <= j < pre.instances@.len() && j != i ==> post.instances@[j] == #[trigger] pre
                .instances@[j],
        forall|later: u64| !needs_frame_spec(post, i, later),
{
}

/// Law: a playback timer never decreases. Folding in a decode outcome at an
/// instant at or past the instance's last admission — all a monotonic tick
/// clock can supply — leaves `last_accepted` at or above its old value; it
/// is rewritten only to the admission instant itself.
pub proof fn lemma_timer_monotonic(
    pre: Compositor,
    post: Compositor,
    i: int,
    outcome: DecodeOutcome,
    now: u64,
)
    requires
        0 <= i < pre.instances@.len(),
        now >= pre.instances@[i].timer.last_accepted,
        apply_decode_post(pre, post, i, outcome, now),
    ensures
        post.instances@[i].timer.last_accepted >= pre.instances@[i].timer.last_accepted,
{
}

/// The render loop's failure policy: a lost target is reconfigured at the
/// current size and retried next tick, out-of-memory ends the session, and
/// every other per-tick error is reported and skipped.
pub fn render_recovery(error: SurfaceError) -> (r: RenderRecovery)
    ensures
        r == match error {
            SurfaceError::Lost => RenderRecovery::Reconfigure,
            SurfaceError::OutOfMemory => RenderRecovery::Terminate,
            SurfaceError::Outdated | SurfaceError::Timeout => RenderRecovery::SkipTick,
        },
{
    match error {
        SurfaceError::Lost => RenderRecovery::Reconfigure,
        SurfaceError::OutOfMemory => RenderRecovery::Terminate,
        SurfaceError::Outdated => RenderRecovery::SkipTick,
        SurfaceError::Timeout => RenderRecovery::SkipTick,
    }
}

} // verus!
