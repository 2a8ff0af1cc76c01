//! Cube slice navigation: which slice is shown, which one the user points
//! at, which one has been asked of the host, and timed playback along one
//! axis.
//!
//! Times are in microseconds of a monotonic clock. The navigator never
//! looks at the slice data itself: a delivered slice is an opaque payload
//! `P` that is either handed back for display or held until its turn.

use vstd::prelude::*;

verus! {

/// Default play interval (a quarter second).
pub const DEFAULT_PLAY_INTERVAL_US: u64 = 250_000;

/// Actions produced by the slice / play controls.
#[derive(Clone, Copy, Debug, PartialEq, Eq, Structural)]
pub enum SliceAction {
    /// Nothing to do.
    Idle,
    /// Make the given axis the "live" one (radio selection).
    SetActive(usize),
    /// Manually set the index along the given axis (e.g. slider drag).
    SetIndex(usize, usize),
    /// Start playing the given axis.
    Play(usize),
    /// Stop playback.
    Pause,
    /// Change the play interval (microseconds).
    SetSpeed(u64),
}

/// A prefetched slice held until it is time to display it (play mode).
pub struct PendingSlice<P> {
    pub indices: Vec<usize>,
    pub payload: P,
}

/// Slice navigation and playback state of a cube viewer.
pub struct SliceNavigator<P> {
    /// Lengths of the sliceable leading axes (outer to inner). Empty = plain 2D.
    pub slice_dims: Vec<usize>,
    /// Target index along each sliceable axis (the scrubber handle / play position).
    pub current_indices: Vec<usize>,
    /// Indices of the slice actually shown.
    pub displayed_indices: Vec<usize>,
    /// The "live" axis whose controls are enabled.
    pub active_axis: usize,
    /// Which sliceable axis is currently playing, if any.
    pub playing_axis: Option<usize>,
    /// Play interval in microseconds.
    pub play_interval: u64,
    /// Clock time (microseconds) at which the current frame was displayed.
    pub display_time: u64,
    /// Indices currently requested from the host (one request in flight).
    pub requested_indices: Option<Vec<usize>>,
    /// Prefetched frame held until the interval elapses (play mode only).
    pub pending_slice: Option<PendingSlice<P>>,
    /// Slice-index request to hand to the host, drained by the shell.
    pub pending_slice_request: Option<Vec<usize>>,
}

/// Mathematical model of a [`SliceNavigator`].
#[verifier::ext_equal]
pub struct SliceState<P> {
    pub dims: Seq<usize>,
    pub current: Seq<usize>,
    pub displayed: Seq<usize>,
    pub active_axis: usize,
    pub playing: Option<usize>,
    pub interval: u64,
    pub display_time: u64,
    pub requested: Option<Seq<usize>>,
    pub pending: Option<(Seq<usize>, P)>,
    pub outgoing: Option<Seq<usize>>,
}

/// An optional index list, by its view.
pub open spec fn opt_view(o: Option<Vec<usize>>) -> Option<Seq<usize>> {
    match o {
        Some(v) => Some(v@),
        None => None,
    }
}

impl<P> View for SliceNavigator<P> {
    type V = SliceState<P>;

    open spec fn view(&self) -> SliceState<P> {
        SliceState {
            dims: self.slice_dims@,
            current: self.current_indices@,
            displayed: self.displayed_indices@,
            active_axis: self.active_axis,
            playing: self.playing_axis,
            interval: self.play_interval,
            display_time: self.display_time,
            requested: opt_view(self.requested_indices),
            pending: match self.pending_slice {
                Some(p) => Some((p.indices@, p.payload)),
                None => None,
            },
            outgoing: opt_view(self.pending_slice_request),
        }
    }
}

/// A sequence of `n` zeros.
pub open spec fn zeros(n: nat) -> Seq<usize> {
    Seq::new(n, |i: int| 0usize)
}

/// The axis that becomes live when the cube shape changes: the innermost one.
pub open spec fn innermost_axis(dims: Seq<usize>) -> usize {
    if dims.len() == 0 {
        0
    } else {
        (dims.len() - 1) as usize
    }
}

/// Next index along an axis of length `len` during playback, looping at the end.
pub open spec fn next_index(cur: usize, len: usize) -> usize {
    ((cur as int + 1) % (len as int)) as usize
}

impl<P> SliceState<P> {
    /// State after declaring the cube's sliceable axes.
    pub open spec fn set_cube(self, dims: Seq<usize>) -> SliceState<P> {
        if dims == self.dims {
            self
        } else {
            SliceState {
                dims,
                current: zeros(dims.len()),
                displayed: zeros(dims.len()),
                active_axis: innermost_axis(dims),
                playing: None,
                requested: None,
                pending: None,
                outgoing: None,
                ..self
            }
        }
    }

    /// Whether a delivered slice answers the prefetch made during playback.
    pub open spec fn is_prefetch(self, indices: Seq<usize>) -> bool {
        self.playing is Some && self.requested == Some(indices)
    }

    /// State after a slice tagged `indices` arrives, and the payload to show now.
    pub open spec fn receive(self, indices: Seq<usize>, payload: P) -> (SliceState<P>, Option<P>) {
        if self.is_prefetch(indices) {
            (SliceState { pending: Some((indices, payload)), ..self }, None)
        } else {
            let fulfilled = self.requested == Some(indices);
            let requested = if fulfilled {
                None
            } else {
                self.requested
            };
            let current = if !fulfilled && indices.len() > 0 {
                indices
            } else {
                self.current
            };
            let shown = SliceState { requested, current, displayed: indices, ..self };
            if shown.playing is None && shown.requested is None && shown.current.len() > 0
                && shown.current != shown.displayed {
                (
                    SliceState {
                        requested: Some(shown.current),
                        outgoing: Some(shown.current),
                        ..shown
                    },
                    Some(payload),
                )
            } else {
                (shown, Some(payload))
            }
        }
    }

    /// Indices of the held prefetched frame.
    pub open spec fn held_indices(self) -> Seq<usize> {
        let p = self.pending->0;
        p.0
    }

    /// Payload of the held prefetched frame.
    pub open spec fn held_payload(self) -> P {
        let p = self.pending->0;
        p.1
    }

    /// Whether the held prefetched frame is the one requested.
    pub open spec fn pending_ready(self) -> bool {
        self.pending matches Some(p) && self.requested == Some(p.0)
    }

    /// Whether the play interval has elapsed at time `now`.
    pub open spec fn interval_elapsed(self, now: u64) -> bool {
        now as int - self.display_time as int >= self.interval as int
    }

    /// Whether a playback tick at `now` promotes the held frame into view.
    pub open spec fn promotes(self, now: u64) -> bool {
        self.playing is Some && self.playing->0 < self.dims.len() && self.pending_ready()
            && self.interval_elapsed(now)
    }

    /// The state once the held frame has been promoted into view.
    pub open spec fn promoted(self, now: u64) -> SliceState<P> {
        let p = self.pending->0;
        SliceState {
            current: p.0,
            displayed: p.0,
            requested: None,
            display_time: now,
            pending: None,
            ..self
        }
    }

    /// State after the promotion step of a tick (unchanged when nothing is promoted).
    pub open spec fn after_promotion(self, now: u64) -> SliceState<P> {
        if self.promotes(now) {
            self.promoted(now)
        } else {
            self
        }
    }

    /// Whether a playback tick at `now` can index the playing axis: when it
    /// prefetches the next frame, the tick reads the handle's index along the
    /// playing axis, which must exist.
    pub open spec fn advance_ok(self, now: u64) -> bool {
        let s = self.after_promotion(now);
        self.playing matches Some(a) ==> (a < self.dims.len() && s.requested is None ==> a
            < s.current.len())
    }

    /// State after a playback tick at time `now`, and the payload to show now.
    pub open spec fn advance(self, now: u64) -> (SliceState<P>, Option<P>) {
        match self.playing {
            None => (self, None),
            Some(a) => {
                if a >= self.dims.len() {
                    (SliceState { playing: None, ..self }, None)
                } else {
                    let held = self.pending->0;
                    let shown = if self.promotes(now) {
                        Some(held.1)
                    } else {
                        None
                    };
                    let s = self.after_promotion(now);
                    if s.requested is None {
                        let len = self.dims[a as int];
                        let next = if len > 0 {
                            s.current.update(a as int, next_index(s.current[a as int], len))
                        } else {
                            s.current
                        };
                        (SliceState { requested: Some(next), outgoing: Some(next), ..s }, shown)
                    } else {
                        (s, shown)
                    }
                }
            },
        }
    }

    /// Index (0-based, along the live axis) that the loading overlay shows
    /// while the displayed slice lags the handle; `None` when caught up or
    /// for a plain 2D image.
    pub open spec fn scrub_overlay_index(self) -> Option<usize> {
        if self.dims.len() == 0 || self.current == self.displayed {
            None
        } else {
            let last = self.dims.len() - 1;
            let axis: int = if self.active_axis < last {
                self.active_axis as int
            } else {
                last
            };
            Some(
                if axis < self.current.len() {
                    self.current[axis]
                } else {
                    0
                },
            )
        }
    }

    /// State after the shell drains the outgoing request.
    pub open spec fn take_request(self) -> SliceState<P> {
        SliceState { outgoing: None, ..self }
    }

    /// State after applying a control action at time `now`.
    pub open spec fn apply(self, action: SliceAction, now: u64) -> SliceState<P> {
        match action {
            SliceAction::Idle => self,
            SliceAction::SetActive(axis) => SliceState {
                playing: None,
                requested: None,
                pending: None,
                active_axis: axis,
                ..self
            },
            SliceAction::SetIndex(axis, index) => {
                let stopped = if self.playing == Some(axis) {
                    SliceState { playing: None, pending: None, ..self }
                } else {
                    self
                };
                let current = if axis < stopped.current.len() {
                    stopped.current.update(axis as int, index)
                } else {
                    stopped.current
                };
                if stopped.requested is None {
                    SliceState {
                        current,
                        requested: Some(current),
                        outgoing: Some(current),
                        ..stopped
                    }
                } else {
                    SliceState { current, ..stopped }
                }
            },
            SliceAction::Play(axis) => SliceState {
                playing: Some(axis),
                requested: None,
                pending: None,
                display_time: now,
                ..self
            },
            SliceAction::Pause => SliceState {
                playing: None,
                requested: None,
                pending: None,
                ..self
            },
            SliceAction::SetSpeed(interval) => SliceState { interval, ..self },
        }
    }
}

/// Whether two index lists are equal.
fn indices_equal(a: &Vec<usize>, b: &Vec<usize>) -> (r: bool)
    ensures
        r == (a@ == b@),
{
    if a.len() != b.len() {
        return false;
    }
    let mut i: usize = 0;
    while i < a.len()
        invariant
            a@.len() == b@.len(),
            i <= a@.len(),
            forall|j: int| 0 <= j < i ==> a@[j] == b@[j],
        decreases a@.len() - i,
    {
        if a[i] != b[i] {
            return false;
        }
        i = i + 1;
    }
    assert(a@ =~= b@);
    true
}

/// Whether an optional index list holds exactly `b`.
fn holds_indices(a: &Option<Vec<usize>>, b: &Vec<usize>) -> (r: bool)
    ensures
        r == (opt_view(*a) == Some(b@)),
{
    match a {
        Some(v) => indices_equal(v, b),
        None => false,
    }
}

/// A copy of an index list.
fn copy_indices(v: &Vec<usize>) -> (r: Vec<usize>)
    ensures
        r@ == v@,
{
    let mut r: Vec<usize> = Vec::new();
    let mut i: usize = 0;
    while i < v.len()
        invariant
            i <= v@.len(),
            r@ == v@.subrange(0, i as int),
        decreases v@.len() - i,
    {
        r.push(v[i]);
        i = i + 1;
    }
    assert(r@ =~= v@);
    r
}

/// A list of `n` zeros.
fn zero_indices(n: usize) -> (r: Vec<usize>)
    ensures
        r@ == zeros(n as nat),
{
    let mut r: Vec<usize> = Vec::new();
    let mut i: usize = 0;
    while i < n
        invariant
            i <= n,
            r@ =~= zeros(i as nat),
        decreases n - i,
    {
        r.push(0);
        i = i + 1;
    }
    r
}

impl<P> SliceNavigator<P> {
    /// A navigator for a plain 2D image: no sliceable axes, nothing playing.
    pub fn new() -> (r: Self)
        ensures
            r@.dims.len() == 0,
            r@.current.len() == 0,
            r@.displayed.len() == 0,
            r@.active_axis == 0,
            r@.playing is None,
            r@.interval == DEFAULT_PLAY_INTERVAL_US,
            r@.display_time == 0,
            r@.requested is None,
            r@.pending is None,
            r@.outgoing is None,
    {
        SliceNavigator {
            slice_dims: Vec::new(),
            current_indices: Vec::new(),
            displayed_indices: Vec::new(),
            active_axis: 0,
            playing_axis: None,
            play_interval: DEFAULT_PLAY_INTERVAL_US,
            display_time: 0,
            requested_indices: None,
            pending_slice: None,
            pending_slice_request: None,
        }
    }

    /// Declare the sliceable leading axes of an N-D cube (their lengths, in
    /// outer to inner order). An empty list means plain 2D.
    ///
    /// Unchanged dimensions leave everything as it is. Otherwise all indices
    /// reset to zero, the innermost axis becomes live, and playback, any
    /// request in flight and any held frame are dropped.
    pub fn set_cube(&mut self, dims: Vec<usize>)
        ensures
            final(self)@ == old(self)@.set_cube(dims@),
            dims@ == old(self)@.dims ==> final(self)@ == old(self)@,
            dims@ != old(self)@.dims ==> final(self)@.dims == dims@ && final(self)@.playing is None
                && final(self)@.requested is None && final(self)@.pending is None,
    {
        if indices_equal(&dims, &self.slice_dims) {
            return;
        }
        let n = dims.len();
        self.slice_dims = dims;
        self.current_indices = zero_indices(n);
        self.displayed_indices = zero_indices(n);
        self.active_axis = if n == 0 {
            0
        } else {
            n - 1
        };
        self.playing_axis = None;
        self.requested_indices = None;
        self.pending_slice = None;
        self.pending_slice_request = None;
        assert(self@ =~= old(self)@.set_cube(dims@));
    }

    /// Deliver a slice tagged with the `indices` it represents.
    ///
    /// While playing, a slice answering the prefetch in flight is held and
    /// `None` is returned: a later [`Self::update_playback`] shows it once the
    /// interval has elapsed. Any other slice is returned for display at once.
    /// An unsolicited slice also moves the handle; the answer to a scrub
    /// request does not. If the handle has moved on while the slice was
    /// loading, the latest target is requested now (one request in flight).
    pub fn receive_slice(&mut self, indices: Vec<usize>, payload: P) -> (shown: Option<P>)
        ensures
            (final(self)@, shown) == old(self)@.receive(indices@, payload),
            !(old(self)@.playing is Some && old(self)@.requested == Some(indices@)) ==> shown == Some(
                payload,
            ) && final(self)@.displayed == indices@,
            old(self)@.playing is Some && old(self)@.requested == Some(indices@) ==> shown is None
                && final(self)@.pending == Some((indices@, payload)) && final(self)@.displayed
                == old(self)@.displayed && final(self)@.current == old(self)@.current,
    {
        let is_prefetch = self.playing_axis.is_some() && holds_indices(
            &self.requested_indices,
            &indices,
        );
        if is_prefetch {
            self.pending_slice = Some(PendingSlice { indices, payload });
            assert(self@ =~= old(self)@.receive(indices@, payload).0);
            return None;
        }
        let fulfilled = holds_indices(&self.requested_indices, &indices);
        if fulfilled {
            self.requested_indices = None;
        }
        if !fulfilled && indices.len() > 0 {
            self.current_indices = copy_indices(&indices);
        }
        self.displayed_indices = indices;
        if self.playing_axis.is_none() && self.requested_indices.is_none()
            && self.current_indices.len() > 0 && !indices_equal(
            &self.current_indices,
            &self.displayed_indices,
        ) {
            self.requested_indices = Some(copy_indices(&self.current_indices));
            self.pending_slice_request = Some(copy_indices(&self.current_indices));
        }
        assert(self@ =~= old(self)@.receive(indices@, payload).0);
        Some(payload)
    }

    /// Advance playback at clock time `now` (once per frame).
    ///
    /// A held frame is shown only once it is the one requested and the play
    /// interval has elapsed since the last frame; with no request in flight,
    /// the next index along the playing axis (looping back to the start) is
    /// requested at once. A playing axis beyond the cube's axes stops playback.
    pub fn update_playback(&mut self, now: u64) -> (shown: Option<P>)
        requires
            old(self)@.advance_ok(now),
        ensures
            (final(self)@, shown) == old(self)@.advance(now),
            (now as int) - (old(self)@.display_time as int) < old(self)@.interval as int ==> shown is None
                && final(self)@.displayed == old(self)@.displayed
                && final(self)@.current == old(self)@.current
                && final(self)@.pending == old(self)@.pending,
    {
        let axis = match self.playing_axis {
            None => {
                return None;
            },
            Some(a) => a,
        };
        if axis >= self.slice_dims.len() {
            self.playing_axis = None;
            assert(self@ =~= old(self)@.advance(now).0);
            return None;
        }
        let ready = match &self.pending_slice {
            Some(p) => holds_indices(&self.requested_indices, &p.indices),
            None => false,
        };
        let elapsed = now >= self.display_time && now - self.display_time >= self.play_interval;
        let mut shown: Option<P> = None;
        if ready && elapsed {
            match self.pending_slice.take() {
                Some(p) => {
                    self.current_indices = copy_indices(&p.indices);
                    self.displayed_indices = p.indices;
                    self.requested_indices = None;
                    self.display_time = now;
                    shown = Some(p.payload);
                },
                None => {},
            }
        }
        assert(self@ =~= old(self)@.after_promotion(now));
        if self.requested_indices.is_none() {
            let len = self.slice_dims[axis];
            let mut next = copy_indices(&self.current_indices);
            if len > 0 {
                let cur = next[axis];
                proof {
                    vstd::arithmetic::div_mod::lemma_add_mod_noop_right(1, cur as int, len as int);
                }
                next.set(axis, (cur % len + 1) % len);
            }
            self.requested_indices = Some(copy_indices(&next));
            self.pending_slice_request = Some(next);
        }
        assert(self@ =~= old(self)@.advance(now).0);
        shown
    }

    /// Whether a playback tick at `now` may run: the tick indexes the current
    /// indices by the playing axis when it prefetches the next frame.
    pub fn can_advance(&self, now: u64) -> (r: bool)
        ensures
            r == self@.advance_ok(now),
    {
        let axis = match self.playing_axis {
            None => {
                return true;
            },
            Some(a) => a,
        };
        if axis >= self.slice_dims.len() {
            return true;
        }
        let ready = match &self.pending_slice {
            Some(p) => holds_indices(&self.requested_indices, &p.indices),
            None => false,
        };
        let elapsed = now >= self.display_time && now - self.display_time >= self.play_interval;
        if ready && elapsed {
            match &self.pending_slice {
                Some(p) => axis < p.indices.len(),
                None => true,
            }
        } else {
            self.requested_indices.is_some() || axis < self.current_indices.len()
        }
    }

    /// Consume and return the pending slice-index request (if any) to hand to the host.
    pub fn take_slice_request(&mut self) -> (r: Option<Vec<usize>>)
        ensures
            opt_view(r) == old(self)@.outgoing,
            final(self)@ == old(self)@.take_request(),
    {
        let r = self.pending_slice_request.take();
        assert(self@ =~= old(self)@.take_request());
        r
    }

    /// Apply an action collected from the slice / play controls at time `now`.
    pub fn apply_slice_action(&mut self, action: SliceAction, now: u64)
        ensures
            final(self)@ == old(self)@.apply(action, now),
            action matches SliceAction::SetIndex(ax, _) && old(self)@.playing == Some(ax)
                ==> final(self)@.playing is None && final(self)@.pending is None,
            action matches SliceAction::Play(ax) ==> final(self)@.playing == Some(ax)
                && final(self)@.display_time == now && final(self)@.requested is None,
            action == SliceAction::Pause ==> final(self)@.playing is None
                && final(self)@.requested is None && final(self)@.pending is None,
            action matches SliceAction::SetSpeed(i) ==> final(self)@.interval == i,
    {
        match action {
            SliceAction::Idle => {},
            SliceAction::SetActive(axis) => {
                self.playing_axis = None;
                self.requested_indices = None;
                self.pending_slice = None;
                self.active_axis = axis;
            },
            SliceAction::SetIndex(axis, index) => {
                if self.playing_axis == Some(axis) {
                    self.playing_axis = None;
                    self.pending_slice = None;
                }
                if axis < self.current_indices.len() {
                    self.current_indices.set(axis, index);
                }
                if self.requested_indices.is_none() {
                    self.requested_indices = Some(copy_indices(&self.current_indices));
                    self.pending_slice_request = Some(copy_indices(&self.current_indices));
                }
            },
            SliceAction::Play(axis) => {
                self.playing_axis = Some(axis);
                self.requested_indices = None;
                self.pending_slice = None;
                self.display_time = now;
            },
            SliceAction::Pause => {
                self.playing_axis = None;
                self.requested_indices = None;
                self.pending_slice = None;
            },
            SliceAction::SetSpeed(interval) => {
                self.play_interval = interval;
            },
        }
        assert(self@ =~= old(self)@.apply(action, now));
    }

    /// Index along the live axis for the loading overlay, shown while the
    /// displayed slice lags the handle.
    pub fn scrub_overlay_index(&self) -> (r: Option<usize>)
        ensures
            r == self@.scrub_overlay_index(),
            self@.dims.len() == 0 || self@.current == self@.displayed ==> r is None,
            self@.dims.len() > 0 && self@.current != self@.displayed && self@.active_axis
                < self@.dims.len() && self@.active_axis < self@.current.len() ==> r == Some(
                self@.current[self@.active_axis as int],
            ),
    {
        if self.slice_dims.len() == 0 || indices_equal(&self.current_indices, &self.displayed_indices) {
            return None;
        }
        let last = self.slice_dims.len() - 1;
        let axis = if self.active_axis < last {
            self.active_axis
        } else {
            last
        };
        if axis < self.current_indices.len() {
            Some(self.current_indices[axis])
        } else {
            Some(0)
        }
    }

    /// Whether the viewer has sliceable cube axes (i.e. shows the slice bar).
    pub fn has_slices(&self) -> (r: bool)
        ensures
            r == (self@.dims.len() > 0),
    {
        self.slice_dims.len() > 0
    }
}

/// Declaring the same cube shape twice is the same as declaring it once.
pub proof fn lemma_set_cube_idempotent<P>(s: SliceState<P>, dims: Seq<usize>)
    ensures
        s.set_cube(dims).set_cube(dims) == s.set_cube(dims),
{
}

/// A new cube shape starts every axis at index zero with the innermost axis
/// live and nothing playing or requested.
pub proof fn lemma_new_cube_starts_at_zero<P>(s: SliceState<P>, dims: Seq<usize>)
    requires
        dims != s.dims,
    ensures
        s.set_cube(dims).current == zeros(dims.len()),
        s.set_cube(dims).displayed == s.set_cube(dims).current,
        s.set_cube(dims).active_axis == innermost_axis(dims),
        s.set_cube(dims).playing is None,
        s.set_cube(dims).requested is None,
        s.set_cube(dims).outgoing is None,
{
}

/// At most one request is in flight: while one is pending, moving the
/// handle neither replaces it nor emits another, but the handle follows.
pub proof fn lemma_scrub_coalesces<P>(s: SliceState<P>, axis: usize, index: usize, now: u64)
    requires
        s.requested is Some,
        axis < s.current.len(),
    ensures
        s.apply(SliceAction::SetIndex(axis, index), now).requested == s.requested,
        s.apply(SliceAction::SetIndex(axis, index), now).outgoing == s.outgoing,
        s.apply(SliceAction::SetIndex(axis, index), now).current == s.current.update(
            axis as int,
            index,
        ),
{
}

/// With nothing in flight, moving the handle requests exactly the new target.
pub proof fn lemma_scrub_requests_target<P>(s: SliceState<P>, axis: usize, index: usize, now: u64)
    requires
        s.requested is None,
    ensures
        ({
            let t = s.apply(SliceAction::SetIndex(axis, index), now);
            &&& t.requested == Some(t.current)
            &&& t.outgoing == Some(t.current)
        }),
{
}

/// The answer to a scrub request is shown without moving the handle; if
/// the handle has moved on meanwhile, its latest target is requested next,
/// and once the shown slice is the target nothing more is requested.
pub proof fn lemma_scrub_response<P>(s: SliceState<P>, indices: Seq<usize>, payload: P)
    requires
        s.playing is None,
        s.requested == Some(indices),
    ensures
        ({
            let (t, shown) = s.receive(indices, payload);
            &&& shown == Some(payload)
            &&& t.current == s.current
            &&& t.displayed == indices
            &&& (s.current == indices ==> t.requested is None && t.outgoing == s.outgoing)
            &&& (s.current.len() > 0 && s.current != indices ==> t.requested == Some(s.current)
                && t.outgoing == Some(s.current))
        }),
{
}

/// An unsolicited slice (nothing requested, not playing) is shown at once
/// and moves the handle to it.
pub proof fn lemma_unsolicited_slice_moves_handle<P>(
    s: SliceState<P>,
    indices: Seq<usize>,
    payload: P,
)
    requires
        s.playing is None,
        s.requested is None,
        indices.len() > 0,
    ensures
        s.receive(indices, payload).1 == Some(payload),
        s.receive(indices, payload).0.current == indices,
        s.receive(indices, payload).0.displayed == indices,
        s.receive(indices, payload).0.requested is None,
{
}

/// A request in flight is only ever replaced once it has been answered:
/// another slice arriving, a playback tick that shows nothing, and a handle
/// move all leave it in place.
pub proof fn lemma_request_kept_until_answered<P>(
    s: SliceState<P>,
    indices: Seq<usize>,
    payload: P,
    now: u64,
    axis: usize,
    index: usize,
)
    requires
        s.requested is Some,
    ensures
        s.requested != Some(indices) ==> s.receive(indices, payload).0.requested == s.requested,
        !s.promotes(now) ==> s.advance(now).0.requested == s.requested || s.advance(
            now,
        ).0.playing is None,
        s.apply(SliceAction::SetIndex(axis, index), now).requested == s.requested,
{
}

/// During playback a prefetched frame that arrives early is held, and is
/// not shown before the play interval has elapsed.
pub proof fn lemma_play_waits_for_interval<P>(s: SliceState<P>, payload: P, now: u64)
    requires
        s.playing is Some,
        s.requested is Some,
        (now as int) - (s.display_time as int) < s.interval as int,
    ensures
        s.receive(s.requested->0, payload).1 is None,
        s.receive(s.requested->0, payload).0.current == s.current,
        s.receive(s.requested->0, payload).0.pending == Some((s.requested->0, payload)),
        s.receive(s.requested->0, payload).0.advance(now).1 is None,
        s.receive(s.requested->0, payload).0.advance(now).0.current == s.current,
        s.receive(s.requested->0, payload).0.advance(now).0.displayed == s.displayed,
{
}

/// Once the interval has elapsed and the requested frame is held, a tick
/// shows it, moves the handle to it and restarts the interval.
pub proof fn lemma_play_shows_ready_frame<P>(
    s: SliceState<P>,
    now: u64,
    axis: usize,
    held: Seq<usize>,
    payload: P,
)
    requires
        s.playing == Some(axis),
        axis < s.dims.len(),
        s.pending == Some((held, payload)),
        s.requested == Some(held),
        (now as int) - (s.display_time as int) >= s.interval as int,
    ensures
        s.advance(now).1 == Some(payload),
        s.advance(now).0.current == held,
        s.advance(now).0.displayed == held,
        s.advance(now).0.display_time == now,
        s.advance(now).0.pending is None,
{
}

/// Playback requests the next index along the playing axis, looping back
/// to the start after the last one, and stays within the axis.
pub proof fn lemma_playback_next_index<P>(s: SliceState<P>, now: u64)
    requires
        s.playing matches Some(a) && a < s.dims.len() && s.dims[a as int] > 0,
        s.after_promotion(now).requested is None,
        s.advance_ok(now),
    ensures
        ({
            let a = s.playing->0;
            let len = s.dims[a as int];
            let cur = s.after_promotion(now).current;
            let req = s.advance(now).0.requested->0;
            &&& s.advance(now).0.requested is Some
            &&& s.advance(now).0.outgoing == s.advance(now).0.requested
            &&& req == cur.update(a as int, next_index(cur[a as int], len))
            &&& req[a as int] < len
            &&& (cur[a as int] as int == len - 1 ==> req[a as int] == 0)
            &&& (cur[a as int] < len - 1 ==> req[a as int] == cur[a as int] + 1)
        }),
{
    let a = s.playing->0;
    let len = s.dims[a as int];
    let cur = s.after_promotion(now).current;
    let c = cur[a as int] as int;
    vstd::arithmetic::div_mod::lemma_mod_pos_bound(c + 1, len as int);
    if c == len - 1 {
        vstd::arithmetic::div_mod::lemma_mod_self_0(len as int);
    }
    if c < len - 1 {
        vstd::arithmetic::div_mod::lemma_small_mod((c + 1) as nat, len as nat);
    }
}

/// Pausing, and switching the live axis, stop playback and drop what is in
/// flight but keep the displayed frame and the handle.
pub proof fn lemma_stop_keeps_frame<P>(s: SliceState<P>, axis: usize, now: u64)
    ensures
        s.apply(SliceAction::Pause, now).playing is None,
        s.apply(SliceAction::Pause, now).requested is None,
        s.apply(SliceAction::Pause, now).pending is None,
        s.apply(SliceAction::Pause, now).displayed == s.displayed,
        s.apply(SliceAction::Pause, now).current == s.current,
        s.apply(SliceAction::SetActive(axis), now).playing is None,
        s.apply(SliceAction::SetActive(axis), now).active_axis == axis,
        s.apply(SliceAction::SetActive(axis), now).displayed == s.displayed,
        s.apply(SliceAction::SetActive(axis), now).current == s.current,
{
}

/// A playback tick before the play interval has elapsed since the last
/// frame was shown shows nothing: the displayed slice, the handle, the held
/// frame and the frame time are all unchanged.
pub proof fn lemma_tick_before_interval_shows_nothing<P>(s: SliceState<P>, now: u64)
    requires
        (now as int) - (s.display_time as int) < s.interval as int,
    ensures
        s.advance(now).1 is None,
        s.advance(now).0.current == s.current,
        s.advance(now).0.displayed == s.displayed,
        s.advance(now).0.pending == s.pending,
        s.advance(now).0.display_time == s.display_time,
{
}

/// Scrubbing the axis that is playing stops playback and drops the held
/// frame; the handle goes where it was dragged.
pub proof fn lemma_scrub_on_playing_axis_stops_playback<P>(
    s: SliceState<P>,
    axis: usize,
    index: usize,
    now: u64,
)
    requires
        s.playing == Some(axis),
    ensures
        s.apply(SliceAction::SetIndex(axis, index), now).playing is None,
        s.apply(SliceAction::SetIndex(axis, index), now).pending is None,
        axis < s.current.len() ==> s.apply(SliceAction::SetIndex(axis, index), now).current[axis as int]
            == index,
{
}

/// A slice that is not the play-mode prefetch is shown at once, whatever
/// its index list (an empty one for a plain 2D image included).
pub proof fn lemma_non_prefetch_slice_is_shown<P>(s: SliceState<P>, indices: Seq<usize>, payload: P)
    requires
        !(s.playing is Some && s.requested == Some(indices)),
    ensures
        s.receive(indices, payload).1 == Some(payload),
        s.receive(indices, payload).0.displayed == indices,
        s.receive(indices, payload).0.pending == s.pending,
{
}

/// The play-mode prefetch is held, not shown, and the view is unchanged.
pub proof fn lemma_prefetch_is_held<P>(s: SliceState<P>, payload: P)
    requires
        s.playing is Some,
        s.requested is Some,
    ensures
        s.receive(s.requested->0, payload).1 is None,
        s.receive(s.requested->0, payload).0.pending == Some((s.requested->0, payload)),
        s.receive(s.requested->0, payload).0.displayed == s.displayed,
        s.receive(s.requested->0, payload).0.current == s.current,
        s.receive(s.requested->0, payload).0.playing == s.playing,
        s.receive(s.requested->0, payload).0.requested == s.requested,
{
}

/// Declaring the shape the navigator already has changes nothing: the
/// handle, playback and any request in flight are preserved.
pub proof fn lemma_same_cube_is_noop<P>(s: SliceState<P>)
    ensures
        s.set_cube(s.dims) == s,
{
}

/// The loading overlay shows the handle's index along the live axis while
/// the shown slice lags the handle, and nothing once it has caught up.
pub proof fn lemma_scrub_overlay_reads_live_axis<P>(s: SliceState<P>)
    ensures
        s.dims.len() == 0 || s.current == s.displayed ==> s.scrub_overlay_index() is None,
        s.dims.len() > 0 && s.current != s.displayed && s.active_axis < s.dims.len()
            && s.active_axis < s.current.len() ==> s.scrub_overlay_index() == Some(
            s.current[s.active_axis as int],
        ),
{
}

/// A playback tick can always run when nothing is playing, and when the
/// handle and any held frame have an index on the playing axis.
pub proof fn lemma_tick_can_run<P>(s: SliceState<P>, now: u64)
    ensures
        s.playing is None ==> s.advance_ok(now),
        s.playing matches Some(a) && a < s.current.len() && (s.pending matches Some(p) ==> a
            < p.0.len()) ==> s.advance_ok(now),
{
}

/// A new cube shape puts every axis at index zero, shows that slice's
/// indices, makes the innermost axis live and stops playback.
pub proof fn lemma_new_cube_shape<P>(s: SliceState<P>, dims: Seq<usize>)
    requires
        dims != s.dims,
        dims.len() <= usize::MAX,
    ensures
        s.set_cube(dims).dims == dims,
        s.set_cube(dims).current.len() == dims.len(),
        forall|i: int| 0 <= i < dims.len() ==> s.set_cube(dims).current[i] == 0,
        s.set_cube(dims).displayed == s.set_cube(dims).current,
        dims.len() > 0 ==> s.set_cube(dims).active_axis as int == dims.len() - 1,
        dims.len() == 0 ==> s.set_cube(dims).active_axis == 0,
        s.set_cube(dims).playing is None,
        s.set_cube(dims).interval == s.interval,
{
}

/// Draining the outgoing request hands it over and changes nothing else.
pub proof fn lemma_take_request_only_drains<P>(s: SliceState<P>)
    ensures
        s.take_request().outgoing is None,
        s.take_request().requested == s.requested,
        s.take_request().current == s.current,
        s.take_request().displayed == s.displayed,
        s.take_request().playing == s.playing,
        s.take_request().pending == s.pending,
        s.take_request().dims == s.dims,
{
}

/// Starting playback plays the given axis from now, with nothing in flight
/// and the displayed frame and handle kept; changing the speed changes only
/// the interval.
pub proof fn lemma_play_and_speed<P>(s: SliceState<P>, axis: usize, interval: u64, now: u64)
    ensures
        s.apply(SliceAction::Play(axis), now).playing == Some(axis),
        s.apply(SliceAction::Play(axis), now).display_time == now,
        s.apply(SliceAction::Play(axis), now).requested is None,
        s.apply(SliceAction::Play(axis), now).pending is None,
        s.apply(SliceAction::Play(axis), now).current == s.current,
        s.apply(SliceAction::Play(axis), now).displayed == s.displayed,
        s.apply(SliceAction::SetSpeed(interval), now) == (SliceState { interval, ..s }),
        s.apply(SliceAction::Idle, now) == s,
{
}

/// Moving the handle sets exactly the chosen index on the chosen axis.
pub proof fn lemma_scrub_moves_one_index<P>(s: SliceState<P>, axis: usize, index: usize, now: u64)
    requires
        axis < s.current.len(),
    ensures
        s.apply(SliceAction::SetIndex(axis, index), now).current.len() == s.current.len(),
        s.apply(SliceAction::SetIndex(axis, index), now).current[axis as int] == index,
        forall|j: int|
            0 <= j < s.current.len() && j != axis ==> s.apply(
                SliceAction::SetIndex(axis, index),
                now,
            ).current[j] == s.current[j],
        s.apply(SliceAction::SetIndex(axis, index), now).displayed == s.displayed,
{
}

} // verus!
