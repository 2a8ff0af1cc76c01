use viewarr::slices::{SliceAction, SliceNavigator};

/// Slice payload as the viewer receives it: pixels, width, height,
/// integer flag and hover decimals.
type Payload = (Vec<f64>, u32, u32, bool, usize);

/// A viewer reduced to what slice navigation touches: the navigator and
/// the image currently on screen.
struct Viewer {
    nav: SliceNavigator<Payload>,
    image: Option<Payload>,
}

impl Viewer {
    fn new() -> Self {
        Viewer { nav: SliceNavigator::new(), image: None }
    }

    fn has_image(&self) -> bool {
        self.image.is_some()
    }

    fn receive_slice(
        &mut self,
        indices: Vec<usize>,
        pixels: Vec<f64>,
        width: u32,
        height: u32,
        is_integer: bool,
        value_decimals: usize,
    ) {
        if let Some(p) = self
            .nav
            .receive_slice(indices, (pixels, width, height, is_integer, value_decimals))
        {
            self.image = Some(p);
        }
    }

    /// `now` in seconds, as the viewer's clock reports it.
    fn update_playback(&mut self, now: f64) {
        let now_us = (now * 1_000_000.0).round() as u64;
        if let Some(p) = self.nav.update_playback(now_us) {
            self.image = Some(p);
        }
    }

    fn apply_slice_action(&mut self, action: SliceAction, now: f64) {
        let now_us = (now * 1_000_000.0).round() as u64;
        self.nav.apply_slice_action(action, now_us);
    }

    fn take_slice_request(&mut self) -> Option<Vec<usize>> {
        self.nav.take_slice_request()
    }

    fn set_cube(&mut self, dims: Vec<usize>) {
        self.nav.set_cube(dims);
    }
}

fn seconds(s: f64) -> u64 {
    (s * 1_000_000.0).round() as u64
}

/// A 2x2 f64 slice payload for a given index list.
fn deliver(w: &mut Viewer, indices: Vec<usize>) {
    w.receive_slice(indices, vec![0.0, 1.0, 2.0, 3.0], 2, 2, false, 6);
}

#[test]
fn set_cube_resets_indices_and_clears_play() {
    let mut w = Viewer::new();
    w.set_cube(vec![4]);
    assert_eq!(w.nav.current_indices, vec![0]);

    // Same dims is a no-op that preserves state.
    w.nav.current_indices = vec![2];
    w.set_cube(vec![4]);
    assert_eq!(w.nav.current_indices, vec![2]);

    // Changing dims resets indices and stops playback.
    w.nav.playing_axis = Some(0);
    w.set_cube(vec![3, 5]);
    assert_eq!(w.nav.current_indices, vec![0, 0]);
    assert_eq!(w.nav.playing_axis, None);
}

#[test]
fn manual_slice_displays_immediately() {
    let mut w = Viewer::new();
    w.set_cube(vec![4]);
    deliver(&mut w, vec![2]);
    assert_eq!(w.nav.current_indices, vec![2]);
    assert!(w.has_image());
    assert!(w.nav.pending_slice.is_none());
}

#[test]
fn manual_set_index_emits_request() {
    let mut w = Viewer::new();
    w.set_cube(vec![4]);
    deliver(&mut w, vec![0]);
    w.apply_slice_action(SliceAction::SetIndex(0, 3), 1.0);
    assert_eq!(w.nav.current_indices, vec![3]);
    assert_eq!(w.take_slice_request(), Some(vec![3]));
}

#[test]
fn play_waits_for_interval_when_fetch_is_fast() {
    let mut w = Viewer::new();
    w.set_cube(vec![4]);
    w.nav.play_interval = seconds(0.25);
    deliver(&mut w, vec![0]);

    // Start playing at t=0; first tick prefetches the next slice.
    w.apply_slice_action(SliceAction::Play(0), 0.0);
    w.update_playback(0.0);
    assert_eq!(w.nav.requested_indices, Some(vec![1]));
    assert_eq!(w.take_slice_request(), Some(vec![1]));

    // Fast fetch: data arrives early and is held, not shown.
    deliver(&mut w, vec![1]);
    assert!(w.nav.pending_slice.is_some());
    w.update_playback(0.1);
    assert_eq!(w.nav.current_indices, vec![0], "must wait out the interval");

    // Once the interval elapses, the frame is shown and the next prefetched.
    w.update_playback(0.25);
    assert_eq!(w.nav.current_indices, vec![1]);
    assert!(w.nav.pending_slice.is_none());
    assert_eq!(w.nav.requested_indices, Some(vec![2]));
}

#[test]
fn play_shows_when_available_if_fetch_is_slow() {
    let mut w = Viewer::new();
    w.set_cube(vec![4]);
    w.nav.play_interval = seconds(0.25);
    deliver(&mut w, vec![0]);

    w.apply_slice_action(SliceAction::Play(0), 0.0);
    w.update_playback(0.0);
    assert_eq!(w.take_slice_request(), Some(vec![1]));

    // Interval passes with no data yet: stay on the current frame.
    w.update_playback(0.3);
    assert_eq!(w.nav.current_indices, vec![0]);
    assert_eq!(w.nav.requested_indices, Some(vec![1]));

    // Slow fetch finally arrives; the next tick shows it right away.
    deliver(&mut w, vec![1]);
    w.update_playback(0.31);
    assert_eq!(w.nav.current_indices, vec![1]);
    assert_eq!(w.nav.requested_indices, Some(vec![2]));
}

#[test]
fn play_loops_back_to_start_at_the_end() {
    let mut w = Viewer::new();
    w.set_cube(vec![3]);
    w.nav.play_interval = seconds(0.1);
    deliver(&mut w, vec![2]); // start on the last slice

    w.apply_slice_action(SliceAction::Play(0), 0.0);
    w.update_playback(0.0);
    assert_eq!(w.nav.requested_indices, Some(vec![0]), "wraps past the end");
}

#[test]
fn set_cube_defaults_live_axis_to_innermost() {
    let mut w = Viewer::new();
    w.set_cube(vec![3, 4]);
    assert_eq!(w.nav.active_axis, 1);
    w.set_cube(vec![5]);
    assert_eq!(w.nav.active_axis, 0);
}

#[test]
fn scrubbing_coalesces_to_one_request_then_jumps_to_latest() {
    let mut w = Viewer::new();
    w.set_cube(vec![100]);
    w.receive_slice(vec![0], vec![0.0, 1.0, 2.0, 3.0], 2, 2, false, 6); // showing 0

    // Fast drag 10 -> 20 -> 99: only the first emits a request; the rest
    // coalesce (one in flight).
    w.apply_slice_action(SliceAction::SetIndex(0, 10), 0.0);
    assert_eq!(w.take_slice_request(), Some(vec![10]));
    w.apply_slice_action(SliceAction::SetIndex(0, 20), 0.0);
    w.apply_slice_action(SliceAction::SetIndex(0, 99), 0.0);
    assert_eq!(w.nav.current_indices, vec![99], "handle follows the drag");
    assert_eq!(w.take_slice_request(), None, "no extra requests while one is in flight");

    // The in-flight slice (10) arrives; the handle is now at 99, so it jumps
    // straight there (skipping 20).
    w.receive_slice(vec![10], vec![0.0, 1.0, 2.0, 3.0], 2, 2, false, 6);
    assert_eq!(w.nav.displayed_indices, vec![10]);
    assert_eq!(w.take_slice_request(), Some(vec![99]));

    // 99 arrives -> caught up, no further requests.
    w.receive_slice(vec![99], vec![0.0, 1.0, 2.0, 3.0], 2, 2, false, 6);
    assert_eq!(w.nav.displayed_indices, vec![99]);
    assert_eq!(w.take_slice_request(), None);
}

#[test]
fn switching_active_axis_pauses_without_starting_new() {
    let mut w = Viewer::new();
    w.set_cube(vec![3, 4]); // two axes; live axis defaults to 1
    w.receive_slice(vec![0, 0], vec![0.0, 1.0, 2.0, 3.0], 2, 2, false, 6);

    w.apply_slice_action(SliceAction::Play(1), 0.0);
    assert_eq!(w.nav.playing_axis, Some(1));

    // Selecting another axis pauses playback and makes it live, but does not
    // begin playing the new axis.
    w.apply_slice_action(SliceAction::SetActive(0), 0.5);
    assert_eq!(w.nav.active_axis, 0);
    assert_eq!(w.nav.playing_axis, None);
    assert_eq!(w.nav.requested_indices, None);
}

#[test]
fn scrub_overlay_shows_while_loading() {
    let mut w = Viewer::new();
    assert_eq!(w.nav.scrub_overlay_index(), None);
    w.set_cube(vec![3, 10]);
    deliver(&mut w, vec![0, 0]);
    assert_eq!(w.nav.scrub_overlay_index(), None);
    w.apply_slice_action(SliceAction::SetIndex(1, 7), 0.0);
    assert_eq!(w.nav.scrub_overlay_index(), Some(7));
    deliver(&mut w, vec![0, 7]);
    assert_eq!(w.nav.scrub_overlay_index(), None);
    assert!(w.nav.has_slices());
}

#[test]
fn pause_keeps_the_frame_and_drops_requests() {
    let mut w = Viewer::new();
    w.set_cube(vec![5]);
    deliver(&mut w, vec![1]);
    w.apply_slice_action(SliceAction::Play(0), 0.0);
    w.update_playback(0.0);
    assert_eq!(w.nav.requested_indices, Some(vec![2]));
    w.apply_slice_action(SliceAction::Pause, 0.1);
    assert_eq!(w.nav.playing_axis, None);
    assert_eq!(w.nav.requested_indices, None);
    assert_eq!(w.nav.current_indices, vec![1]);
    assert_eq!(w.nav.displayed_indices, vec![1]);
    // The late answer to the dropped prefetch is shown as an unsolicited slice.
    deliver(&mut w, vec![2]);
    assert_eq!(w.nav.current_indices, vec![2]);
}

#[test]
fn set_speed_changes_the_interval() {
    let mut w = Viewer::new();
    assert_eq!(w.nav.play_interval, seconds(0.25));
    w.apply_slice_action(SliceAction::SetSpeed(seconds(0.5)), 0.0);
    assert_eq!(w.nav.play_interval, seconds(0.5));
    w.apply_slice_action(SliceAction::Idle, 0.0);
    assert_eq!(w.nav.play_interval, seconds(0.5));
}

#[test]
fn playing_axis_beyond_the_cube_stops_playback() {
    let mut w = Viewer::new();
    w.set_cube(vec![4]);
    deliver(&mut w, vec![0]);
    w.apply_slice_action(SliceAction::Play(3), 0.0);
    assert!(w.nav.can_advance(0));
    w.update_playback(0.0);
    assert_eq!(w.nav.playing_axis, None);
    assert_eq!(w.take_slice_request(), None);
}

#[test]
fn playback_tick_needs_an_index_on_the_playing_axis() {
    let mut w = Viewer::new();
    w.set_cube(vec![4, 4]);
    // An unsolicited slice with a shorter index list leaves no index for axis 1.
    deliver(&mut w, vec![3]);
    w.apply_slice_action(SliceAction::Play(1), 0.0);
    assert!(!w.nav.can_advance(0));
    w.apply_slice_action(SliceAction::Play(0), 0.0);
    assert!(w.nav.can_advance(0));
    w.update_playback(0.0);
    assert_eq!(w.take_slice_request(), Some(vec![0]));
}
