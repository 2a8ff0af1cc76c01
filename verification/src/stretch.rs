//! Stretch and colormap display settings: which stretch function is used,
//! whether scaling is symmetric about zero, which colormap is shown in each
//! mode, reversal, colorbar lock, and when the rendered texture goes stale.

use vstd::prelude::*;
use crate::colormap::{Colormap, colormap_is_diverging};
use crate::text::{chars_equal, chars_of};

verus! {

/// Stretch function type.
#[derive(Clone, Copy, Debug, PartialEq, Eq, Structural)]
pub enum StretchType {
    Linear,
    Log,
}

impl Default for StretchType {
    fn default() -> (r: StretchType)
        ensures
            r == StretchType::Linear,
    {
        StretchType::Linear
    }
}

/// The stretch mode reported to and accepted from the host: linear or log
/// stretch, or symmetric (diverging) scaling.
#[derive(Clone, Copy, Debug, PartialEq, Eq, Structural)]
pub enum StretchMode {
    Linear,
    Log,
    Symmetric,
}

/// The name of each stretch mode.
pub open spec fn stretch_mode_name(m: StretchMode) -> Seq<char> {
    match m {
        StretchMode::Linear => seq!['l', 'i', 'n', 'e', 'a', 'r'],
        StretchMode::Log => seq!['l', 'o', 'g'],
        StretchMode::Symmetric => seq!['s', 'y', 'm', 'm', 'e', 't', 'r', 'i', 'c'],
    }
}

/// The stretch mode a name denotes (exact match), if any.
pub open spec fn stretch_mode_from_name(name: Seq<char>) -> Option<StretchMode> {
    if name == stretch_mode_name(StretchMode::Linear) {
        Some(StretchMode::Linear)
    } else if name == stretch_mode_name(StretchMode::Log) {
        Some(StretchMode::Log)
    } else if name == stretch_mode_name(StretchMode::Symmetric) {
        Some(StretchMode::Symmetric)
    } else {
        None
    }
}

impl StretchMode {
    /// Parse `"linear"`, `"log"` or `"symmetric"`; any other name gives `None`.
    pub fn from_name(name: &str) -> (r: Option<StretchMode>)
        ensures
            r == stretch_mode_from_name(name@),
    {
        let chars = chars_of(name);
        let k = chars.as_slice();
        if chars_equal(k, &['l', 'i', 'n', 'e', 'a', 'r']) {
            Some(StretchMode::Linear)
        } else if chars_equal(k, &['l', 'o', 'g']) {
            Some(StretchMode::Log)
        } else if chars_equal(k, &['s', 'y', 'm', 'm', 'e', 't', 'r', 'i', 'c']) {
            Some(StretchMode::Symmetric)
        } else {
            None
        }
    }

    /// The mode's name: `"linear"`, `"log"` or `"symmetric"`.
    pub fn name(&self) -> (r: &'static str)
        ensures
            r@ == stretch_mode_name(*self),
    {
        match self {
            StretchMode::Linear => {
                proof {
                    reveal_strlit("linear");
                }
                "linear"
            },
            StretchMode::Log => {
                proof {
                    reveal_strlit("log");
                }
                "log"
            },
            StretchMode::Symmetric => {
                proof {
                    reveal_strlit("symmetric");
                }
                "symmetric"
            },
        }
    }
}

/// Parsing a stretch mode's name gives that mode back.
pub proof fn lemma_stretch_mode_name_round_trip(m: StretchMode)
    ensures
        stretch_mode_from_name(stretch_mode_name(m)) == Some(m),
{
    assert(stretch_mode_name(StretchMode::Linear) != stretch_mode_name(StretchMode::Log));
    assert(stretch_mode_name(StretchMode::Linear) != stretch_mode_name(StretchMode::Symmetric));
    assert(stretch_mode_name(StretchMode::Log) != stretch_mode_name(StretchMode::Symmetric));
}

/// Which display limits a display reset applies.
#[derive(Clone, Copy, Debug, PartialEq, Eq, Structural)]
pub enum LimitsReset {
    /// Recompute the limits from the current image (the colorbar was locked).
    Recompute,
    /// Restore the limits computed when the image was loaded.
    Restore,
}

/// Mathematical model of [`DisplaySettings`].
pub struct DisplayState {
    pub stretch_type: StretchType,
    pub standard_colormap: Colormap,
    pub diverging_colormap: Colormap,
    pub symmetric: bool,
    pub reversed: bool,
    pub colorbar_locked: bool,
    pub adjusting: bool,
    pub texture_dirty: bool,
}

impl DisplayState {
    /// The standard slot holds a standard colormap and the diverging slot a
    /// diverging one.
    pub open spec fn wf(self) -> bool {
        !colormap_is_diverging(self.standard_colormap) && colormap_is_diverging(
            self.diverging_colormap,
        )
    }

    /// The colormap in use: the diverging one in symmetric mode, the standard one otherwise.
    pub open spec fn colormap(self) -> Colormap {
        if self.symmetric {
            self.diverging_colormap
        } else {
            self.standard_colormap
        }
    }

    /// The stretch mode reported to the host.
    pub open spec fn stretch_mode(self) -> StretchMode {
        if self.symmetric {
            StretchMode::Symmetric
        } else {
            match self.stretch_type {
                StretchType::Linear => StretchMode::Linear,
                StretchType::Log => StretchMode::Log,
            }
        }
    }

    /// State after selecting a stretch type; switching to log leaves symmetric mode.
    pub open spec fn set_stretch_type(self, t: StretchType) -> DisplayState {
        if self.stretch_type == t {
            self
        } else {
            DisplayState {
                stretch_type: t,
                symmetric: if t == StretchType::Log {
                    false
                } else {
                    self.symmetric
                },
                texture_dirty: true,
                ..self
            }
        }
    }

    /// State after enabling or disabling symmetric mode.
    pub open spec fn set_symmetric(self, enabled: bool) -> DisplayState {
        if self.symmetric == enabled {
            self
        } else {
            DisplayState { symmetric: enabled, texture_dirty: true, ..self }
        }
    }

    /// State after selecting a stretch mode from the host or the mode buttons.
    pub open spec fn set_stretch_mode(self, m: StretchMode) -> DisplayState {
        match m {
            StretchMode::Linear => self.set_symmetric(false).set_stretch_type(StretchType::Linear),
            StretchMode::Log => self.set_symmetric(false).set_stretch_type(StretchType::Log),
            StretchMode::Symmetric => self.set_stretch_type(StretchType::Linear).set_symmetric(
                true,
            ),
        }
    }

    /// State after toggling between linear and log stretch.
    pub open spec fn toggle_stretch_type(self) -> DisplayState {
        DisplayState {
            stretch_type: match self.stretch_type {
                StretchType::Linear => StretchType::Log,
                StretchType::Log => StretchType::Linear,
            },
            texture_dirty: true,
            ..self
        }
    }

    /// State after toggling colormap reversal.
    pub open spec fn toggle_reverse(self) -> DisplayState {
        DisplayState { reversed: !self.reversed, texture_dirty: true, ..self }
    }

    /// State after toggling the colorbar lock.
    pub open spec fn toggle_colorbar_lock(self) -> DisplayState {
        DisplayState { colorbar_locked: !self.colorbar_locked, ..self }
    }

    /// State after choosing a colormap: it goes to the slot of its kind.
    pub open spec fn set_colormap(self, c: Colormap) -> DisplayState {
        if colormap_is_diverging(c) {
            DisplayState { diverging_colormap: c, texture_dirty: true, ..self }
        } else {
            DisplayState { standard_colormap: c, texture_dirty: true, ..self }
        }
    }
}

/// Stretch and colormap display settings of one viewer.
pub struct DisplaySettings {
    stretch_type: StretchType,
    standard_colormap: Colormap,
    diverging_colormap: Colormap,
    symmetric_mode: bool,
    colormap_reversed: bool,
    colorbar_locked: bool,
    is_adjusting_stretch: bool,
    texture_dirty: bool,
}

impl View for DisplaySettings {
    type V = DisplayState;

    closed spec fn view(&self) -> DisplayState {
        DisplayState {
            stretch_type: self.stretch_type,
            standard_colormap: self.standard_colormap,
            diverging_colormap: self.diverging_colormap,
            symmetric: self.symmetric_mode,
            reversed: self.colormap_reversed,
            colorbar_locked: self.colorbar_locked,
            adjusting: self.is_adjusting_stretch,
            texture_dirty: self.texture_dirty,
        }
    }
}

impl DisplaySettings {
    #[verifier::type_invariant]
    spec fn slots_hold_their_kind(self) -> bool {
        !colormap_is_diverging(self.standard_colormap) && colormap_is_diverging(
            self.diverging_colormap,
        )
    }

    /// Defaults: linear stretch, gray standard colormap, RdBu diverging
    /// colormap, not symmetric, not reversed, colorbar unlocked.
    pub fn new() -> (r: Self)
        ensures
            r@ == (DisplayState {
                stretch_type: StretchType::Linear,
                standard_colormap: Colormap::Grayscale,
                diverging_colormap: Colormap::RdBu,
                symmetric: false,
                reversed: false,
                colorbar_locked: false,
                adjusting: false,
                texture_dirty: false,
            }),
            r@.wf(),
    {
        DisplaySettings {
            stretch_type: StretchType::Linear,
            standard_colormap: Colormap::Grayscale,
            diverging_colormap: Colormap::RdBu,
            symmetric_mode: false,
            colormap_reversed: false,
            colorbar_locked: false,
            is_adjusting_stretch: false,
            texture_dirty: false,
        }
    }

    /// Current stretch type.
    pub fn stretch_type(&self) -> (r: StretchType)
        ensures
            r == self@.stretch_type,
    {
        self.stretch_type
    }

    /// Toggle between linear and log stretch.
    pub fn toggle_stretch_type(&mut self)
        ensures
            final(self)@ == old(self)@.toggle_stretch_type(),
    {
        proof {
            use_type_invariant(&*self);
        }
        self.stretch_type = match self.stretch_type {
            StretchType::Linear => StretchType::Log,
            StretchType::Log => StretchType::Linear,
        };
        self.texture_dirty = true;
    }

    /// Select a stretch type. Switching to log leaves symmetric mode, since
    /// a log stretch does not suit values on both sides of zero.
    pub fn set_stretch_type(&mut self, stretch_type: StretchType)
        ensures
            final(self)@ == old(self)@.set_stretch_type(stretch_type),
    {
        proof {
            use_type_invariant(&*self);
        }
        if self.stretch_type != stretch_type {
            self.stretch_type = stretch_type;
            if stretch_type == StretchType::Log && self.symmetric_mode {
                self.symmetric_mode = false;
            }
            self.texture_dirty = true;
        }
    }

    /// The stretch mode reported to the host.
    pub fn stretch_mode(&self) -> (r: StretchMode)
        ensures
            r == self@.stretch_mode(),
    {
        if self.symmetric_mode {
            StretchMode::Symmetric
        } else {
            match self.stretch_type {
                StretchType::Linear => StretchMode::Linear,
                StretchType::Log => StretchMode::Log,
            }
        }
    }

    /// Select a stretch mode: linear or log leave symmetric mode; symmetric
    /// uses a linear stretch.
    pub fn set_stretch_mode(&mut self, mode: StretchMode)
        ensures
            final(self)@ == old(self)@.set_stretch_mode(mode),
            final(self)@.stretch_mode() == mode,
    {
        proof {
            use_type_invariant(&*self);
        }
        match mode {
            StretchMode::Linear => {
                self.set_symmetric(false);
                self.set_stretch_type(StretchType::Linear);
            },
            StretchMode::Log => {
                self.set_symmetric(false);
                self.set_stretch_type(StretchType::Log);
            },
            StretchMode::Symmetric => {
                self.set_stretch_type(StretchType::Linear);
                self.set_symmetric(true);
            },
        }
    }

    /// The colormap in use (the diverging one in symmetric mode).
    pub fn colormap(&self) -> (r: Colormap)
        ensures
            r == self@.colormap(),
            colormap_is_diverging(r) == self@.symmetric,
            self@.wf(),
    {
        proof {
            use_type_invariant(self);
        }
        if self.symmetric_mode {
            self.diverging_colormap
        } else {
            self.standard_colormap
        }
    }

    /// Choose a colormap; it is kept in the slot of its kind (diverging or standard).
    pub fn set_colormap(&mut self, colormap: Colormap)
        ensures
            final(self)@ == old(self)@.set_colormap(colormap),
            final(self)@.wf(),
    {
        proof {
            use_type_invariant(&*self);
        }
        if colormap.is_diverging() {
            self.diverging_colormap = colormap;
        } else {
            self.standard_colormap = colormap;
        }
        self.texture_dirty = true;
        proof {
            use_type_invariant(&*self);
        }
    }

    /// Whether symmetric (diverging) mode is on.
    pub fn is_symmetric(&self) -> (r: bool)
        ensures
            r == self@.symmetric,
    {
        self.symmetric_mode
    }

    /// Enable or disable symmetric (diverging) mode.
    pub fn set_symmetric(&mut self, enabled: bool)
        ensures
            final(self)@ == old(self)@.set_symmetric(enabled),
    {
        proof {
            use_type_invariant(&*self);
        }
        if self.symmetric_mode != enabled {
            self.symmetric_mode = enabled;
            self.texture_dirty = true;
        }
    }

    /// Toggle symmetric mode.
    pub fn toggle_symmetric(&mut self)
        ensures
            final(self)@ == old(self)@.set_symmetric(!old(self)@.symmetric),
    {
        proof {
            use_type_invariant(&*self);
        }
        let enabled = !self.symmetric_mode;
        self.set_symmetric(enabled);
    }

    /// Whether the colormap is reversed.
    pub fn is_reversed(&self) -> (r: bool)
        ensures
            r == self@.reversed,
    {
        self.colormap_reversed
    }

    /// Toggle colormap reversal.
    pub fn toggle_reverse(&mut self)
        ensures
            final(self)@ == old(self)@.toggle_reverse(),
    {
        proof {
            use_type_invariant(&*self);
        }
        self.colormap_reversed = !self.colormap_reversed;
        self.texture_dirty = true;
    }

    /// Set colormap reversal directly.
    pub fn set_reversed(&mut self, reversed: bool)
        ensures
            final(self)@ == (if old(self)@.reversed == reversed {
                old(self)@
            } else {
                DisplayState { reversed, texture_dirty: true, ..old(self)@ }
            }),
    {
        proof {
            use_type_invariant(&*self);
        }
        if self.colormap_reversed != reversed {
            self.colormap_reversed = reversed;
            self.texture_dirty = true;
        }
    }

    /// Whether colorbar limits are kept when new arrays arrive.
    pub fn is_colorbar_locked(&self) -> (r: bool)
        ensures
            r == self@.colorbar_locked,
    {
        self.colorbar_locked
    }

    /// Toggle the colorbar lock.
    pub fn toggle_colorbar_lock(&mut self)
        ensures
            final(self)@ == old(self)@.toggle_colorbar_lock(),
    {
        proof {
            use_type_invariant(&*self);
        }
        self.colorbar_locked = !self.colorbar_locked;
    }

    /// Record whether the user is dragging to adjust contrast/bias.
    pub fn set_adjusting_stretch(&mut self, adjusting: bool)
        ensures
            final(self)@ == (DisplayState { adjusting, ..old(self)@ }),
    {
        proof {
            use_type_invariant(&*self);
        }
        self.is_adjusting_stretch = adjusting;
    }

    /// Whether the user is dragging to adjust contrast/bias.
    pub fn is_adjusting_stretch(&self) -> (r: bool)
        ensures
            r == self@.adjusting,
    {
        self.is_adjusting_stretch
    }

    /// Return to the linear stretch (the contrast/bias of every mode is reset alongside).
    pub fn reset_all_stretch(&mut self)
        ensures
            final(self)@ == (DisplayState {
                stretch_type: StretchType::Linear,
                texture_dirty: true,
                ..old(self)@
            }),
    {
        proof {
            use_type_invariant(&*self);
        }
        self.stretch_type = StretchType::Linear;
        self.texture_dirty = true;
    }

    /// Reset the display: the colorbar is unlocked, and the limits to apply
    /// are recomputed from the image if the colorbar was locked and an image
    /// is loaded, and restored otherwise. The texture goes stale.
    pub fn reset_display(&mut self, has_image: bool) -> (r: LimitsReset)
        ensures
            r == (if old(self)@.colorbar_locked && has_image {
                LimitsReset::Recompute
            } else {
                LimitsReset::Restore
            }),
            final(self)@ == (DisplayState {
                colorbar_locked: false,
                texture_dirty: true,
                ..old(self)@
            }),
    {
        proof {
            use_type_invariant(&*self);
        }
        let was_locked = self.colorbar_locked;
        self.colorbar_locked = false;
        self.texture_dirty = true;
        if was_locked && has_image {
            LimitsReset::Recompute
        } else {
            LimitsReset::Restore
        }
    }

    /// Mark the rendered texture stale (image data, limits or contrast changed).
    pub fn mark_texture_dirty(&mut self)
        ensures
            final(self)@ == (DisplayState { texture_dirty: true, ..old(self)@ }),
    {
        proof {
            use_type_invariant(&*self);
        }
        self.texture_dirty = true;
    }

    /// Whether the texture is stale; the flag is cleared.
    pub fn take_texture_dirty(&mut self) -> (r: bool)
        ensures
            r == old(self)@.texture_dirty,
            final(self)@ == (DisplayState { texture_dirty: false, ..old(self)@ }),
    {
        proof {
            use_type_invariant(&*self);
        }
        let r = self.texture_dirty;
        self.texture_dirty = false;
        r
    }
}

/// Selecting a stretch mode and reading it back gives the same mode.
pub proof fn lemma_stretch_mode_round_trip(s: DisplayState, m: StretchMode)
    ensures
        s.set_stretch_mode(m).stretch_mode() == m,
{
}

/// Switching from linear to log stretch always leaves symmetric mode, and
/// selecting the log mode is never symmetric.
pub proof fn lemma_log_is_never_symmetric(s: DisplayState)
    ensures
        !s.set_stretch_mode(StretchMode::Log).symmetric,
        s.stretch_type == StretchType::Linear ==> !s.set_stretch_type(StretchType::Log).symmetric,
        s.set_stretch_type(StretchType::Log).stretch_type == StretchType::Log,
{
}

/// A chosen colormap is in use exactly when its kind matches the mode, and
/// choosing one never disturbs the other mode's choice.
pub proof fn lemma_colormap_choice(s: DisplayState, c: Colormap)
    requires
        s.wf(),
    ensures
        s.set_colormap(c).wf(),
        (s.set_colormap(c).colormap() == c) == (colormap_is_diverging(c) == s.symmetric),
        colormap_is_diverging(c) ==> s.set_colormap(c).standard_colormap == s.standard_colormap,
        !colormap_is_diverging(c) ==> s.set_colormap(c).diverging_colormap
            == s.diverging_colormap,
{
}

/// Any change to what is rendered marks the texture stale; a request that
/// changes nothing leaves the settings as they were.
pub proof fn lemma_render_changes_mark_dirty(s: DisplayState, t: StretchType, enabled: bool)
    ensures
        s.set_stretch_type(t) != s ==> s.set_stretch_type(t).texture_dirty,
        s.stretch_type == t ==> s.set_stretch_type(t) == s,
        s.set_symmetric(enabled) != s ==> s.set_symmetric(enabled).texture_dirty,
        s.symmetric == enabled ==> s.set_symmetric(enabled) == s,
{
}

/// Toggling twice restores the stretch type, the reversal and the lock
/// (the texture is left marked stale by the stretch and reversal toggles).
pub proof fn lemma_toggles_are_involutions(s: DisplayState)
    ensures
        s.toggle_stretch_type().toggle_stretch_type() == (DisplayState { texture_dirty: true, ..s }),
        s.toggle_reverse().toggle_reverse() == (DisplayState { texture_dirty: true, ..s }),
        s.toggle_colorbar_lock().toggle_colorbar_lock() == s,
{
}

/// Selecting a stretch type or symmetric mode sets exactly that, and the
/// reported mode is symmetric in symmetric mode and the stretch type otherwise.
pub proof fn lemma_settings_take_effect(s: DisplayState, t: StretchType, enabled: bool)
    ensures
        s.set_stretch_type(t).stretch_type == t,
        t == StretchType::Linear ==> s.set_stretch_type(t).symmetric == s.symmetric,
        s.set_stretch_type(t).reversed == s.reversed,
        s.set_stretch_type(t).standard_colormap == s.standard_colormap,
        s.set_stretch_type(t).diverging_colormap == s.diverging_colormap,
        s.set_symmetric(enabled).symmetric == enabled,
        s.set_symmetric(enabled).stretch_type == s.stretch_type,
        s.set_symmetric(enabled).reversed == s.reversed,
        (s.stretch_mode() == StretchMode::Symmetric) == s.symmetric,
        (s.stretch_mode() == StretchMode::Log) == (!s.symmetric && s.stretch_type
            == StretchType::Log),
        (s.stretch_mode() == StretchMode::Linear) == (!s.symmetric && s.stretch_type
            == StretchType::Linear),
        s.symmetric ==> s.colormap() == s.diverging_colormap,
        !s.symmetric ==> s.colormap() == s.standard_colormap,
{
}

/// Each toggle flips its own setting and leaves the others alone.
pub proof fn lemma_toggles_flip(s: DisplayState)
    ensures
        s.toggle_reverse().reversed == !s.reversed,
        s.toggle_reverse().stretch_type == s.stretch_type,
        s.toggle_reverse().symmetric == s.symmetric,
        s.toggle_colorbar_lock().colorbar_locked == !s.colorbar_locked,
        s.toggle_colorbar_lock().reversed == s.reversed,
        s.toggle_stretch_type().stretch_type != s.stretch_type,
        s.toggle_stretch_type().symmetric == s.symmetric,
        s.toggle_stretch_type().reversed == s.reversed,
{
}

/// A chosen colormap lands in the slot of its kind.
pub proof fn lemma_colormap_slot(s: DisplayState, c: Colormap)
    ensures
        colormap_is_diverging(c) ==> s.set_colormap(c).diverging_colormap == c,
        !colormap_is_diverging(c) ==> s.set_colormap(c).standard_colormap == c,
        s.set_colormap(c).symmetric == s.symmetric,
        s.set_colormap(c).stretch_type == s.stretch_type,
{
}

} // verus!
