//! What is drawn over the picture, and the window title.
use vstd::prelude::*;
use crate::clock::PlaybackRate;
use crate::decimal::{digit_char, digits, padded, push_decimal, push_padded};
use crate::time::{Duration, Instant};

verus! {

/// A width and a height in pixels.
#[derive(Clone, Copy, Debug, PartialEq, Eq, Structural)]
pub struct Size {
    pub width: u32,
    pub height: u32,
}

/// What to do about the shown subtitle.
#[derive(Clone, Copy, Debug, PartialEq, Eq, Structural)]
pub enum SubtitleStep {
    /// Leave it.
    Keep,
    /// None is shown; make sure that it stays so. Nothing has to be presented.
    Blank,
    /// Show this cue and present.
    Show(usize),
    /// Show none and present.
    Hide,
}

impl SubtitleStep {
    /// Whether the picture has to be presented again.
    pub open spec fn presents(self) -> bool {
        self is Show || self is Hide
    }

    /// Whether the picture has to be presented again.
    pub fn present_needed(&self) -> (r: bool)
        ensures
            r == self.presents(),
    {
        match self {
            SubtitleStep::Show(_) | SubtitleStep::Hide => true,
            _ => false,
        }
    }
}

/// The state of the overlays.
#[derive(Clone, Copy, Debug, PartialEq, Eq, Structural)]
pub struct OverlayManager {
    /// Whether a subtitle file was loaded for the current media file.
    pub subtitle_loaded: bool,
    pub subtitles_enabled: bool,
    pub subtitle_clock_base: Option<Duration>,
    pub active_subtitle_cue: Option<usize>,
    pub active_subtitle_viewport: Option<Size>,
    pub volume_overlay_until: Option<Instant>,
    pub replay_indicator_until: Option<Instant>,
    pub show_decode_info: bool,
}

/// The text of a rate: whole numbers without decimals, others without
/// trailing zeros, and an `x` behind it.
pub open spec fn rate_text(rate: PlaybackRate) -> Seq<char> {
    let whole = digits((rate.hundredths / 100) as nat);
    let part = rate.hundredths % 100;
    if part == 0 {
        whole + seq!['x']
    } else if part % 10 == 0 {
        whole + seq!['.', digit_char((part / 10) as nat), 'x']
    } else {
        whole + seq!['.'] + padded(part as nat, 2) + seq!['x']
    }
}

/// The title without its suffix.
pub open spec fn title_base(source_name: Option<Seq<char>>) -> Seq<char> {
    match source_name {
        Some(name) => name + " - FastPlay"@,
        None => "FastPlay"@,
    }
}

/// The title: the file name, then in brackets the rate unless it is normal and
/// the decode label if it is to be shown, two spaces between them.
pub open spec fn title_text(
    show_decode_info: bool,
    source_name: Option<Seq<char>>,
    rate: PlaybackRate,
    decode_label: Option<Seq<char>>,
) -> Seq<char> {
    let base = title_base(source_name);
    let label = if show_decode_info {
        decode_label
    } else {
        None
    };
    if rate.hundredths == 100 {
        match label {
            Some(l) => base + " ["@ + l + "]"@,
            None => base,
        }
    } else {
        match label {
            Some(l) => base + " ["@ + rate_text(rate) + "  "@ + l + "]"@,
            None => base + " ["@ + rate_text(rate) + "]"@,
        }
    }
}

/// Appends the text of a rate.
fn push_rate(out: &mut String, rate: PlaybackRate)
    ensures
        final(out)@ == old(out)@ + rate_text(rate),
{
    let ghost start = out@;
    push_decimal(out, (rate.hundredths / 100) as u64);
    let part: u32 = rate.hundredths % 100;
    if part != 0 {
        out.push('.');
        if part % 10 == 0 {
            push_decimal(out, (part / 10) as u64);
            proof {
                let d = (part / 10) as nat;
                assert(digits(d) =~= seq![digit_char(d)]);
            }
        } else {
            push_padded(out, part as u64, 2);
        }
    }
    out.push('x');
    proof {
        assert(out@ =~= start + rate_text(rate));
    }
}

impl Default for OverlayManager {
    fn default() -> (r: Self)
        ensures
            r == OverlayManager::initial(),
    {
        Self::new()
    }
}

impl OverlayManager {
    /// Nothing loaded and nothing shown.
    pub open spec fn initial() -> Self {
        OverlayManager {
            subtitle_loaded: false,
            subtitles_enabled: true,
            subtitle_clock_base: None,
            active_subtitle_cue: None,
            active_subtitle_viewport: None,
            volume_overlay_until: None,
            replay_indicator_until: None,
            show_decode_info: false,
        }
    }

    pub fn new() -> (r: Self)
        ensures
            r == OverlayManager::initial(),
    {
        OverlayManager {
            subtitle_loaded: false,
            subtitles_enabled: true,
            subtitle_clock_base: None,
            active_subtitle_cue: None,
            active_subtitle_viewport: None,
            volume_overlay_until: None,
            replay_indicator_until: None,
            show_decode_info: false,
        }
    }

    pub fn replay_indicator_until(&self) -> (r: Option<Instant>)
        ensures
            r == self.replay_indicator_until,
    {
        self.replay_indicator_until
    }

    /// The window title.
    pub fn window_title(
        &self,
        source_name: Option<&str>,
        playback_rate: PlaybackRate,
        decode_label: Option<&str>,
    ) -> (r: String)
        ensures
            r@ == title_text(
                self.show_decode_info,
                match source_name {
                    Some(n) => Some(n@),
                    None => None,
                },
                playback_rate,
                match decode_label {
                    Some(l) => Some(l@),
                    None => None,
                },
            ),
    {
        let mut out = String::new();
        if let Some(name) = source_name {
            out.append(name);
            out.append(" - FastPlay");
        } else {
            out.append("FastPlay");
        }
        let ghost base = match source_name {
            Some(n) => title_base(Some(n@)),
            None => title_base(None),
        };
        proof {
            assert(out@ =~= base);
        }
        let label: Option<&str> = if self.show_decode_info {
            decode_label
        } else {
            None
        };
        if playback_rate.is_normal() {
            if let Some(l) = label {
                out.append(" [");
                out.append(l);
                out.append("]");
            }
        } else {
            out.append(" [");
            push_rate(&mut out, playback_rate);
            if let Some(l) = label {
                out.append("  ");
                out.append(l);
            }
            out.append("]");
        }
        out
    }

    /// Whether the time of the volume display is over.
    pub open spec fn volume_is_over(self, now: Instant) -> bool {
        self.volume_overlay_until matches Some(until) && now@ > until@
    }

    /// Whether the presenter has to be asked to remove the volume display.
    pub fn volume_removal_due(&self, now: Instant) -> (r: bool)
        ensures
            r == self.volume_is_over(now),
    {
        match self.volume_overlay_until {
            Some(until) => now.nanos > until.nanos,
            None => false,
        }
    }

    /// The overlays after a removal of the volume display that was due; one that
    /// failed changes nothing.
    pub open spec fn volume_refreshed(self, now: Instant, removed: bool) -> Self {
        if self.volume_is_over(now) && removed {
            OverlayManager { volume_overlay_until: None, ..self }
        } else {
            self
        }
    }

    /// Takes the volume display down once its time is over. `outcome` is the
    /// answer of the presenter, which is asked if that is due: whether its picture
    /// changed, or why it failed. Returns whether the picture has to be presented
    /// again, or the failure.
    pub fn refresh_volume(&mut self, now: Instant, outcome: Result<bool, String>) -> (r: Result<
        bool,
        String,
    >)
        ensures
            *final(self) == old(self).volume_refreshed(now, outcome is Ok),
            r == (if old(self).volume_is_over(now) {
                outcome
            } else {
                Ok::<bool, String>(false)
            }),
    {
        if !self.volume_removal_due(now) {
            return Ok(false);
        }
        if outcome.is_ok() {
            self.volume_overlay_until = None;
        }
        outcome
    }

    /// Whether subtitles are there and switched on.
    pub open spec fn shows_subtitles(self) -> bool {
        self.subtitle_loaded && self.subtitles_enabled
    }

    /// What to do about the shown subtitle, given the size of the view and the
    /// cue that belongs to the current position.
    pub open spec fn subtitle_step(self, viewport: Size, cue: Option<usize>) -> SubtitleStep {
        if !self.shows_subtitles() {
            if self.active_subtitle_cue is Some {
                SubtitleStep::Hide
            } else {
                SubtitleStep::Blank
            }
        } else if viewport.width == 0 || viewport.height == 0 {
            SubtitleStep::Keep
        } else if self.active_subtitle_cue == cue && self.active_subtitle_viewport == Some(
            viewport,
        ) {
            SubtitleStep::Keep
        } else {
            match cue {
                Some(index) => SubtitleStep::Show(index),
                None => SubtitleStep::Hide,
            }
        }
    }

    /// The overlays after that step. A cue that could not be shown changes
    /// nothing.
    pub open spec fn subtitle_updated(self, viewport: Size, cue: Option<usize>, shown: bool) -> Self {
        let step = self.subtitle_step(viewport, cue);
        if !self.shows_subtitles() {
            OverlayManager { active_subtitle_cue: None, active_subtitle_viewport: None, ..self }
        } else if step is Keep || (step is Show && !shown) {
            self
        } else {
            OverlayManager {
                active_subtitle_cue: cue,
                active_subtitle_viewport: Some(viewport),
                ..self
            }
        }
    }

    /// What the presenter has to do about the shown subtitle.
    pub fn plan_subtitle(&self, viewport: Size, cue: Option<usize>) -> (r: SubtitleStep)
        ensures
            r == self.subtitle_step(viewport, cue),
    {
        if !self.subtitle_loaded || !self.subtitles_enabled {
            return if self.active_subtitle_cue.is_some() {
                SubtitleStep::Hide
            } else {
                SubtitleStep::Blank
            };
        }
        if viewport.width == 0 || viewport.height == 0 {
            return SubtitleStep::Keep;
        }
        let same_cue = match (self.active_subtitle_cue, cue) {
            (Some(a), Some(b)) => a == b,
            (None, None) => true,
            _ => false,
        };
        let same_view = match self.active_subtitle_viewport {
            Some(v) => v.width == viewport.width && v.height == viewport.height,
            None => false,
        };
        if same_cue && same_view {
            return SubtitleStep::Keep;
        }
        match cue {
            Some(index) => SubtitleStep::Show(index),
            None => SubtitleStep::Hide,
        }
    }

    /// Brings the shown subtitle up to date, once the presenter did what
    /// `plan_subtitle` asks for; `outcome` says whether it could show a cue.
    /// Returns whether the picture has to be presented again, which it has to if
    /// the shown cue or the size of the view changed, or the failure.
    pub fn update_subtitle(
        &mut self,
        viewport: Size,
        cue: Option<usize>,
        outcome: Result<(), String>,
    ) -> (r: Result<bool, String>)
        ensures
            *final(self) == old(self).subtitle_updated(viewport, cue, outcome is Ok),
            match (old(self).subtitle_step(viewport, cue), outcome) {
                (SubtitleStep::Show(_), Err(error)) => r == Err::<bool, String>(error),
                (step, _) => r == Ok::<bool, String>(step.presents()),
            },
    {
        let step = self.plan_subtitle(viewport, cue);
        if !self.subtitle_loaded || !self.subtitles_enabled {
            self.active_subtitle_cue = None;
            self.active_subtitle_viewport = None;
            return Ok(step.present_needed());
        }
        match step {
            SubtitleStep::Keep | SubtitleStep::Blank => Ok(false),
            SubtitleStep::Show(_) => {
                match outcome {
                    Ok(_) => {},
                    Err(error) => return Err(error),
                }
                self.active_subtitle_cue = cue;
                self.active_subtitle_viewport = Some(viewport);
                Ok(true)
            },
            SubtitleStep::Hide => {
                self.active_subtitle_cue = cue;
                self.active_subtitle_viewport = Some(viewport);
                Ok(true)
            },
        }
    }

    /// The overlays with subtitles switched; without a subtitle file nothing
    /// changes.
    pub open spec fn subtitles_toggled(self) -> Self {
        if self.subtitle_loaded {
            OverlayManager {
                subtitles_enabled: !self.subtitles_enabled,
                subtitle_clock_base: None,
                active_subtitle_cue: None,
                active_subtitle_viewport: None,
                ..self
            }
        } else {
            self
        }
    }

    /// Switches subtitles on or off; returns whether the shown one has to be
    /// removed.
    pub fn toggle_subtitles(&mut self) -> (r: bool)
        ensures
            *final(self) == old(self).subtitles_toggled(),
            r == (old(self).subtitle_loaded && old(self).subtitles_enabled),
    {
        if !self.subtitle_loaded {
            return false;
        }
        self.subtitles_enabled = !self.subtitles_enabled;
        self.subtitle_clock_base = None;
        self.active_subtitle_cue = None;
        self.active_subtitle_viewport = None;
        !self.subtitles_enabled
    }
}

/// Updating the subtitle again, with nothing changed, keeps it.
pub proof fn subtitle_update_settles(o: OverlayManager, viewport: Size, cue: Option<usize>)
    ensures
        !o.subtitle_updated(viewport, cue, true).subtitle_step(viewport, cue).presents(),
{
}

/// A shown cue is never taken down without presenting the picture again.
pub proof fn taking_a_cue_down_presents(o: OverlayManager, viewport: Size, cue: Option<usize>)
    requires
        o.active_subtitle_cue is Some,
        o.subtitle_updated(viewport, cue, true).active_subtitle_cue is None,
    ensures
        o.subtitle_step(viewport, cue).presents(),
{
}

/// A volume display that could not be removed is asked for again.
pub proof fn failed_removal_is_due_again(o: OverlayManager, now: Instant, later: Instant)
    requires
        o.volume_is_over(now),
        later@ >= now@,
    ensures
        o.volume_refreshed(now, false).volume_is_over(later),
{
}

/// The title shows no brackets at normal speed while decode info is hidden.
pub proof fn plain_title(source_name: Option<Seq<char>>, decode_label: Option<Seq<char>>)
    ensures
        title_text(false, source_name, PlaybackRate { hundredths: 100 }, decode_label)
            == title_base(source_name),
{
}

/// The text of a rate in hundredths: two decimals at most, and none at the end
/// that is zero.
pub proof fn rate_is_shown_without_trailing_zeros(whole: u32, tenth: u32, hundredth: u32)
    requires
        whole <= 40_000_000,
        tenth < 10,
        0 < hundredth < 10,
    ensures
        rate_text(PlaybackRate { hundredths: (100 * whole) as u32 }) == digits(whole as nat)
            + seq!['x'],
        tenth > 0 ==> rate_text(PlaybackRate { hundredths: (100 * whole + 10 * tenth) as u32 })
            == digits(whole as nat) + seq!['.', digit_char(tenth as nat), 'x'],
        rate_text(PlaybackRate { hundredths: (100 * whole + 10 * tenth + hundredth) as u32 })
            == digits(whole as nat) + seq!['.'] + padded((10 * tenth + hundredth) as nat, 2)
            + seq!['x'],
{
    let a = (100 * whole) as u32;
    let b = (100 * whole + 10 * tenth) as u32;
    let c = (100 * whole + 10 * tenth + hundredth) as u32;
    assert(a / 100 == whole && a % 100 == 0);
    assert(b / 100 == whole && b % 100 == 10 * tenth);
    assert(b % 100 % 10 == 0 && b % 100 / 10 == tenth);
    assert(c / 100 == whole && c % 100 == 10 * tenth + hundredth);
    assert(c % 100 % 10 == hundredth);
}

/// The title is that of the file, and in brackets the rate where it is not the
/// normal one and the decode label where it is asked for.
pub proof fn title_holds_what_is_asked_for(
    name: Seq<char>,
    rate: PlaybackRate,
    label: Seq<char>,
)
    ensures
        title_base(Some(name)) == name + " - FastPlay"@,
        title_base(None) == "FastPlay"@,
        rate.hundredths == 100 ==> {
            &&& title_text(true, Some(name), rate, Some(label)) == title_base(Some(name)) + " ["@
                + label + "]"@
            &&& title_text(true, Some(name), rate, None) == title_base(Some(name))
        },
        rate.hundredths != 100 ==> {
            &&& title_text(true, Some(name), rate, Some(label)) == title_base(Some(name)) + " ["@
                + rate_text(rate) + "  "@ + label + "]"@
            &&& title_text(true, Some(name), rate, None) == title_base(Some(name)) + " ["@
                + rate_text(rate) + "]"@
        },
        title_text(false, Some(name), rate, Some(label)) == title_text(
            true,
            Some(name),
            rate,
            None,
        ),
        title_text(false, Some(name), rate, None) == title_text(true, Some(name), rate, None),
{
}

/// Subtitles that are switched off are taken down, and those that are on follow
/// the cue and the size of the view: a change of either shows the cue again, no
/// cue takes the shown one down, and nothing else presents the picture. In a view
/// without an area nothing changes.
pub proof fn subtitle_step_follows_the_cue(o: OverlayManager, viewport: Size, cue: usize)
    ensures
        !o.subtitle_loaded || !o.subtitles_enabled ==> {
            &&& o.subtitle_step(viewport, Some(cue)).presents() <==> o.active_subtitle_cue is Some
            &&& !(o.subtitle_step(viewport, Some(cue)) is Show)
            &&& o.subtitle_updated(viewport, Some(cue), true).active_subtitle_cue is None
        },
        o.subtitle_loaded && o.subtitles_enabled && (viewport.width == 0 || viewport.height == 0)
            ==> o.subtitle_updated(viewport, Some(cue), true) == o && o.subtitle_updated(
            viewport,
            None,
            true,
        ) == o && !o.subtitle_step(viewport, Some(cue)).presents(),
        o.subtitle_loaded && o.subtitles_enabled && viewport.width > 0 && viewport.height > 0 ==> {
            &&& o.subtitle_step(viewport, Some(cue)).presents() <==> o.active_subtitle_cue != Some(
                cue,
            ) || o.active_subtitle_viewport != Some(viewport)
            &&& !(o.subtitle_step(viewport, Some(cue)) is Hide)
            &&& o.subtitle_updated(viewport, Some(cue), true).active_subtitle_cue == Some(cue)
            &&& o.subtitle_updated(viewport, Some(cue), false).active_subtitle_cue
                == o.active_subtitle_cue
            &&& o.active_subtitle_cue is Some ==> o.subtitle_step(viewport, None) is Hide
            &&& o.subtitle_updated(viewport, None, true).active_subtitle_cue is None
        },
{
}

/// Switching subtitles twice is switching them not at all, where a file with
/// subtitles is loaded; without one nothing is switched.
pub proof fn subtitles_switch_where_they_are_loaded(o: OverlayManager)
    ensures
        o.subtitle_loaded ==> {
            &&& o.subtitles_toggled().subtitles_enabled == !o.subtitles_enabled
            &&& o.subtitles_toggled().subtitles_toggled().subtitles_enabled == o.subtitles_enabled
            &&& o.subtitles_toggled().active_subtitle_cue is None
            &&& o.subtitles_toggled().subtitle_clock_base is None
        },
        !o.subtitle_loaded ==> o.subtitles_toggled() == o,
{
}

/// The volume is taken down once its time is over, and not before.
pub proof fn volume_stays_for_its_time(o: OverlayManager, until: Instant, now: Instant)
    requires
        o.volume_overlay_until == Some(until),
    ensures
        o.volume_is_over(now) <==> now@ > until@,
        now@ > until@ ==> o.volume_refreshed(now, true).volume_overlay_until is None,
        now@ <= until@ ==> o.volume_refreshed(now, true) == o,
        o.volume_refreshed(now, false) == o,
{
}

} // verus!
