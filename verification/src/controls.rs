//! The interactive state of the viewer and how key presses and timers change it.
//!
//! The application performs the returned actions (fetching, moving the location)
//! and draws; the decisions are taken here.
use vstd::prelude::*;
use crate::provider::{next_style, MapStyle};

verus! {

/// Braille spinner frames, advanced every 120 ms while something loads.
pub open spec fn spinner_frames() -> Seq<&'static str> {
    seq!["⠋", "⠙", "⠹", "⠸", "⠼", "⠴", "⠦", "⠧", "⠇", "⠏"]
}

/// Number of spinner frames.
pub const SPINNER_LEN: usize = 10;

/// Lowest radar zoom the `-` key reaches (about 130 km wide).
pub const MIN_ZOOM: u8 = 6;
/// Highest radar zoom the `+` key reaches (about 4 km wide).
pub const MAX_ZOOM: u8 = 13;
/// Furthest a provider's radar frames may lie from the latest, in frames, either way.
pub const MAX_SCRUB: i32 = 20;

/// A key as the viewer distinguishes them.
#[derive(Debug, Clone, Copy, PartialEq, Eq, Structural)]
pub enum Key {
    Char(char),
    Esc,
    Other,
}

/// One keyboard event: the key, whether Control was held, and whether it is a
/// press (repeats and releases are ignored).
#[derive(Debug, Clone, Copy, PartialEq, Eq, Structural)]
pub struct KeyInput {
    pub key: Key,
    pub ctrl: bool,
    pub press: bool,
}

/// What the application must do after an input.
#[derive(Debug, Clone, Copy, PartialEq, Eq, Structural)]
pub enum Action {
    /// Nothing.
    Nothing,
    /// Refetch everything (current weather, hourly, daily, radar).
    FetchAll,
    /// Refetch the radar only.
    FetchRadar,
    /// Hand the new map style to the provider, then refetch the radar.
    ApplyMapStyle,
    /// Move the location by the given number of steps (about 2 km each) east
    /// and north, then refetch the radar.
    Shift { east: i8, north: i8 },
}

/// The interactive state.
pub struct Controls {
    pub zoom: u8,
    pub map_style: MapStyle,
    /// Radar frame: 0 is the latest, +1 one step later, -1 one step earlier.
    pub radar_time_offset: i32,
    /// Earliest frame the provider serves (scrubbing and playback stop there).
    pub first_frame: i32,
    /// Latest frame the provider serves.
    pub last_frame: i32,
    pub radar_playing: bool,
    pub splash_active: bool,
    pub show_help: bool,
    pub spinner_frame: usize,
    pub last_error: Option<String>,
    pub quit: bool,
}

impl Controls {
    /// The provider's frame range holds the latest frame, the scrub offset lies
    /// in it, and the zoom can still be raised.
    pub open spec fn wf(&self) -> bool {
        &&& -MAX_SCRUB <= self.first_frame <= 0 <= self.last_frame <= MAX_SCRUB
        &&& self.first_frame <= self.radar_time_offset <= self.last_frame
        &&& self.zoom < 255
    }

    /// The state at start-up: latest radar frame, splash shown; `frames` is the
    /// provider's range of radar frames, first and last.
    pub fn new(zoom: u8, map_style: MapStyle, frames: (i32, i32)) -> (r: Controls)
        requires
            zoom < 255,
            -MAX_SCRUB <= frames.0 <= 0 <= frames.1 <= MAX_SCRUB,
        ensures
            r.wf(),
            r.zoom == zoom,
            r.map_style == map_style,
            r.radar_time_offset == 0,
            r.first_frame == frames.0,
            r.last_frame == frames.1,
            !r.radar_playing,
            r.splash_active,
            !r.show_help,
            r.spinner_frame == 0,
            r.last_error is None,
            !r.quit,
    {
        Controls {
            zoom,
            map_style,
            radar_time_offset: 0,
            first_frame: frames.0,
            last_frame: frames.1,
            radar_playing: false,
            splash_active: true,
            show_help: false,
            spinner_frame: 0,
            last_error: None,
            quit: false,
        }
    }

    /// The spinner character for the current frame.
    pub fn spinner(&self) -> (r: &'static str)
        ensures
            r == spinner_frames()[self.spinner_frame as int % SPINNER_LEN as int],
    {
        let frames: [&'static str; 10] = ["⠋", "⠙", "⠹", "⠸", "⠼", "⠴", "⠦", "⠧", "⠇", "⠏"];
        let r = frames[self.spinner_frame % SPINNER_LEN];
        assert(frames@ =~= spinner_frames());
        r
    }
}

/// The state after a key press; see `handle_key`.
pub open spec fn key_outcome(s: Controls, t: Controls, input: KeyInput, redraw: bool, action: Action) -> bool {
    let same_but = |t: Controls| t.map_style == s.map_style && t.radar_playing == s.radar_playing
        && t.splash_active == s.splash_active && t.spinner_frame == s.spinner_frame;
    if !input.press {
        !redraw && action == Action::Nothing && t == s
    } else if s.show_help {
        &&& redraw
        &&& action == Action::Nothing
        &&& if input.key == Key::Esc || input.key == Key::Char('q') {
            t == Controls { quit: true, ..s }
        } else {
            t == Controls { show_help: false, ..s }
        }
    } else {
        match input.key {
            Key::Esc => redraw && action == Action::Nothing && t == Controls { quit: true, ..s },
            Key::Other => !redraw && action == Action::Nothing && t == s,
            Key::Char(c) => if c == 'q' {
                redraw && action == Action::Nothing && t == Controls { quit: true, ..s }
            } else if c == '?' {
                redraw && action == Action::Nothing && t == Controls { show_help: true, ..s }
            } else if c == 'c' && input.ctrl {
                redraw && action == Action::Nothing && t == Controls { quit: true, ..s }
            } else if c == 'r' {
                redraw && action == Action::FetchAll && t == Controls { last_error: None, radar_time_offset: 0, ..s }
            } else if c == '+' || c == '=' {
                redraw && action == Action::FetchRadar && t == Controls {
                    zoom: if s.zoom + 1 < MAX_ZOOM { (s.zoom + 1) as u8 } else { MAX_ZOOM },
                    ..s
                }
            } else if c == '-' || c == '_' {
                redraw && action == Action::FetchRadar && t == Controls {
                    zoom: if s.zoom >= MIN_ZOOM + 1 { (s.zoom - 1) as u8 } else { MIN_ZOOM },
                    ..s
                }
            } else if c == 'h' {
                redraw && action == Action::Shift { east: -1i8, north: 0i8 } && t == s
            } else if c == 'l' {
                redraw && action == Action::Shift { east: 1, north: 0 } && t == s
            } else if c == 'j' {
                redraw && action == Action::Shift { east: 0i8, north: -1i8 } && t == s
            } else if c == 'k' {
                redraw && action == Action::Shift { east: 0, north: 1 } && t == s
            } else if c == ',' || c == '<' {
                redraw && action == Action::FetchRadar && t == Controls {
                    radar_time_offset: if s.radar_time_offset - 1 > s.first_frame {
                        (s.radar_time_offset - 1) as i32
                    } else {
                        s.first_frame
                    },
                    ..s
                }
            } else if c == '.' || c == '>' {
                redraw && action == Action::FetchRadar && t == Controls {
                    radar_time_offset: if s.radar_time_offset + 1 < s.last_frame {
                        (s.radar_time_offset + 1) as i32
                    } else {
                        s.last_frame
                    },
                    ..s
                }
            } else if c == 'p' {
                redraw && action == Action::Nothing && t == Controls { radar_playing: !s.radar_playing, ..s }
            } else if c == 'm' || c == 'M' {
                redraw && action == Action::ApplyMapStyle && t == Controls { map_style: next_style(s.map_style), ..s }
            } else {
                !redraw && action == Action::Nothing && t == s
            },
        }
    }
}

impl Controls {
    /// Applies a key press. Returns whether the screen must be redrawn and what
    /// the application must do. While the help is shown, `q` / `Esc` quit and
    /// any other key closes it.
    pub fn handle_key(&mut self, input: KeyInput) -> (r: (bool, Action))
        requires
            old(self).wf(),
        ensures
            final(self).wf(),
            key_outcome(*old(self), *final(self), input, r.0, r.1),
    {
        if !input.press {
            return (false, Action::Nothing);
        }
        if self.show_help {
            if input.key == Key::Esc || input.key == Key::Char('q') {
                self.quit = true;
            } else {
                self.show_help = false;
            }
            return (true, Action::Nothing);
        }
        match input.key {
            Key::Esc => {
                self.quit = true;
                (true, Action::Nothing)
            },
            Key::Other => (false, Action::Nothing),
            Key::Char(c) => {
                if c == 'q' {
                    self.quit = true;
                    (true, Action::Nothing)
                } else if c == '?' {
                    self.show_help = true;
                    (true, Action::Nothing)
                } else if c == 'c' && input.ctrl {
                    self.quit = true;
                    (true, Action::Nothing)
                } else if c == 'r' {
                    self.last_error = None;
                    self.radar_time_offset = 0;
                    (true, Action::FetchAll)
                } else if c == '+' || c == '=' {
                    let z = self.zoom + 1;
                    self.zoom = if z < MAX_ZOOM { z } else { MAX_ZOOM };
                    (true, Action::FetchRadar)
                } else if c == '-' || c == '_' {
                    let z = if self.zoom >= 1 { self.zoom - 1 } else { 0 };
                    self.zoom = if z > MIN_ZOOM { z } else { MIN_ZOOM };
                    (true, Action::FetchRadar)
                } else if c == 'h' {
                    (true, Action::Shift { east: -1, north: 0 })
                } else if c == 'l' {
                    (true, Action::Shift { east: 1, north: 0 })
                } else if c == 'j' {
                    (true, Action::Shift { east: 0, north: -1 })
                } else if c == 'k' {
                    (true, Action::Shift { east: 0, north: 1 })
                } else if c == ',' || c == '<' {
                    let o = self.radar_time_offset - 1;
                    self.radar_time_offset = if o > self.first_frame { o } else { self.first_frame };
                    (true, Action::FetchRadar)
                } else if c == '.' || c == '>' {
                    let o = self.radar_time_offset + 1;
                    self.radar_time_offset = if o < self.last_frame { o } else { self.last_frame };
                    (true, Action::FetchRadar)
                } else if c == 'p' {
                    self.radar_playing = !self.radar_playing;
                    (true, Action::Nothing)
                } else if c == 'm' || c == 'M' {
                    self.map_style = self.map_style.next();
                    (true, Action::ApplyMapStyle)
                } else {
                    (false, Action::Nothing)
                }
            },
        }
    }

    /// One step of radar playback (every 700 ms): while playing, the frame moves
    /// one step forward and wraps from the provider's last frame back to its
    /// first; the radar is then refetched.
    pub fn animation_tick(&mut self) -> (r: Action)
        requires
            old(self).wf(),
        ensures
            final(self).wf(),
            !old(self).radar_playing ==> r == Action::Nothing && *final(self) == *old(self),
            old(self).radar_playing ==> r == Action::FetchRadar && *final(self) == (Controls {
                radar_time_offset: if old(self).radar_time_offset + 1 > old(self).last_frame {
                    old(self).first_frame
                } else {
                    (old(self).radar_time_offset + 1) as i32
                },
                ..*old(self)
            }),
    {
        if !self.radar_playing {
            return Action::Nothing;
        }
        let o = self.radar_time_offset + 1;
        self.radar_time_offset = if o > self.last_frame { self.first_frame } else { o };
        Action::FetchRadar
    }

    /// Advances the spinner; returns whether the screen must be redrawn (while
    /// the splash is shown or something is still loading).
    pub fn spinner_tick(&mut self, loading: bool) -> (redraw: bool)
        requires
            old(self).wf(),
        ensures
            final(self).wf(),
            *final(self) == (Controls { spinner_frame: old(self).spinner_frame.wrapping_add(1), ..*old(self) }),
            redraw == (old(self).splash_active || loading),
    {
        self.spinner_frame = self.spinner_frame.wrapping_add(1);
        self.splash_active || loading
    }

    /// Records the last fetch error, shown in the footer until the next reload.
    pub fn record_error(&mut self, message: String)
        requires
            old(self).wf(),
        ensures
            final(self).wf(),
            *final(self) == (Controls { last_error: Some(message), ..*old(self) }),
    {
        self.last_error = Some(message);
    }

    /// Leaves the splash screen.
    pub fn dismiss_splash(&mut self)
        requires
            old(self).wf(),
        ensures
            final(self).wf(),
            *final(self) == (Controls { splash_active: false, ..*old(self) }),
    {
        self.splash_active = false;
    }
}

/// Period of the automatic refetch, in seconds: the configured interval, or
/// none when it is 0 (automatic refetching disabled).
pub fn auto_refresh_period(interval_secs: u64) -> (r: Option<u64>)
    ensures
        interval_secs == 0 ==> r is None,
        interval_secs > 0 ==> r == Some(interval_secs),
{
    if interval_secs == 0 { None } else { Some(interval_secs) }
}

/// Something is still loading when any of the four panels has no data yet.
pub fn is_loading(has_current: bool, has_radar: bool, hourly_len: usize, daily_len: usize) -> (r: bool)
    ensures
        r == (!has_current || !has_radar || hourly_len == 0 || daily_len == 0),
{
    !has_current || !has_radar || hourly_len == 0 || daily_len == 0
}

/// Playback never leaves the provider's range of frames.
pub proof fn lemma_playback_stays_in_range(s: Controls, t: Controls)
    requires
        s.wf(),
        s.radar_playing,
        t == (Controls {
            radar_time_offset: if s.radar_time_offset + 1 > s.last_frame {
                s.first_frame
            } else {
                (s.radar_time_offset + 1) as i32
            },
            ..s
        }),
    ensures
        s.first_frame <= t.radar_time_offset <= s.last_frame,
        t.wf(),
{
}

/// The zoom never leaves 6..=13 once inside it, whatever key is pressed.
pub proof fn lemma_zoom_stays_in_range(s: Controls, t: Controls, input: KeyInput, redraw: bool, action: Action)
    requires
        s.wf(),
        MIN_ZOOM <= s.zoom <= MAX_ZOOM,
        key_outcome(s, t, input, redraw, action),
    ensures
        MIN_ZOOM <= t.zoom <= MAX_ZOOM,
{
}

/// Scrubbing never leaves the provider's frames (for JMA from 30 minutes back
/// to 60 minutes ahead), whatever key is pressed.
pub proof fn lemma_scrub_stays_in_range(s: Controls, t: Controls, input: KeyInput, redraw: bool, action: Action)
    requires
        s.wf(),
        key_outcome(s, t, input, redraw, action),
    ensures
        s.first_frame <= t.radar_time_offset <= s.last_frame,
        t.first_frame == s.first_frame,
        t.last_frame == s.last_frame,
{
}

/// `r` reloads at the current time: the latest frame, with no error shown.
pub proof fn lemma_reload_returns_to_now(s: Controls, t: Controls, redraw: bool, action: Action)
    requires
        s.wf(),
        !s.show_help,
        key_outcome(s, t, press('r'), redraw, action),
    ensures
        t.radar_time_offset == 0,
        t.last_error is None,
        action == Action::FetchAll,
{
}

/// Panning: `l` moves east and `h` west by the same step, `k` north and `j`
/// south by the same step, so `l` then `h` (or `k` then `j`) comes back to the
/// starting place; none of them changes the state.
pub proof fn lemma_pan_keys_opposite(
    s: Controls,
    tl: Controls, al: Action, rl: bool,
    th: Controls, ah: Action, rh: bool,
    tk: Controls, ak: Action, rk: bool,
    tj: Controls, aj: Action, rj: bool,
)
    requires
        s.wf(),
        !s.show_help,
        key_outcome(s, tl, press('l'), rl, al),
        key_outcome(s, th, press('h'), rh, ah),
        key_outcome(s, tk, press('k'), rk, ak),
        key_outcome(s, tj, press('j'), rj, aj),
    ensures
        al matches Action::Shift { east: e1, north: n1 } && ah matches Action::Shift { east: e2, north: n2 }
            && e1 > 0 && e1 + e2 == 0 && n1 == 0 && n2 == 0,
        ak matches Action::Shift { east: e3, north: n3 } && aj matches Action::Shift { east: e4, north: n4 }
            && n3 > 0 && n3 + n4 == 0 && e3 == 0 && e4 == 0,
        tl == s && th == s && tk == s && tj == s,
{
}

/// A key press with the given character, no modifier.
pub open spec fn press(c: char) -> KeyInput {
    KeyInput { key: Key::Char(c), ctrl: false, press: true }
}

/// `?` opens the help and the next key (other than `q` or `Esc`) closes it,
/// leaving the state as it was before.
pub proof fn lemma_help_round_trip(
    s: Controls,
    m: Controls,
    t: Controls,
    second: KeyInput,
    r1: bool,
    a1: Action,
    r2: bool,
    a2: Action,
)
    requires
        s.wf(),
        !s.show_help,
        second.press,
        second.key != Key::Esc,
        second.key != Key::Char('q'),
        key_outcome(s, m, press('?'), r1, a1),
        key_outcome(m, t, second, r2, a2),
    ensures
        m.show_help,
        t == s,
        a2 == Action::Nothing,
{
}

/// One step back and one step forward in time return to the same radar frame,
/// unless the first step was stopped at the earliest frame.
pub proof fn lemma_scrub_round_trip(s: Controls, m: Controls, t: Controls, r1: bool, a1: Action, r2: bool, a2: Action)
    requires
        s.wf(),
        !s.show_help,
        s.radar_time_offset > s.first_frame,
        key_outcome(s, m, press(','), r1, a1),
        key_outcome(m, t, press('.'), r2, a2),
    ensures
        t == s,
        a1 == Action::FetchRadar,
        a2 == Action::FetchRadar,
{
}

/// `p` twice leaves playback as it was.
pub proof fn lemma_play_toggle_twice(s: Controls, m: Controls, t: Controls, r1: bool, a1: Action, r2: bool, a2: Action)
    requires
        s.wf(),
        !s.show_help,
        key_outcome(s, m, press('p'), r1, a1),
        key_outcome(m, t, press('p'), r2, a2),
    ensures
        m.radar_playing == !s.radar_playing,
        t == s,
{
}

} // verus!
