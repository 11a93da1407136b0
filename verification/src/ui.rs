//! Presentation helpers and the interactive state machine.
//!
//! These are the pure decisions behind the interactive view: the calm
//! three-step palette, the deterministic twinkle generator, the poem
//! reveal layout, the print width, and the key dispatch.  The surrounding
//! event loop, timers and terminal I/O live with the caller.

use vstd::prelude::*;
use vstd::string::StringExecFns;
use crate::lang::{Language, spec_next_language};
use crate::poems::Poem;
use crate::raster::CellColor;

verus! {

// ---------------------------------------------------------------------------
// A deterministic linear congruential generator for the twinkles.
// ---------------------------------------------------------------------------

pub open spec fn lcg_step(s: u64) -> u64 {
    vstd::wrapping::u64_specs::wrapping_add(
        vstd::wrapping::u64_specs::wrapping_mul(s, 6364136223846793005),
        1442695040888963407,
    )
}

/// Advance the generator and hand out its high word.
pub fn lcg_next_u32(seed: &mut u64) -> (r: u32)
    ensures
        *final(seed) == lcg_step(*old(seed)),
        r == (lcg_step(*old(seed)) >> 32) as u32,
{
    *seed = seed.wrapping_mul(6364136223846793005u64).wrapping_add(1442695040888963407u64);
    (*seed >> 32) as u32
}

// ---------------------------------------------------------------------------
// The soft palette: title, body and dim colors, cycling slowly.
// ---------------------------------------------------------------------------

pub open spec fn spec_soft_palette(glow_phase: u64) -> (CellColor, CellColor, CellColor) {
    let step = (glow_phase / 12) % 3;
    if step == 0 {
        (CellColor::Rgb(245, 223, 235), CellColor::Rgb(206, 204, 235), CellColor::Rgb(170, 180, 210))
    } else if step == 1 {
        (CellColor::Rgb(240, 232, 250), CellColor::Rgb(200, 216, 240), CellColor::Rgb(165, 175, 205))
    } else {
        (CellColor::Rgb(250, 240, 235), CellColor::Rgb(210, 198, 238), CellColor::Rgb(160, 170, 200))
    }
}

/// The calm palette for the poem view: title, body and dim colors.
pub fn soft_palette(glow_phase: u64) -> (r: (CellColor, CellColor, CellColor))
    ensures
        r == spec_soft_palette(glow_phase),
{
    let step: u64 = (glow_phase / 12) % 3;
    if step == 0 {
        (CellColor::Rgb(245, 223, 235), CellColor::Rgb(206, 204, 235), CellColor::Rgb(170, 180, 210))
    } else if step == 1 {
        (CellColor::Rgb(240, 232, 250), CellColor::Rgb(200, 216, 240), CellColor::Rgb(165, 175, 205))
    } else {
        (CellColor::Rgb(250, 240, 235), CellColor::Rgb(210, 198, 238), CellColor::Rgb(160, 170, 200))
    }
}

// ---------------------------------------------------------------------------
// Twinkles: a few dim sparks at deterministic pseudo-random positions.
// ---------------------------------------------------------------------------

pub open spec fn twinkle_glyph(sel: u32) -> char {
    if sel == 0 {
        '·'
    } else if sel == 1 {
        '⋅'
    } else if sel == 2 {
        '.'
    } else {
        '˙'
    }
}

/// The twinkles drawn from a seed: per attempt two draws pick a position;
/// positions on the border are skipped, the rest draw a glyph selector,
/// and selectors past the glyph set yield nothing.
pub open spec fn spec_twinkles(seed: u64, budget: nat, w: u16, h: u16) -> Seq<(u16, u16, char)>
    decreases budget,
{
    if budget == 0 {
        Seq::empty()
    } else {
        let s1 = lcg_step(seed);
        let x = (((s1 >> 32) as u32 % 65536) as u16) % w;
        let s2 = lcg_step(s1);
        let y = (((s2 >> 32) as u32 % 65536) as u16) % h;
        if x == 0 || x + 1 >= w || y == 0 || y + 1 >= h {
            spec_twinkles(s2, (budget - 1) as nat, w, h)
        } else {
            let s3 = lcg_step(s2);
            let sel = ((s3 >> 32) as u32) % 5;
            if sel <= 3 {
                seq![(x, y, twinkle_glyph(sel))] + spec_twinkles(s3, (budget - 1) as nat, w, h)
            } else {
                spec_twinkles(s3, (budget - 1) as nat, w, h)
            }
        }
    }
}

/// The full twinkle list for a frame: nothing for a tiny area; otherwise
/// two to four attempts from the mixed seed.
pub open spec fn spec_twinkle_list(seed0: u64, glow_phase: u64, w: u16, h: u16) -> Seq<
    (u16, u16, char),
> {
    if w < 4 || h < 4 {
        Seq::empty()
    } else {
        let mixed = seed0 ^ ((glow_phase << 17) | (glow_phase >> 47));
        let s1 = lcg_step(mixed);
        let count = 2 + ((s1 >> 32) as u32 % 3);
        spec_twinkles(s1, count as nat, w, h)
    }
}

/// Positions and glyphs of this frame's twinkles; every position lies
/// strictly inside the `w x h` area.
pub fn twinkle_points(seed0: u64, glow_phase: u64, w: u16, h: u16) -> (r: Vec<(u16, u16, char)>)
    ensures
        r@ == spec_twinkle_list(seed0, glow_phase, w, h),
        forall|i: int|
            0 <= i < r@.len() ==> 0 < (#[trigger] r@[i]).0 < w && 0 < r@[i].1 < h,
{
    let mut out: Vec<(u16, u16, char)> = Vec::new();
    if w < 4 || h < 4 {
        proof {
            assert(out@ =~= spec_twinkle_list(seed0, glow_phase, w, h));
        }
        return out;
    }
    let mut seed: u64 = seed0 ^ ((glow_phase << 17) | (glow_phase >> 47));
    let count: u32 = 2 + lcg_next_u32(&mut seed) % 3;
    let ghost target = spec_twinkle_list(seed0, glow_phase, w, h);
    proof {
        assert(target == spec_twinkles(seed, count as nat, w, h));
    }
    let mut budget: u32 = count;
    while budget > 0
        invariant
            w >= 4,
            h >= 4,
            target == out@ + spec_twinkles(seed, budget as nat, w, h),
            forall|i: int|
                0 <= i < out@.len() ==> 0 < (#[trigger] out@[i]).0 < w && 0 < out@[i].1 < h,
        decreases budget,
    {
        let xr: u32 = lcg_next_u32(&mut seed);
        let x: u16 = ((xr % 65536) as u16) % w;
        let yr: u32 = lcg_next_u32(&mut seed);
        let y: u16 = ((yr % 65536) as u16) % h;
        if !(x == 0 || x + 1 >= w || y == 0 || y + 1 >= h) {
            let sel: u32 = lcg_next_u32(&mut seed) % 5;
            if sel <= 3 {
                let ch: char = if sel == 0 {
                    '·'
                } else if sel == 1 {
                    '⋅'
                } else if sel == 2 {
                    '.'
                } else {
                    '˙'
                };
                let ghost old_out = out@;
                out.push((x, y, ch));
                proof {
                    assert(out@ =~= old_out + seq![(x, y, ch)]);
                    assert((old_out + seq![(x, y, ch)]) + spec_twinkles(
                        seed,
                        (budget - 1) as nat,
                        w,
                        h,
                    ) =~= old_out + (seq![(x, y, ch)] + spec_twinkles(
                        seed,
                        (budget - 1) as nat,
                        w,
                        h,
                    )));
                }
            }
        }
        budget = budget - 1;
    }
    proof {
        assert(out@ + spec_twinkles(seed, 0, w, h) =~= out@);
    }
    out
}

// ---------------------------------------------------------------------------
// The poem view layout: which line shows in which role.
// ---------------------------------------------------------------------------

/// The role of one displayed poem line.
#[derive(Clone, Copy, Debug, PartialEq, Eq, Structural)]
pub enum PoemLineKind {
    Title,
    Author,
    Blank,
    Body,
    Hidden,
}

/// The poem view: title, author (dash-prefixed when present), a blank
/// line, then each body line shown once revealed and hidden before that.
pub fn poem_display_lines(poem: &Poem, revealed_lines: usize) -> (r: Vec<(String, PoemLineKind)>)
    ensures
        r@.len() == 3 + poem.lines@.len(),
        r@[0].0@ == poem.title@ && r@[0].1 == PoemLineKind::Title,
        r@[1].1 == PoemLineKind::Author,
        poem.author@.len() == 0 ==> r@[1].0@ == Seq::<char>::empty(),
        poem.author@.len() > 0 ==> r@[1].0@ == "— "@ + poem.author@,
        r@[2].0@ == Seq::<char>::empty() && r@[2].1 == PoemLineKind::Blank,
        forall|i: int|
            0 <= i < poem.lines@.len() ==> #[trigger] r@[3 + i].1 == (if i < revealed_lines {
                PoemLineKind::Body
            } else {
                PoemLineKind::Hidden
            }),
        forall|i: int|
            0 <= i < poem.lines@.len() && i < revealed_lines ==> (#[trigger] r@[3 + i]).0@
                == poem.lines@[i]@,
        forall|i: int|
            0 <= i < poem.lines@.len() && i >= revealed_lines ==> (#[trigger] r@[3 + i]).0@
                == Seq::<char>::empty(),
{
    let mut out: Vec<(String, PoemLineKind)> = Vec::new();
    out.push((poem.title.clone(), PoemLineKind::Title));
    if poem.author.as_str().is_empty() {
        out.push((String::new(), PoemLineKind::Author));
    } else {
        let mut a: String = String::from_str("— ");
        a.append(poem.author.as_str());
        out.push((a, PoemLineKind::Author));
    }
    out.push((String::new(), PoemLineKind::Blank));
    let n: usize = poem.lines.len();
    let mut i: usize = 0;
    while i < n
        invariant
            i <= n,
            n == poem.lines@.len(),
            out@.len() == 3 + i,
            out@[0].0@ == poem.title@ && out@[0].1 == PoemLineKind::Title,
            out@[1].1 == PoemLineKind::Author,
            poem.author@.len() == 0 ==> out@[1].0@ == Seq::<char>::empty(),
            poem.author@.len() > 0 ==> out@[1].0@ == "— "@ + poem.author@,
            out@[2].0@ == Seq::<char>::empty() && out@[2].1 == PoemLineKind::Blank,
            forall|j: int|
                0 <= j < i as int ==> #[trigger] out@[3 + j].1 == (if j < revealed_lines {
                    PoemLineKind::Body
                } else {
                    PoemLineKind::Hidden
                }),
            forall|j: int|
                0 <= j < i as int && j < revealed_lines ==> (#[trigger] out@[3 + j]).0@
                    == poem.lines@[j]@,
            forall|j: int|
                0 <= j < i as int && j >= revealed_lines ==> (#[trigger] out@[3 + j]).0@
                    == Seq::<char>::empty(),
        decreases n - i,
    {
        if i < revealed_lines {
            out.push((poem.lines[i].clone(), PoemLineKind::Body));
        } else {
            out.push((String::new(), PoemLineKind::Hidden));
        }
        i = i + 1;
    }
    out
}

// ---------------------------------------------------------------------------
// Print layout.
// ---------------------------------------------------------------------------

/// The print width for a given line count: twice the line count (the art
/// is about twice as wide as tall), capped by the terminal width.
pub fn print_width(lines: u16, terminal_width: u16) -> (w: u16)
    ensures
        w == (if 2 * lines <= terminal_width {
            2 * lines as int
        } else {
            terminal_width as int
        }),
{
    if lines <= 32767 && 2 * lines <= terminal_width {
        2 * lines
    } else {
        terminal_width
    }
}

// ---------------------------------------------------------------------------
// Key dispatch: the interactive state machine.
// ---------------------------------------------------------------------------

/// A key press, reduced to what the view reacts to.
#[derive(Clone, Copy, Debug, PartialEq, Eq, Structural)]
pub enum KeyInput {
    Letter(char),
    LeftArrow,
    RightArrow,
    Escape,
    Other,
}

/// The toggles of the interactive view.
#[derive(Clone, Copy, Debug, PartialEq, Eq, Structural)]
pub struct ViewState {
    pub show_labels: bool,
    pub show_info: bool,
    pub show_poem: bool,
    pub hide_dark: bool,
    pub follow_now: bool,
    pub language: Language,
}

/// What the caller must do after a key press.
#[derive(Clone, Copy, Debug, PartialEq, Eq, Structural)]
pub struct KeyEffects {
    pub quit: bool,
    /// Pick a fresh poem and restart its reveal animation.
    pub pick_poem: bool,
    /// Shift the displayed date by this many days.
    pub day_delta: i8,
    /// Jump back to the current time.
    pub jump_to_now: bool,
    pub redraw: bool,
}

pub open spec fn no_effects() -> KeyEffects {
    KeyEffects { quit: false, pick_poem: false, day_delta: 0, jump_to_now: false, redraw: false }
}

/// The transition of the view state under one key press.
pub open spec fn spec_handle_key(s: ViewState, k: KeyInput) -> (ViewState, KeyEffects) {
    match k {
        KeyInput::Escape => (s, KeyEffects { quit: true, ..no_effects() }),
        KeyInput::LeftArrow => (
            ViewState { follow_now: false, ..s },
            KeyEffects { day_delta: -1i8, redraw: true, ..no_effects() },
        ),
        KeyInput::RightArrow => (
            ViewState { follow_now: false, ..s },
            KeyEffects { day_delta: 1i8, redraw: true, ..no_effects() },
        ),
        KeyInput::Letter(c) => {
            if c == 'q' {
                (s, KeyEffects { quit: true, ..no_effects() })
            } else if c == 'l' {
                (
                    ViewState { show_labels: !s.show_labels, ..s },
                    KeyEffects { redraw: true, ..no_effects() },
                )
            } else if c == 'L' {
                (
                    ViewState { language: spec_next_language(s.language), ..s },
                    KeyEffects { pick_poem: s.show_poem, redraw: true, ..no_effects() },
                )
            } else if c == 'i' {
                (
                    ViewState { show_info: !s.show_info, ..s },
                    KeyEffects { redraw: true, ..no_effects() },
                )
            } else if c == 'd' {
                (
                    ViewState { hide_dark: !s.hide_dark, ..s },
                    KeyEffects { redraw: true, ..no_effects() },
                )
            } else if c == 'p' {
                (
                    ViewState { show_poem: !s.show_poem, ..s },
                    KeyEffects { pick_poem: !s.show_poem, redraw: true, ..no_effects() },
                )
            } else if c == 'P' {
                (s, KeyEffects { pick_poem: s.show_poem, redraw: s.show_poem, ..no_effects() })
            } else if c == 'n' {
                (
                    ViewState { follow_now: true, ..s },
                    KeyEffects { jump_to_now: true, redraw: true, ..no_effects() },
                )
            } else {
                (s, no_effects())
            }
        },
        KeyInput::Other => (s, no_effects()),
    }
}

/// Apply one key press to the view state and say what the caller must do.
pub fn handle_key(state: &mut ViewState, k: KeyInput) -> (e: KeyEffects)
    ensures
        (*final(state), e) == spec_handle_key(*old(state), k),
{
    match k {
        KeyInput::Escape => KeyEffects {
            quit: true,
            pick_poem: false,
            day_delta: 0,
            jump_to_now: false,
            redraw: false,
        },
        KeyInput::LeftArrow => {
            state.follow_now = false;
            KeyEffects { quit: false, pick_poem: false, day_delta: -1, jump_to_now: false, redraw: true }
        },
        KeyInput::RightArrow => {
            state.follow_now = false;
            KeyEffects { quit: false, pick_poem: false, day_delta: 1, jump_to_now: false, redraw: true }
        },
        KeyInput::Letter(c) => {
            if c == 'q' {
                KeyEffects { quit: true, pick_poem: false, day_delta: 0, jump_to_now: false, redraw: false }
            } else if c == 'l' {
                state.show_labels = !state.show_labels;
                KeyEffects { quit: false, pick_poem: false, day_delta: 0, jump_to_now: false, redraw: true }
            } else if c == 'L' {
                state.language = state.language.next();
                KeyEffects {
                    quit: false,
                    pick_poem: state.show_poem,
                    day_delta: 0,
                    jump_to_now: false,
                    redraw: true,
                }
            } else if c == 'i' {
                state.show_info = !state.show_info;
                KeyEffects { quit: false, pick_poem: false, day_delta: 0, jump_to_now: false, redraw: true }
            } else if c == 'd' {
                state.hide_dark = !state.hide_dark;
                KeyEffects { quit: false, pick_poem: false, day_delta: 0, jump_to_now: false, redraw: true }
            } else if c == 'p' {
                state.show_poem = !state.show_poem;
                KeyEffects {
                    quit: false,
                    pick_poem: state.show_poem,
                    day_delta: 0,
                    jump_to_now: false,
                    redraw: true,
                }
            } else if c == 'P' {
                KeyEffects {
                    quit: false,
                    pick_poem: state.show_poem,
                    day_delta: 0,
                    jump_to_now: false,
                    redraw: state.show_poem,
                }
            } else if c == 'n' {
                state.follow_now = true;
                KeyEffects { quit: false, pick_poem: false, day_delta: 0, jump_to_now: true, redraw: true }
            } else {
                KeyEffects { quit: false, pick_poem: false, day_delta: 0, jump_to_now: false, redraw: false }
            }
        },
        KeyInput::Other => KeyEffects {
            quit: false,
            pick_poem: false,
            day_delta: 0,
            jump_to_now: false,
            redraw: false,
        },
    }
}

} // verus!
