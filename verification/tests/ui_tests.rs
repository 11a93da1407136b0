use moontui::lang::Language;
use moontui::poems::Poem;
use moontui::raster::CellColor;
use moontui::ui::{
    handle_key, lcg_next_u32, poem_display_lines, print_width, soft_palette, twinkle_points,
    KeyInput, PoemLineKind, ViewState,
};

fn fresh_state() -> ViewState {
    ViewState {
        show_labels: false,
        show_info: true,
        show_poem: false,
        hide_dark: false,
        follow_now: true,
        language: Language::English,
    }
}

#[test]
fn language_cycle_returns_after_five_steps() {
    let mut l = Language::English;
    for _ in 0..5 {
        l = l.next();
    }
    assert_eq!(l, Language::English);
    assert_eq!(Language::English.next(), Language::Chinese);
    assert_eq!(Language::Spanish.next(), Language::English);
    assert_eq!(Language::Chinese.name(), "中文");
}

#[test]
fn lcg_is_deterministic() {
    let mut s1 = 42u64;
    let mut s2 = 42u64;
    for _ in 0..10 {
        assert_eq!(lcg_next_u32(&mut s1), lcg_next_u32(&mut s2));
    }
    assert_eq!(s1, s2);
}

#[test]
fn soft_palette_cycles_three_steps() {
    let (t0, b0, d0) = soft_palette(0);
    assert_eq!(t0, CellColor::Rgb(245, 223, 235));
    assert_eq!(b0, CellColor::Rgb(206, 204, 235));
    assert_eq!(d0, CellColor::Rgb(170, 180, 210));
    assert_eq!(soft_palette(11), soft_palette(0));
    assert_eq!(soft_palette(12).0, CellColor::Rgb(240, 232, 250));
    assert_eq!(soft_palette(24).0, CellColor::Rgb(250, 240, 235));
    assert_eq!(soft_palette(36), soft_palette(0));
}

#[test]
fn twinkles_stay_inside_and_repeat() {
    for seed in [0u64, 7, 123456789] {
        for glow in [0u64, 5, 99] {
            let pts = twinkle_points(seed, glow, 30, 10);
            assert_eq!(pts, twinkle_points(seed, glow, 30, 10));
            assert!(pts.len() <= 4);
            for &(x, y, ch) in &pts {
                assert!(x > 0 && x + 1 < 30);
                assert!(y > 0 && y + 1 < 10);
                assert!(ch == '·' || ch == '⋅' || ch == '.' || ch == '˙');
            }
        }
    }
    assert!(twinkle_points(5, 5, 3, 40).is_empty());
    assert!(twinkle_points(5, 5, 40, 3).is_empty());
}

#[test]
fn poem_lines_reveal_gradually() {
    let poem = Poem {
        title: "T".to_string(),
        author: "A".to_string(),
        lines: vec!["one".to_string(), "two".to_string(), "three".to_string()],
    };
    let shown = poem_display_lines(&poem, 2);
    assert_eq!(shown.len(), 6);
    assert_eq!(shown[0].0, "T");
    assert_eq!(shown[0].1, PoemLineKind::Title);
    assert_eq!(shown[1].0, "— A");
    assert_eq!(shown[1].1, PoemLineKind::Author);
    assert_eq!(shown[2].0, "");
    assert_eq!(shown[2].1, PoemLineKind::Blank);
    assert_eq!(shown[3], ("one".to_string(), PoemLineKind::Body));
    assert_eq!(shown[4], ("two".to_string(), PoemLineKind::Body));
    assert_eq!(shown[5], ("".to_string(), PoemLineKind::Hidden));

    let anon = Poem { title: "T".to_string(), author: "".to_string(), lines: vec!["x".to_string()] };
    let lines = poem_display_lines(&anon, 0);
    assert_eq!(lines[1].0, "");
}

#[test]
fn print_width_is_twice_the_lines_capped() {
    assert_eq!(print_width(20, 100), 40);
    assert_eq!(print_width(60, 100), 100);
    assert_eq!(print_width(0, 100), 0);
    assert_eq!(print_width(40000, 65535), 65535);
}

#[test]
fn key_dispatch_follows_the_bindings() {
    let mut s = fresh_state();
    let e = handle_key(&mut s, KeyInput::Letter('q'));
    assert!(e.quit);
    let e = handle_key(&mut s, KeyInput::Escape);
    assert!(e.quit);

    let mut s = fresh_state();
    let e = handle_key(&mut s, KeyInput::Letter('l'));
    assert!(s.show_labels && e.redraw && !e.quit);

    let mut s = fresh_state();
    let e = handle_key(&mut s, KeyInput::Letter('d'));
    assert!(s.hide_dark && e.redraw);

    let mut s = fresh_state();
    let e = handle_key(&mut s, KeyInput::Letter('i'));
    assert!(!s.show_info && e.redraw);

    // cycling the language only refreshes the poem while one is shown
    let mut s = fresh_state();
    let e = handle_key(&mut s, KeyInput::Letter('L'));
    assert_eq!(s.language, Language::Chinese);
    assert!(!e.pick_poem);
    s.show_poem = true;
    let e = handle_key(&mut s, KeyInput::Letter('L'));
    assert_eq!(s.language, Language::French);
    assert!(e.pick_poem);

    // opening the poem pane picks a poem; closing it does not
    let mut s = fresh_state();
    let e = handle_key(&mut s, KeyInput::Letter('p'));
    assert!(s.show_poem && e.pick_poem && e.redraw);
    let e = handle_key(&mut s, KeyInput::Letter('p'));
    assert!(!s.show_poem && !e.pick_poem && e.redraw);

    // 'P' refreshes only while the pane is open
    let mut s = fresh_state();
    let e = handle_key(&mut s, KeyInput::Letter('P'));
    assert!(!e.pick_poem && !e.redraw);
    s.show_poem = true;
    let e = handle_key(&mut s, KeyInput::Letter('P'));
    assert!(e.pick_poem && e.redraw);

    // date stepping leaves follow mode; 'n' returns to it
    let mut s = fresh_state();
    let e = handle_key(&mut s, KeyInput::LeftArrow);
    assert!(!s.follow_now && e.day_delta == -1 && e.redraw);
    let e = handle_key(&mut s, KeyInput::RightArrow);
    assert!(e.day_delta == 1);
    let e = handle_key(&mut s, KeyInput::Letter('n'));
    assert!(s.follow_now && e.jump_to_now && e.redraw);

    // unbound keys do nothing
    let before = s;
    let e = handle_key(&mut s, KeyInput::Letter('z'));
    assert_eq!(s, before);
    assert!(!e.quit && !e.redraw && !e.pick_poem && e.day_delta == 0 && !e.jump_to_now);
    let e = handle_key(&mut s, KeyInput::Other);
    assert!(!e.redraw);
}
