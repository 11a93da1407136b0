use moontui::labels::{lunar_features, Feature};
use moontui::lang::Language;
use moontui::raster::{
    crop_box, fit_geometry, render, CellColor, ColorMode, Grid, RenderRequest,
};
use moontui::texture::{moon_texture, texture_from_bytes, Texture};

fn request(w: u16, h: u16, ppm: u64) -> RenderRequest {
    RenderRequest {
        width: w,
        height: h,
        phase_ppm: ppm,
        show_labels: false,
        hide_dark: false,
        language: Language::English,
        color_mode: ColorMode::TrueColor,
    }
}

fn written_cells(g: &Grid) -> usize {
    g.iter().map(|row| row.iter().filter(|c| c.is_some()).count()).sum()
}

#[test]
fn moon_texture_has_expected_shape() {
    let tex = moon_texture();
    assert_eq!(tex.rows.len(), 79);
    let c = crop_box(&tex).unwrap();
    assert_eq!((c.min_x, c.max_x, c.min_y, c.max_y), (4, 203, 0, 78));
}

#[test]
fn crop_box_of_blank_texture_is_none() {
    let tex = texture_from_bytes(&b"   \n  \n".to_vec());
    assert!(crop_box(&tex).is_none());
}

#[test]
fn grid_never_exceeds_requested_dimensions() {
    let tex = moon_texture();
    let feats = lunar_features();
    for &(w, h) in &[(1u16, 1u16), (10, 5), (40, 20), (7, 31)] {
        let g = render(&request(w, h, 250000), &tex, &feats);
        assert_eq!(g.len(), h as usize);
        for row in &g {
            assert_eq!(row.len(), w as usize);
        }
    }
}

#[test]
fn zero_area_or_blank_texture_renders_empty() {
    let tex = moon_texture();
    let feats = lunar_features();
    assert_eq!(render(&request(0, 20, 0), &tex, &feats).len(), 0);
    assert_eq!(render(&request(20, 0, 0), &tex, &feats).len(), 0);
    let blank = texture_from_bytes(&b" \n \n".to_vec());
    assert_eq!(render(&request(20, 20, 0), &blank, &feats).len(), 0);
}

#[test]
fn written_cells_stay_inside_unit_circle_mask() {
    let tex = moon_texture();
    let feats = lunar_features();
    let (w, h) = (41u16, 21u16);
    let g = render(&request(w, h, 330000), &tex, &feats);
    let geom = fit_geometry(200, 79, w as u64, h as u64);
    for (y, row) in g.iter().enumerate() {
        for (x, cell) in row.iter().enumerate() {
            if cell.is_some() {
                let xi = x as i64 * 1000000 - geom.start_x_u;
                let yi = y as i64 * 1000000 - geom.start_y_u;
                assert!(xi >= 0 && yi >= 0);
                let nx = (xi as u64 * 1000000 / geom.draw_w_u as u64) as i64;
                let ny = (yi as u64 * 1000000 / geom.draw_h_u as u64) as i64;
                let dx = nx - 500000;
                let dy = ny - 500000;
                assert!(
                    dx * dx + dy * dy <= 250000000000,
                    "cell ({}, {}) outside the disc",
                    x,
                    y
                );
            }
        }
    }
}

#[test]
fn hide_dark_removes_exactly_the_shadowed_cells() {
    let tex = moon_texture();
    let feats = lunar_features();
    let shown = request(40, 20, 250000);
    let mut hidden = shown;
    hidden.hide_dark = true;
    let g_shown = render(&shown, &tex, &feats);
    let g_hidden = render(&hidden, &tex, &feats);
    let mut saw_shadow = false;
    let mut saw_lit = false;
    for y in 0..20usize {
        for x in 0..40usize {
            match (&g_shown[y][x], &g_hidden[y][x]) {
                (Some(a), Some(b)) => {
                    // a lit cell: same in both renders, in the lit color
                    assert_eq!(a, b);
                    assert_eq!(a.fg, CellColor::Rgb(235, 190, 100));
                    saw_lit = true;
                }
                (Some(a), None) => {
                    // a shadow cell: shown only without hide_dark, in gray
                    assert_eq!(a.fg, CellColor::Rgb(110, 110, 110));
                    saw_shadow = true;
                }
                (None, Some(_)) => panic!("hide_dark added a cell at ({}, {})", x, y),
                (None, None) => {}
            }
        }
    }
    assert!(saw_lit, "no lit cells at quarter phase");
    assert!(saw_shadow, "no shadow cells at quarter phase");
}

#[test]
fn shading_does_not_vary_with_color_mode() {
    let tex = moon_texture();
    let feats = lunar_features();
    let mut a = request(30, 15, 700000);
    a.show_labels = true;
    let mut b = a;
    b.color_mode = ColorMode::Indexed;
    let ga = render(&a, &tex, &feats);
    let gb = render(&b, &tex, &feats);
    for y in 0..15usize {
        for x in 0..30usize {
            match (&ga[y][x], &gb[y][x]) {
                (Some(ca), Some(cb)) => assert_eq!(ca.ch, cb.ch),
                (None, None) => {}
                _ => panic!("cell presence differs with color mode at ({}, {})", x, y),
            }
        }
    }
}

#[test]
fn rendering_twice_gives_identical_grids() {
    let tex = moon_texture();
    let feats = lunar_features();
    let mut req = request(40, 20, 123456);
    req.show_labels = true;
    req.language = Language::Japanese;
    let g1 = render(&req, &tex, &feats);
    let g2 = render(&req, &tex, &feats);
    assert_eq!(g1, g2);
}

#[test]
fn aspect_ratio_is_preserved_by_the_fit() {
    for &(cw, ch, aw, ah) in &[
        (200u64, 79u64, 40u64, 20u64),
        (200, 79, 20, 40),
        (3, 11, 100, 7),
        (1, 1, 65535, 1),
        (137, 51, 64, 64),
    ] {
        let g = fit_geometry(cw, ch, aw, ah);
        let dw = g.draw_w_u as i128;
        let dh = g.draw_h_u as i128;
        if (aw * ch) < (cw * ah) {
            let diff = dw * ch as i128 - dh * cw as i128;
            assert!(0 <= diff && diff < cw as i128, "aspect off for {:?}", (cw, ch, aw, ah));
        } else {
            let diff = dh * cw as i128 - dw * ch as i128;
            assert!(0 <= diff && diff < ch as i128, "aspect off for {:?}", (cw, ch, aw, ah));
        }
        assert!(dw <= aw as i128 * 1000000 && dh <= ah as i128 * 1000000);
    }
}

#[test]
fn labels_appear_when_requested() {
    let tex = moon_texture();
    let feats = lunar_features();
    let mut req = request(120, 40, 500000);
    let plain = render(&req, &tex, &feats);
    req.show_labels = true;
    let labeled = render(&req, &tex, &feats);
    assert_ne!(plain, labeled, "labels changed nothing");
    let mut markers = 0usize;
    for row in &labeled {
        for cell in row.iter().flatten() {
            if cell.ch == 'x' && cell.fg == CellColor::Rgb(220, 70, 70) {
                markers += 1;
            }
        }
    }
    assert!(markers >= 5, "expected several feature markers, saw {}", markers);
}

#[test]
fn wide_label_is_skipped_by_its_display_width() {
    // A 2x2 square texture drawn in a 12x12 area puts a feature at
    // latitude and longitude zero on cell (5, 6), so its text would start
    // at column 6.  The three ideographs are six columns wide: 6 + 6 is
    // not short of 12, so the text must be skipped even though its three
    // characters alone would fit.
    let tex = texture_from_bytes(&b"##\n##\n".to_vec());
    let feature = Feature {
        name_en: "\u{6708}\u{6708}\u{6708}",
        name_zh: "\u{6708}\u{6708}\u{6708}",
        name_fr: "\u{6708}\u{6708}\u{6708}",
        name_ja: "\u{6708}\u{6708}\u{6708}",
        name_es: "\u{6708}\u{6708}\u{6708}",
        lat_mdeg: 0,
        lon_mdeg: 0,
    };
    let feats = vec![feature];
    let mut req = request(12, 12, 500000);
    req.show_labels = true;
    let g = render(&req, &tex, &feats);
    assert_eq!(g[6][5].as_ref().map(|c| c.ch), Some('x'), "marker missing");
    for row in &g {
        for cell in row.iter().flatten() {
            assert_ne!(cell.ch, '\u{6708}', "overflowing label text was written");
        }
    }
    // In a wider area the same label fits and is written.
    let mut wide = request(24, 24, 500000);
    wide.show_labels = true;
    let g2 = render(&wide, &tex, &feats);
    let mut found = false;
    for row in &g2 {
        for cell in row.iter().flatten() {
            if cell.ch == '\u{6708}' {
                found = true;
            }
        }
    }
    assert!(found, "label text missing in the wide area");
}

#[test]
fn sampled_characters_come_from_the_texture() {
    let tex = texture_from_bytes(&b"AB\nCD\n".to_vec());
    let feats: Vec<Feature> = Vec::new();
    let g = render(&request(8, 8, 500000), &tex, &feats);
    assert!(written_cells(&g) > 0);
    for row in &g {
        for cell in row.iter().flatten() {
            assert!(
                cell.ch == 'A' || cell.ch == 'B' || cell.ch == 'C' || cell.ch == 'D',
                "unexpected character {:?}",
                cell.ch
            );
        }
    }
}

#[test]
fn feature_table_has_ten_localized_landmarks() {
    let feats = lunar_features();
    assert_eq!(feats.len(), 10);
    assert_eq!(feats[0].name_en, "Oceanus Procellarum");
    assert_eq!(feats[0].name_zh, "\u{98ce}\u{66b4}\u{6d0b}");
    assert_eq!((feats[0].lat_mdeg, feats[0].lon_mdeg), (18400, -57400));
    assert_eq!(feats[5].name_en, "Tycho");
    assert_eq!((feats[5].lat_mdeg, feats[5].lon_mdeg), (-43300, -11200));
    assert_eq!(feats[9].name_fr, "Platon");
}
