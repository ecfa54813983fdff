use rctop::bar::{bar_cells, PartialGlyph};

#[test]
fn quarter_load_at_forty_cells() {
    // 40 * 25% = 10.0 cells: ten solid cells, remainder 0, no shade cell.
    let b = bar_cells(40, 2500);
    assert_eq!(b.full, 10);
    assert_eq!(b.partial, PartialGlyph::Empty);
}

#[test]
fn quarter_load_at_fifty_cells() {
    // 50 * 25% = 12.5 cells: twelve solid cells and the [0.5, 0.75) shade.
    let b = bar_cells(50, 2500);
    assert_eq!(b.full, 12);
    assert_eq!(b.partial, PartialGlyph::Medium);
}

#[test]
fn full_percentage_fills_exactly_the_width() {
    let b = bar_cells(40, 10000);
    assert_eq!(b.full, 40);
    assert_eq!(b.partial, PartialGlyph::Empty);
}

#[test]
fn over_full_percentage_behaves_like_one_hundred() {
    let b = bar_cells(40, 12345);
    assert_eq!(b.full, 40);
    assert_eq!(b.partial, PartialGlyph::Empty);
}

#[test]
fn zero_percentage_draws_nothing() {
    let b = bar_cells(40, 0);
    assert_eq!(b.full, 0);
    assert_eq!(b.partial, PartialGlyph::Empty);
}

#[test]
fn zero_width_draws_nothing() {
    let b = bar_cells(0, 9999);
    assert_eq!(b.full, 0);
    assert_eq!(b.partial, PartialGlyph::Empty);
}

#[test]
fn every_remainder_bucket_is_reachable() {
    // Width 4: each percent step is 0.04 cells.
    // 4 * 30% = 1.20 -> remainder 0.20, below a quarter.
    assert_eq!(bar_cells(4, 3000).partial, PartialGlyph::Empty);
    // 4 * 35% = 1.40 -> remainder 0.40, light shade.
    assert_eq!(bar_cells(4, 3500).partial, PartialGlyph::Light);
    // 4 * 65% = 2.60 -> remainder 0.60, medium shade.
    assert_eq!(bar_cells(4, 6500).partial, PartialGlyph::Medium);
    // 4 * 45% = 1.80 -> remainder 0.80, dark shade.
    assert_eq!(bar_cells(4, 4500).partial, PartialGlyph::Dark);
}

#[test]
fn cells_never_exceed_width() {
    for w in [0u16, 1, 2, 3, 7, 40, 50, 81] {
        for pct in [0u32, 1, 12, 2499, 2500, 5000, 7499, 9999, 10000, 20000] {
            let b = bar_cells(w, pct);
            let cells = b.full as u32 + if b.partial == PartialGlyph::Empty { 0 } else { 1 };
            assert!(cells <= w as u32, "width {w} pct {pct} drew {cells}");
        }
    }
}
