use reda_lef::{LefSpacingTable, LefStepPattern};

/// A decimal quantity in thousandths.
fn fx(v: f64) -> i64 {
    (v * 1000.0).round() as i64
}

fn table() -> LefSpacingTable {
    LefSpacingTable {
        widths: vec![fx(0.1), fx(0.2)],
        parallel_run_lengths: vec![fx(0.3), fx(0.6)],
        spacings: vec![vec![fx(10.0), fx(12.0)], vec![fx(14.0), fx(16.0)]],
    }
}

#[test]
fn step_pattern_offsets_in_order() {
    let pattern = LefStepPattern { num_x: 3, num_y: 2, space_x: fx(1.0), space_y: fx(0.5) };
    let offsets = pattern.each_offset();
    let expected: Vec<(f64, f64)> =
        vec![(0.0, 0.0), (0.0, 0.5), (1.0, 0.0), (1.0, 0.5), (2.0, 0.0), (2.0, 0.5)];
    assert_eq!(offsets.len(), 6);
    let expected: Vec<(i128, i128)> =
        expected.iter().map(|(x, y)| (fx(*x) as i128, fx(*y) as i128)).collect();
    assert_eq!(offsets, expected);
    assert_eq!(
        offsets,
        vec![(0, 0), (0, 500), (1000, 0), (1000, 500), (2000, 0), (2000, 500)]
    );
}

#[test]
fn step_pattern_is_restartable() {
    let pattern = LefStepPattern { num_x: 2, num_y: 2, space_x: 7, space_y: -3 };
    assert_eq!(pattern.each_offset(), pattern.each_offset());
    assert_eq!(pattern.each_offset(), vec![(0, 0), (0, -3), (7, 0), (7, -3)]);
}

#[test]
fn step_pattern_default() {
    let pattern = LefStepPattern::default();
    assert_eq!(pattern, LefStepPattern { num_x: 1, num_y: 1, space_x: 0, space_y: 0 });
    assert_eq!(pattern.each_offset(), vec![(0, 0)]);
}

#[test]
fn step_pattern_without_repetitions_is_empty() {
    let no_columns = LefStepPattern { num_x: 0, num_y: 4, space_x: 1, space_y: 1 };
    assert_eq!(no_columns.each_offset(), vec![]);
    let no_rows = LefStepPattern { num_x: 4, num_y: 0, space_x: 1, space_y: 1 };
    assert_eq!(no_rows.each_offset(), vec![]);
}

#[test]
fn step_pattern_offset_at() {
    let pattern = LefStepPattern { num_x: 3, num_y: 2, space_x: 1000, space_y: 500 };
    assert_eq!(pattern.offset_at(0, 0), (0, 0));
    assert_eq!(pattern.offset_at(2, 1), (2000, 500));
    let offsets = pattern.each_offset();
    for ix in 0..3u64 {
        for iy in 0..2u64 {
            assert_eq!(offsets[(ix * 2 + iy) as usize], pattern.offset_at(ix, iy));
        }
    }
}

#[test]
fn step_pattern_products_are_exact() {
    let pattern = LefStepPattern { num_x: 1, num_y: 1, space_x: i64::MAX, space_y: i64::MIN };
    assert_eq!(
        pattern.offset_at(u64::MAX, u64::MAX),
        (u64::MAX as i128 * i64::MAX as i128, u64::MAX as i128 * i64::MIN as i128)
    );
}

#[test]
fn spacing_table_floor_lookup() {
    let table = table();
    assert!(table.is_well_formed());
    assert_eq!(table.query(fx(0.15), fx(0.3)), Some(fx(10.0)));
    assert_eq!(table.query(fx(0.25), fx(0.9)), Some(fx(16.0)));
    assert_eq!(table.query(fx(0.05), fx(0.1)), Some(fx(10.0)));
}

#[test]
fn spacing_table_exact_headers() {
    let table = table();
    assert_eq!(table.query(fx(0.1), fx(0.3)), Some(fx(10.0)));
    assert_eq!(table.query(fx(0.1), fx(0.6)), Some(fx(12.0)));
    assert_eq!(table.query(fx(0.2), fx(0.3)), Some(fx(14.0)));
    assert_eq!(table.query(fx(0.2), fx(0.6)), Some(fx(16.0)));
}

#[test]
fn spacing_table_between_and_beyond_headers() {
    let table = table();
    assert_eq!(table.query(fx(0.199), fx(0.599)), Some(fx(10.0)));
    assert_eq!(table.query(fx(0.199), fx(0.6)), Some(fx(12.0)));
    assert_eq!(table.query(fx(0.05), fx(100.0)), Some(fx(12.0)));
    assert_eq!(table.query(fx(100.0), fx(0.0)), Some(fx(14.0)));
    assert_eq!(table.query(i64::MIN, i64::MIN), Some(fx(10.0)));
    assert_eq!(table.query(i64::MAX, i64::MAX), Some(fx(16.0)));
}

#[test]
fn spacing_table_of_three_rows() {
    let table = LefSpacingTable {
        widths: vec![0, 250, 1500],
        parallel_run_lengths: vec![0],
        spacings: vec![vec![60], vec![100], vec![500]],
    };
    assert!(table.is_well_formed());
    assert_eq!(table.query(-1, 0), Some(60));
    assert_eq!(table.query(249, 0), Some(60));
    assert_eq!(table.query(250, 7), Some(100));
    assert_eq!(table.query(1499, 7), Some(100));
    assert_eq!(table.query(1500, 7), Some(500));
}

#[test]
fn spacing_table_without_cells() {
    let table = LefSpacingTable::default();
    assert!(table.is_well_formed());
    assert_eq!(table.query(1, 1), None);
    let no_columns =
        LefSpacingTable { widths: vec![1], parallel_run_lengths: vec![], spacings: vec![vec![]] };
    assert!(no_columns.is_well_formed());
    assert_eq!(no_columns.query(1, 1), None);
}

#[test]
fn spacing_table_well_formedness() {
    let mut descending = table();
    descending.widths = vec![fx(0.2), fx(0.1)];
    assert!(!descending.is_well_formed());
    let mut repeated = table();
    repeated.parallel_run_lengths = vec![fx(0.3), fx(0.3)];
    assert!(!repeated.is_well_formed());
    let mut missing_row = table();
    missing_row.spacings.pop();
    assert!(!missing_row.is_well_formed());
    let mut ragged = table();
    ragged.spacings[1].pop();
    assert!(!ragged.is_well_formed());
}
