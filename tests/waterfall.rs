use spectrogram::{column_hue, Ratio, Waterfall, WaterfallOp};

fn cells(ops: &[WaterfallOp]) -> Vec<WaterfallOp> {
    ops.iter()
        .copied()
        .filter(|op| matches!(op, WaterfallOp::FillCell { .. }))
        .collect()
}

#[test]
fn hue_runs_from_blue_to_red() {
    assert_eq!(column_hue(0), Ratio::new(240 * 255, 255));
    assert_eq!(column_hue(255), Ratio::new(0, 255));
    assert_eq!(column_hue(128), Ratio::new(240 * 127, 255));
}

#[test]
fn first_frame_draws_next_to_the_keyboard() {
    let mut w = Waterfall::new(40);
    assert_eq!(w.cursor_x(), 0);
    assert_eq!(w.piano_roll_width(), 40);
    let ops = w.draw_frame(&vec![255, 255, 255, 255], 256, 100);
    let red = Ratio::new(0, 255);
    let expected = vec![
        WaterfallOp::ClearPianoRoll,
        WaterfallOp::DrawPianoRoll,
        WaterfallOp::ClearColumn { x: 40 },
        WaterfallOp::FillCell { x: 40, y: Ratio::new(0, 4), height: Ratio::new(100, 4), hue: red },
        WaterfallOp::FillCell { x: 40, y: Ratio::new(100, 4), height: Ratio::new(100, 4), hue: red },
        WaterfallOp::FillCell { x: 40, y: Ratio::new(200, 4), height: Ratio::new(100, 4), hue: red },
        WaterfallOp::FillCell { x: 40, y: Ratio::new(300, 4), height: Ratio::new(100, 4), hue: red },
    ];
    assert_eq!(ops, expected);
    assert_eq!(w.cursor_x(), 41);
}

#[test]
fn lowest_bin_is_drawn_at_the_bottom() {
    let mut w = Waterfall::new(40);
    let ops = w.draw_frame(&vec![0, 255, 128, 64], 256, 100);
    let c = cells(&ops);
    assert_eq!(c.len(), 4);
    assert_eq!(
        c[3],
        WaterfallOp::FillCell { x: 40, y: Ratio::new(300, 4), height: Ratio::new(100, 4), hue: Ratio::new(240 * 255, 255) }
    );
    assert_eq!(
        c[2],
        WaterfallOp::FillCell { x: 40, y: Ratio::new(200, 4), height: Ratio::new(100, 4), hue: Ratio::new(0, 255) }
    );
    assert_eq!(
        c[0],
        WaterfallOp::FillCell { x: 40, y: Ratio::new(0, 4), height: Ratio::new(100, 4), hue: column_hue(64) }
    );
}

#[test]
fn cursor_wraps_after_filling_the_canvas() {
    let mut w = Waterfall::new(40);
    let frame: Vec<u8> = vec![10, 20, 30];
    let first = w.draw_frame(&frame, 256, 100);
    assert!(!first.contains(&WaterfallOp::ClearCanvas));
    assert_eq!(w.cursor_x(), 41);
    for k in 1..216u64 {
        let ops = w.draw_frame(&frame, 256, 100);
        assert!(!ops.contains(&WaterfallOp::ClearCanvas));
        assert_eq!(ops[2], WaterfallOp::ClearColumn { x: 40 + k });
    }
    assert_eq!(w.cursor_x(), 256);
    let ops = w.draw_frame(&frame, 256, 100);
    assert_eq!(
        ops[..5].to_vec(),
        vec![
            WaterfallOp::ClearPianoRoll,
            WaterfallOp::DrawPianoRoll,
            WaterfallOp::ClearCanvas,
            WaterfallOp::DrawPianoRoll,
            WaterfallOp::ClearColumn { x: 40 },
        ]
    );
    assert_eq!(cells(&ops).len(), 3);
    assert_eq!(w.cursor_x(), 41);
}

#[test]
fn narrowed_canvas_wraps_at_once() {
    let mut w = Waterfall::new(40);
    for _ in 0..10 {
        w.draw_frame(&vec![0], 256, 100);
    }
    assert_eq!(w.cursor_x(), 50);
    let ops = w.draw_frame(&vec![0], 45, 100);
    assert!(ops.contains(&WaterfallOp::ClearCanvas));
    assert_eq!(w.cursor_x(), 41);
}

#[test]
fn empty_frame_draws_no_cells() {
    let mut w = Waterfall::new(40);
    let ops = w.draw_frame(&vec![], 256, 100);
    assert_eq!(
        ops,
        vec![WaterfallOp::ClearPianoRoll, WaterfallOp::DrawPianoRoll, WaterfallOp::ClearColumn { x: 40 }]
    );
}
