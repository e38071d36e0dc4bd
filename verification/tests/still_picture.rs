use nannou::rand::distributions::Uniform;
use nannou::rand::rngs::StdRng;
use nannou::rand::{Rng, SeedableRng};
use schotter::grid::{build_grid, Cell};
use schotter::params::{
    adjust, hue, lower_scale, raise_scale, saturation_luminance, Adjustment, Parameters,
};
use schotter::still::{arc, static_pass, static_transform, transforms_from, Draw, Transform};
use schotter::units::{scaled_quotient, weigh, HALF, LEAST_DRAW, UNIT};

fn sample_parameters(seed: u64) -> Parameters {
    Parameters {
        displacement_scale: 1_000_000,
        rotation_scale: 1_000_000,
        hue_start: 350_000,
        hue_range: 350_000,
        contrast_mode: false,
        dark_mode: true,
        random_seed: seed,
        motion: 100_000,
        velocity_factor: 1_000_000,
    }
}

#[test]
fn grid_is_row_major() {
    let cells = build_grid(2, 3);
    let expected = vec![
        Cell { col: 0, row: 0 },
        Cell { col: 1, row: 0 },
        Cell { col: 2, row: 0 },
        Cell { col: 0, row: 1 },
        Cell { col: 1, row: 1 },
        Cell { col: 2, row: 1 },
    ];
    assert_eq!(cells, expected);
}

#[test]
fn grid_has_every_cell_once() {
    let cells = build_grid(22, 12);
    assert_eq!(cells.len(), 264);
    assert_eq!(cells[0], Cell { col: 0, row: 0 });
    assert_eq!(cells[12], Cell { col: 0, row: 1 });
    assert_eq!(cells[263], Cell { col: 11, row: 21 });
    assert_eq!(build_grid(22, 12), cells);
}

#[test]
fn grid_of_one_cell() {
    assert_eq!(build_grid(1, 1), vec![Cell { col: 0, row: 0 }]);
}

#[test]
fn palette_has_two_pairs() {
    assert_eq!(saturation_luminance(true, true), (800_000, 750_000));
    assert_eq!(saturation_luminance(true, false), (400_000, 400_000));
    assert_eq!(saturation_luminance(false, true), (400_000, 400_000));
    assert_eq!(saturation_luminance(false, false), (800_000, 750_000));
}

#[test]
fn hue_blends_down_the_rows() {
    assert_eq!(hue(350_000, 500_000, 0, 22), 350_000);
    assert_eq!(hue(350_000, 500_000, 11, 22), 600_000);
    assert_eq!(hue(350_000, 500_000, 21, 22), 827_272);
}

#[test]
fn hue_wraps_above_one_turn() {
    assert_eq!(hue(800_000, 500_000, 11, 22), 50_000);
    assert_eq!(hue(999_999, 999_999, 22, 22), 999_998);
}

#[test]
fn hue_of_exactly_one_turn_stays() {
    assert_eq!(hue(500_000, 500_000, 22, 22), 1_000_000);
}

#[test]
fn hue_stays_within_one_turn() {
    let rows: u32 = 22;
    for start in [0u32, 1, 350_000, 500_000, 999_999] {
        for range in [0u32, 1, 350_000, 650_000, 999_999] {
            for row in 0..=rows {
                let h = hue(start, range, row, rows);
                assert!(h <= 1_000_000);
                let blend = start as u64 + (range as u64 * row as u64) / rows as u64;
                if blend != 1_000_000 {
                    assert!(h < 1_000_000);
                }
            }
        }
    }
}

#[test]
fn quotient_is_cut_toward_zero() {
    assert_eq!(scaled_quotient(7, 1, 2), 3);
    assert_eq!(scaled_quotient(-7, 1, 2), -3);
    assert_eq!(scaled_quotient(7, -1, 2), -3);
    assert_eq!(scaled_quotient(-7, -1, 2), 3);
    assert_eq!(scaled_quotient(0, -5, 3), 0);
}

#[test]
fn quotient_is_held_inside_the_range() {
    assert_eq!(scaled_quotient(1 << 64, i64::MAX, 1), i64::MAX);
    assert_eq!(scaled_quotient(1 << 64, i64::MIN, 1), -i64::MAX);
}

#[test]
fn weight_is_the_share_of_the_row() {
    assert_eq!(weigh(250_000, 1_000_000, 1, 2), 125_000);
    assert_eq!(weigh(-250_000, 1_000_000, 1, 2), -125_000);
    assert_eq!(weigh(250_000, 2_000_000, 11, 22), 250_000);
    assert_eq!(weigh(499_999, 1_000_000, 0, 22), 0);
    assert_eq!(weigh(400_000, 1_000_000, 7, 22), 127_272);
}

#[test]
fn negative_scale_flips_the_sign() {
    assert_eq!(weigh(250_000, -1_000_000, 1, 2), -125_000);
    assert_eq!(weigh(-250_000, -1_000_000, 1, 2), 125_000);
    assert_eq!(weigh(HALF, i32::MIN, 5, 5), -1_073_741_824);
}

#[test]
fn arc_spans_a_quarter_turn() {
    assert_eq!(arc(-500_000), -785_398);
    assert_eq!(arc(0), 0);
    assert_eq!(arc(250_000), 392_699);
    assert_eq!(arc(499_999), 785_396);
}

#[test]
fn transform_of_one_cell() {
    let params = sample_parameters(0);
    let draw = Draw { x: 250_000, y: -400_000, turn: 250_000 };
    let t = static_transform(1, 2, &params, draw);
    let expected = Transform {
        offset_x: 125_000,
        offset_y: -200_000,
        rotation: 196_349,
        hue: 525_000,
        saturation: 400_000,
        luminance: 400_000,
    };
    assert_eq!(t, expected);
}

#[test]
fn top_row_does_not_move() {
    let params = sample_parameters(0);
    let draw = Draw { x: -500_000, y: 499_999, turn: -500_000 };
    let t = static_transform(0, 22, &params, draw);
    assert_eq!((t.offset_x, t.offset_y, t.rotation), (0, 0, 0));
    assert_eq!(t.hue, 350_000);
}

#[test]
fn lower_rows_move_more() {
    let params = sample_parameters(0);
    for draw_value in [-500_000i64, -123_457, 0, 1, 77_777, 499_999] {
        let draw = Draw { x: draw_value, y: -draw_value.max(-499_999), turn: 0 };
        let mut last_x: i64 = 0;
        let mut last_y: i64 = 0;
        for row in 0..=22u32 {
            let t = static_transform(row, 22, &params, draw);
            assert!(t.offset_x.abs() >= last_x);
            assert!(t.offset_y.abs() >= last_y);
            last_x = t.offset_x.abs();
            last_y = t.offset_y.abs();
        }
    }
}

#[test]
fn two_passes_with_one_seed_agree() {
    let cells = build_grid(22, 12);
    let params = sample_parameters(4711);
    let first = static_pass(&cells, 22, &params);
    let second = static_pass(&cells, 22, &params);
    assert_eq!(first.len(), 264);
    assert_eq!(first, second);
}

#[test]
fn another_seed_gives_another_picture() {
    let cells = build_grid(22, 12);
    let first = static_pass(&cells, 22, &sample_parameters(1));
    let second = static_pass(&cells, 22, &sample_parameters(2));
    assert_ne!(first, second);
}

#[test]
fn another_scale_keeps_the_draws() {
    let cells = build_grid(4, 4);
    let params = sample_parameters(9);
    let mut doubled = params;
    doubled.displacement_scale = 2_000_000;
    let first = static_pass(&cells, 4, &params);
    let second = static_pass(&cells, 4, &doubled);
    for i in 0..cells.len() {
        assert!((second[i].offset_x - 2 * first[i].offset_x).abs() <= 1);
        assert!((second[i].offset_y - 2 * first[i].offset_y).abs() <= 1);
        assert_eq!(second[i].rotation, first[i].rotation);
    }
}

#[test]
fn pass_takes_the_draws_in_row_major_order() {
    let cells = build_grid(2, 2);
    let params = sample_parameters(0);
    let pass = static_pass(&cells, 2, &params);
    let stream: Vec<i64> = StdRng::seed_from_u64(0)
        .sample_iter(Uniform::new(LEAST_DRAW, HALF))
        .take(12)
        .collect();
    assert_eq!(pass.len(), 4);
    for i in 0..4 {
        let draw = Draw { x: stream[3 * i], y: stream[3 * i + 1], turn: stream[3 * i + 2] };
        assert!(LEAST_DRAW <= draw.x && draw.x < HALF);
        let expected = static_transform(cells[i].row, 2, &params, draw);
        assert_eq!(pass[i], expected);
        let factor = cells[i].row as f64 / 2.0;
        let unit = UNIT as f64;
        let x = factor * 1.0 * (draw.x as f64 / unit);
        let y = factor * 1.0 * (draw.y as f64 / unit);
        let turn = factor * 1.0 * (draw.turn as f64 / unit) * std::f64::consts::FRAC_PI_2;
        let h = 0.35 + factor * 0.35;
        assert!((pass[i].offset_x as f64 / unit - x).abs() < 2e-6);
        assert!((pass[i].offset_y as f64 / unit - y).abs() < 2e-6);
        assert!((pass[i].rotation as f64 / unit - turn).abs() < 3e-6);
        assert!((pass[i].hue as f64 / unit - h).abs() < 2e-6);
    }
    for i in 0..2 {
        assert_eq!((pass[i].offset_x, pass[i].offset_y, pass[i].rotation), (0, 0, 0));
        assert_eq!(pass[i].hue, 350_000);
    }
    for i in 2..4 {
        assert_eq!(pass[i].hue, 525_000);
        assert!(pass[i].offset_x.abs() <= 250_000);
        assert!(pass[i].offset_y.abs() <= 250_000);
        assert!(pass[i].rotation.abs() <= 392_699);
    }
}

#[test]
fn parameters_start_with_the_defaults() {
    let p = Parameters::new(42);
    assert_eq!(p.displacement_scale, 1_000_000);
    assert_eq!(p.rotation_scale, 1_000_000);
    assert_eq!(p.hue_start, 350_000);
    assert_eq!(p.hue_range, 500_000);
    assert!(p.dark_mode);
    assert!(!p.contrast_mode);
    assert_eq!(p.random_seed, 42);
    assert_eq!(p.motion, 100_000);
    assert_eq!(p.velocity_factor, 1_000_000);
}

#[test]
fn scales_move_by_steps_between_zero_and_the_ceiling() {
    assert_eq!(raise_scale(1_000_000), 1_100_000);
    assert_eq!(raise_scale(4_950_000), 5_000_000);
    assert_eq!(raise_scale(4_999_999), 5_000_000);
    assert_eq!(raise_scale(5_000_000), 5_000_000);
    assert_eq!(raise_scale(0), 100_000);
    assert_eq!(lower_scale(1_000_000), 900_000);
    assert_eq!(lower_scale(50_000), 0);
    assert_eq!(lower_scale(1), 0);
    assert_eq!(lower_scale(0), 0);
    assert_eq!(lower_scale(5_000_000), 4_900_000);
}

#[test]
fn scales_outside_the_range_come_back_into_it() {
    assert_eq!(lower_scale(-5), 0);
    assert_eq!(raise_scale(-5), 99_995);
    assert_eq!(raise_scale(-1_000_000), 0);
    assert_eq!(raise_scale(7_000_000), 5_000_000);
    assert_eq!(lower_scale(7_000_000), 5_000_000);
    assert_eq!(raise_scale(i32::MAX), 5_000_000);
    assert_eq!(lower_scale(i32::MIN), 0);
}

#[test]
fn steps_never_leave_the_range() {
    let mut p = Parameters::new(3);
    p.displacement_scale = 50_000;
    p.rotation_scale = 4_950_000;
    let lowered = adjust(p, Adjustment::LowerDisplacement);
    assert_eq!(lowered.displacement_scale, 0);
    let raised = adjust(p, Adjustment::RaiseRotation);
    assert_eq!(raised.rotation_scale, 5_000_000);
    let mut q = p;
    for _ in 0..100 {
        q = adjust(q, Adjustment::RaiseDisplacement);
        q = adjust(q, Adjustment::LowerRotation);
        assert!(0 <= q.displacement_scale && q.displacement_scale <= 5_000_000);
        assert!(0 <= q.rotation_scale && q.rotation_scale <= 5_000_000);
    }
    assert_eq!(q.displacement_scale, 5_000_000);
    assert_eq!(q.rotation_scale, 0);
}

#[test]
fn adjustments_change_one_value() {
    let p = Parameters::new(1);
    let mut expected = p;
    expected.dark_mode = false;
    assert_eq!(adjust(p, Adjustment::ToggleDark), expected);
    let mut expected = p;
    expected.contrast_mode = true;
    assert_eq!(adjust(p, Adjustment::ToggleContrast), expected);
    let mut expected = p;
    expected.displacement_scale = 1_100_000;
    assert_eq!(adjust(p, Adjustment::RaiseDisplacement), expected);
    let mut expected = p;
    expected.displacement_scale = 900_000;
    assert_eq!(adjust(p, Adjustment::LowerDisplacement), expected);
    let mut expected = p;
    expected.rotation_scale = 1_100_000;
    assert_eq!(adjust(p, Adjustment::RaiseRotation), expected);
    let mut expected = p;
    expected.rotation_scale = 900_000;
    assert_eq!(adjust(p, Adjustment::LowerRotation), expected);
    let mut expected = p;
    expected.random_seed = 77;
    assert_eq!(adjust(p, Adjustment::Reseed(77)), expected);
}

#[test]
fn transforms_follow_the_stream() {
    let cells = build_grid(2, 2);
    let params = sample_parameters(0);
    let stream: Vec<i64> = vec![
        100_000, 200_000, 300_000, -100_000, -200_000, -300_000, 250_000, -400_000, 250_000,
        -500_000, 499_999, -500_000,
    ];
    let out = transforms_from(&cells, 2, &params, &stream);
    assert_eq!(out.len(), 4);
    for i in 0..2 {
        assert_eq!((out[i].offset_x, out[i].offset_y, out[i].rotation), (0, 0, 0));
        assert_eq!(out[i].hue, 350_000);
    }
    assert_eq!((out[2].offset_x, out[2].offset_y, out[2].rotation), (125_000, -200_000, 196_349));
    assert_eq!((out[3].offset_x, out[3].offset_y, out[3].rotation), (-250_000, 249_999, -392_699));
    assert_eq!(out[3].hue, 525_000);
    assert_eq!((out[3].saturation, out[3].luminance), (400_000, 400_000));
}

#[test]
fn transforms_of_no_cells() {
    let params = sample_parameters(0);
    let out = transforms_from(&Vec::new(), 2, &params, &Vec::new());
    assert!(out.is_empty());
    assert!(static_pass(&Vec::new(), 2, &params).is_empty());
}
