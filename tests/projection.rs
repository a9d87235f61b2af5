use trigplot::fixed::{cosine, sine, HALF_PI_MICRO, MICRO, PI_MICRO};
use trigplot::functions::{Function, Sample};
use trigplot::plot::{project, project_series, Bounds, PlotCell, PlotWidget, Viewport};

fn window() -> Bounds {
    Bounds { x_min: -10 * MICRO, x_max: 10 * MICRO, y_min: -10 * MICRO, y_max: 10 * MICRO }
}

#[test]
fn corners_project_to_grid_corners() {
    let vp = Viewport { width: 80, height: 24 };
    let b = window();
    assert_eq!(project(b.x_min, b.y_max, &vp, &b), PlotCell { col: 0, row: 0 });
    assert_eq!(project(b.x_max, b.y_min, &vp, &b), PlotCell { col: 80, row: 24 });
}

#[test]
fn centre_projects_to_middle() {
    let vp = Viewport { width: 80, height: 24 };
    assert_eq!(project(0, 0, &vp, &window()), PlotCell { col: 40, row: 12 });
}

#[test]
fn rounding_halves_away_from_zero() {
    let vp = Viewport { width: 4, height: 4 };
    let b = Bounds { x_min: 0, x_max: 10 * MICRO, y_min: 0, y_max: 10 * MICRO };
    // 1.25 / 10 * 4 = 0.5
    assert_eq!(project(1_250_000, 10 * MICRO, &vp, &b).col, 1);
    assert_eq!(project(-1_250_000, 10 * MICRO, &vp, &b).col, -1);
    // 1.0 / 10 * 4 = 0.4
    assert_eq!(project(1_000_000, 10 * MICRO, &vp, &b).col, 0);
    // (10 - 8.6) / 10 * 4 = 0.56
    assert_eq!(project(0, 8_600_000, &vp, &b).row, 1);
}

#[test]
fn out_of_bounds_points_are_dropped() {
    let vp = Viewport { width: 80, height: 24 };
    let points = vec![
        Sample { x: 0, y: Some(0) },
        Sample { x: 1000 * MICRO, y: Some(0) },
        Sample { x: -5 * MICRO, y: Some(5 * MICRO) },
        Sample { x: 0, y: None },
        Sample { x: 10 * MICRO, y: Some(0) },
        Sample { x: 0, y: Some(-20 * MICRO) },
    ];
    let cells = project_series(&points, &vp, &window());
    assert_eq!(cells, vec![PlotCell { col: 40, row: 12 }, PlotCell { col: 20, row: 6 }]);
}

#[test]
fn series_length_matches_in_bounds_count() {
    let vp = Viewport { width: 40, height: 20 };
    let data = Function::generate_tangent_wave(10, 10);
    let b = window();
    let cells = project_series(&data, &vp, &b);
    let expected = data
        .iter()
        .filter(|s| match s.y {
            Some(y) => {
                let c = project(s.x, y, &vp, &b);
                c.col >= 0 && c.col < 40 && c.row >= 0 && c.row < 20
            }
            None => false,
        })
        .count();
    assert_eq!(cells.len(), expected);
    assert!(cells.len() < data.len());
    for c in cells.iter() {
        assert!(c.col >= 0 && c.col < 40 && c.row >= 0 && c.row < 20);
    }
}

#[test]
fn widget_uses_display_window() {
    let data = vec![Sample { x: -10 * MICRO, y: Some(10 * MICRO) }, Sample { x: 0, y: Some(0) }];
    let widget = PlotWidget::new(data);
    assert_eq!(widget.bounds, window());
    let cells = widget.plot_cells(&Viewport { width: 10, height: 10 });
    assert_eq!(cells, vec![PlotCell { col: 0, row: 0 }, PlotCell { col: 5, row: 5 }]);
}

#[test]
fn empty_series_projects_to_nothing() {
    let cells = project_series(&Vec::new(), &Viewport { width: 10, height: 10 }, &window());
    assert!(cells.is_empty());
}

#[test]
fn fixed_point_trig_values() {
    assert_eq!(sine(0), 0);
    assert_eq!(sine(HALF_PI_MICRO), MICRO);
    assert_eq!(cosine(0), MICRO);
    assert_eq!(cosine(HALF_PI_MICRO), 0);
    assert_eq!(sine(-HALF_PI_MICRO), -MICRO);
    assert_eq!(sine(PI_MICRO), 0);
    assert_eq!(sine(-1_000_000), -sine(1_000_000));
    // sin(1) = 0.841471
    assert!((sine(1_000_000) - 841_471).abs() <= 10);
    // cos(2) = -0.416147
    assert!((cosine(2_000_000) + 416_147).abs() <= 10);
    // sin(100) = -0.506366
    assert!((sine(100_000_000) + 506_366).abs() <= 100);
}
