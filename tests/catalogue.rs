use trigplot::app::{App, CatalogError, Key, MENU_LEN};
use trigplot::functions::{Function, FunctionType, Comparison, Sample, SAMPLE_COUNT, PARAM_CEILING};
use trigplot::fixed::MICRO;

fn close(v: i64, expected: i64, tolerance: i64) -> bool {
    (v - expected).abs() <= tolerance
}

#[test]
fn new_app_defaults() {
    let app = App::new();
    assert!(app.functions.is_empty());
    assert_eq!(app.amplitude, 10);
    assert_eq!(app.frequency, 10);
    assert!(!app.show_menu);
    assert!(app.show_instructions);
    assert_eq!(app.menu_state, Some(0));
    assert_eq!(app.available_functions.len(), MENU_LEN);
    assert_eq!(app.available_functions[0], "sin(x)");
    assert_eq!(app.available_functions[7], "Inequality: x > 0");
}

#[test]
fn add_gives_full_grid_for_every_periodic_variant() {
    let variants = [
        FunctionType::Sine,
        FunctionType::Cosine,
        FunctionType::Tangent,
        FunctionType::Secant,
        FunctionType::Cosecant,
        FunctionType::Cotangent,
    ];
    let mut app = App::new();
    for v in variants.iter() {
        app.add_function("f".to_string(), *v);
        let data = &app.functions.last().unwrap().data;
        assert_eq!(data.len(), SAMPLE_COUNT);
        for (k, s) in data.iter().enumerate() {
            assert_eq!(s.x, (k as i64 - 50) * 200_000);
        }
        assert_eq!(data[0].x, -10 * MICRO);
        assert_eq!(data[100].x, 10 * MICRO);
    }
    assert_eq!(app.functions.len(), 6);
}

#[test]
fn add_parametric_gives_full_turn() {
    let mut app = App::new();
    app.add_function("p".to_string(), FunctionType::Parametric);
    let data = &app.functions[0].data;
    assert_eq!(data.len(), SAMPLE_COUNT);
    assert_eq!(data[0].x, MICRO);
    assert_eq!(data[0].y, Some(0));
    for s in data.iter() {
        let y = s.y.unwrap();
        let r2 = (s.x as i128) * (s.x as i128) + (y as i128) * (y as i128);
        assert!((r2 - 1_000_000_000_000i128).abs() < 20_000_000_000i128);
    }
}

#[test]
fn add_inequality_has_no_samples() {
    let mut app = App::new();
    let ft = FunctionType::Inequality { op: Comparison::Greater, threshold: 0 };
    app.add_function("Inequality: x > 0".to_string(), ft);
    assert_eq!(app.functions.len(), 1);
    assert!(app.functions[0].data.is_empty());
}

#[test]
fn sine_scenario_with_default_parameters() {
    let mut app = App::new();
    app.add_function("sin(x)".to_string(), FunctionType::Sine);
    let data = &app.functions[0].data;
    assert_eq!(data[50], Sample { x: 0, y: Some(0) });
    // grid point nearest pi/2 is x = 1.6
    assert_eq!(data[58].x, 1_600_000);
    assert!(close(data[58].y.unwrap(), MICRO, 1_000));
    app.reset_graph();
    assert_eq!(app.functions.len(), 0);
    assert_eq!(app.amplitude, 10);
    assert_eq!(app.frequency, 10);
}

#[test]
fn cosine_and_tangent_values() {
    let cos = Function::generate_cosine_wave(10, 10);
    assert_eq!(cos[50].y, Some(MICRO));
    let tan = Function::generate_tangent_wave(10, 10);
    assert_eq!(tan[50].y, Some(0));
    // tan(1) = 1.5574
    assert!(close(tan[55].y.unwrap(), 1_557_408, 200));
}

#[test]
fn reciprocal_pole_is_non_finite() {
    let csc = Function::generate_cosecant_wave(10, 10);
    assert_eq!(csc.len(), SAMPLE_COUNT);
    assert_eq!(csc[50].y, None);
    let cot = Function::generate_cotangent_wave(10, 10);
    assert_eq!(cot[50].y, None);
    let sec = Function::generate_secant_wave(10, 10);
    assert_eq!(sec[50].y, Some(MICRO));
    // csc(1) = 1.1884
    assert!(close(csc[55].y.unwrap(), 1_188_395, 200));
}

#[test]
fn amplitude_scales_samples() {
    let mut app = App::new();
    app.add_function("sin(x)".to_string(), FunctionType::Sine);
    app.increase_amplitude();
    assert_eq!(app.amplitude, 11);
    assert_eq!(app.functions[0].data, Function::generate_sine_wave(11, 10));
    // 1.1 * sin(1.6)
    assert!(close(app.functions[0].data[58].y.unwrap(), 1_099_531, 1_000));
}

#[test]
fn frequency_change_resamples_every_entry() {
    let mut app = App::new();
    app.add_function("sin(x)".to_string(), FunctionType::Sine);
    app.add_function("cos(x)".to_string(), FunctionType::Cosine);
    app.increase_frequency();
    app.increase_frequency();
    assert_eq!(app.frequency, 12);
    assert_eq!(app.functions[0].data, Function::generate_sine_wave(10, 12));
    assert_eq!(app.functions[1].data, Function::generate_cosine_wave(10, 12));
    app.decrease_frequency();
    assert_eq!(app.functions[1].data, Function::generate_cosine_wave(10, 11));
}

#[test]
fn regenerate_twice_is_identical() {
    let mut app = App::new();
    app.add_function("tan(x)".to_string(), FunctionType::Tangent);
    app.add_function("p".to_string(), FunctionType::Parametric);
    app.decrease_amplitude();
    app.update_functions();
    let first: Vec<Vec<Sample>> = app.functions.iter().map(|f| f.data.clone()).collect();
    app.update_functions();
    let second: Vec<Vec<Sample>> = app.functions.iter().map(|f| f.data.clone()).collect();
    assert_eq!(first, second);
}

#[test]
fn amplitude_never_drops_below_floor() {
    let mut app = App::new();
    app.add_function("sin(x)".to_string(), FunctionType::Sine);
    for _ in 0..100 {
        app.decrease_amplitude();
    }
    assert_eq!(app.amplitude, 1);
    for _ in 0..100 {
        app.decrease_frequency();
    }
    assert_eq!(app.frequency, 1);
    assert_eq!(app.functions[0].data, Function::generate_sine_wave(1, 1));
}

#[test]
fn amplitude_stops_at_ceiling() {
    let mut app = App::new();
    app.amplitude = PARAM_CEILING;
    app.increase_amplitude();
    assert_eq!(app.amplitude, PARAM_CEILING);
}

#[test]
fn remove_function_in_and_out_of_range() {
    let mut app = App::new();
    assert_eq!(app.remove_function(0), Err(CatalogError::NotFound));
    app.add_function("sin(x)".to_string(), FunctionType::Sine);
    app.add_function("cos(x)".to_string(), FunctionType::Cosine);
    app.add_function("tan(x)".to_string(), FunctionType::Tangent);
    assert_eq!(app.remove_function(3), Err(CatalogError::NotFound));
    assert_eq!(app.functions.len(), 3);
    assert_eq!(app.remove_function(1), Ok(()));
    assert_eq!(app.functions.len(), 2);
    assert_eq!(app.functions[0].name, "sin(x)");
    assert_eq!(app.functions[1].name, "tan(x)");
}

#[test]
fn menu_wraps_both_ways() {
    let mut app = App::new();
    app.menu_up();
    assert_eq!(app.menu_state, Some(MENU_LEN - 1));
    app.menu_down();
    assert_eq!(app.menu_state, Some(0));
    app.menu_down();
    assert_eq!(app.menu_state, Some(1));
    app.menu_state = None;
    app.menu_down();
    assert_eq!(app.menu_state, Some(0));
}

#[test]
fn select_function_adds_highlighted_variant() {
    let mut app = App::new();
    app.toggle_menu();
    assert!(app.show_menu);
    app.menu_down();
    app.menu_down();
    assert_eq!(app.select_function(), Ok(()));
    assert!(!app.show_menu);
    assert_eq!(app.functions.len(), 1);
    assert_eq!(app.functions[0].name, "tan(x)");
    assert_eq!(app.functions[0].func_type, FunctionType::Tangent);
    app.menu_state = None;
    assert_eq!(app.select_function(), Err(CatalogError::NotFound));
    assert_eq!(app.functions.len(), 1);
}

#[test]
fn select_inequality_entry() {
    let mut app = App::new();
    app.menu_up();
    assert_eq!(app.select_function(), Ok(()));
    assert_eq!(app.functions[0].name, "Inequality: x > 0");
    assert_eq!(
        app.functions[0].func_type,
        FunctionType::Inequality { op: Comparison::Greater, threshold: 0 }
    );
    assert!(app.functions[0].data.is_empty());
}

#[test]
fn keys_drive_the_catalogue() {
    let mut app = App::new();
    assert!(app.on_key(Key::Char('s')));
    assert!(app.on_key(Key::Char('c')));
    assert!(app.on_key(Key::Char('p')));
    assert_eq!(app.functions.len(), 3);
    assert_eq!(app.functions[2].name, "Parametric: (cos(t), sin(t))");
    assert!(app.on_key(Key::Up));
    assert_eq!(app.amplitude, 11);
    assert!(app.on_key(Key::Down));
    assert!(app.on_key(Key::Down));
    assert_eq!(app.amplitude, 9);
    assert!(app.on_key(Key::Right));
    assert_eq!(app.frequency, 11);
    assert!(app.on_key(Key::Left));
    assert_eq!(app.frequency, 10);
    assert!(app.on_key(Key::Char('r')));
    assert!(app.functions.is_empty());
    assert_eq!(app.amplitude, 9);
    assert!(app.on_key(Key::Other));
    assert!(!app.on_key(Key::Esc));
}

#[test]
fn keys_in_menu() {
    let mut app = App::new();
    assert!(app.on_key(Key::Char('m')));
    assert!(app.show_menu);
    assert!(app.on_key(Key::Down));
    assert_eq!(app.menu_state, Some(1));
    assert!(app.on_key(Key::Up));
    assert!(app.on_key(Key::Up));
    assert_eq!(app.menu_state, Some(7));
    assert_eq!(app.amplitude, 10);
    assert!(app.on_key(Key::Enter));
    assert!(!app.show_menu);
    assert_eq!(app.functions.len(), 1);
    assert!(app.on_key(Key::Char('m')));
    assert!(app.on_key(Key::Esc));
    assert!(!app.show_menu);
}

#[test]
fn function_new_uses_unit_parameters() {
    let f = Function::new("sin(x)".to_string(), FunctionType::Sine);
    assert_eq!(f.name, "sin(x)");
    assert_eq!(f.data, Function::generate_sine_wave(10, 10));
    let mut g = Function::new("cos(x)".to_string(), FunctionType::Cosine);
    g.update_data(20, 10);
    assert_eq!(g.data[50].y, Some(2 * MICRO));
}

#[test]
fn comparison_holds() {
    assert!(Comparison::Greater.holds(1, 0));
    assert!(!Comparison::Greater.holds(0, 0));
    assert!(Comparison::GreaterOrEqual.holds(0, 0));
    assert!(Comparison::Less.holds(-1, 0));
    assert!(!Comparison::Less.holds(0, 0));
    assert!(Comparison::LessOrEqual.holds(0, 0));
}

#[test]
fn cosine_at_zero_is_exact_amplitude() {
    let cos = Function::generate_cosine_wave(20, 10);
    assert_eq!(cos.len(), SAMPLE_COUNT);
    assert_eq!(cos[0].x, -10 * MICRO);
    assert_eq!(cos[50], Sample { x: 0, y: Some(2 * MICRO) });
    assert_eq!(cos[100].x, 10 * MICRO);
    let circle = Function::generate_parametric(10);
    assert_eq!(circle[0], Sample { x: MICRO, y: Some(0) });
}
