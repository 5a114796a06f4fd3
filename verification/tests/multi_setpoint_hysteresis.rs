use empowerd::multi_setpoint_hysteresis::{LinspaceBuilder, MultiSetpointHysteresis, Setpoint};

/// Checks that `value` (scaled by `scale`) is the fraction `num / den`.
fn is_fraction(value: i128, scale: i128, num: i128, den: i128) -> bool {
    value * den == num * scale
}

fn check_setpoint(
    ctrl: &MultiSetpointHysteresis,
    sp: &Setpoint,
    lower: (i128, i128),
    upper: (i128, i128),
    output: (i128, i128),
) {
    let scale = ctrl.scale();
    assert!(is_fraction(sp.input_range[0], scale, lower.0, lower.1));
    assert!(is_fraction(sp.input_range[1], scale, upper.0, upper.1));
    assert!(is_fraction(sp.output, scale, output.0, output.1));
}

fn output_value(ctrl: &mut MultiSetpointHysteresis, value: i64) -> f64 {
    assert!(ctrl.is_covered(value));
    let r = ctrl.process(value);
    r.num as f64 / r.den as f64
}

#[test]
fn test_parameter_validation() {
    if let Ok(_) = LinspaceBuilder::new(i64::MIN, i64::MAX)
        .input_range(20000, 10000)
        .output_range(0, 0, 0, 0)
        .point_count(5)
        .hysteresis(1)
        .build()
    {
        panic!("Start greater than stop was not rejected!");
    }

    if let Ok(_) = LinspaceBuilder::new(i64::MIN, i64::MAX)
        .input_range(10000, 20000)
        .output_range(0, 0, 0, 0)
        .point_count(1)
        .hysteresis(1)
        .build()
    {
        panic!("Single point range was not rejected!");
    }

    if let Ok(_) = LinspaceBuilder::new(i64::MIN, i64::MAX)
        .input_range(10000, 20000)
        .output_range(0, 0, 0, 0)
        .point_count(2)
        .hysteresis(-123)
        .build()
    {
        panic!("Invalid hysteresis was not rejected!");
    }
}

#[test]
fn test_linspace_init() {
    let ctrl = match LinspaceBuilder::new(i64::MIN, i64::MAX)
        .input_range(10000, 20000)
        .output_range(250, 250, 100, 0)
        .point_count(2)
        .hysteresis(1000)
        .build()
    {
        Ok(x) => x,
        Err(e) => {
            panic!("Creating MultiSetpointHysteresis object failed: {}", e)
        }
    };
    let min = i64::MIN as i128;
    let max = i64::MAX as i128;

    let points = ctrl.setpoints();
    assert_eq!(2, points.len());
    check_setpoint(&ctrl, &points[0], (min, 1), (11000, 1), (250, 1));
    check_setpoint(&ctrl, &points[1], (19000, 1), (max, 1), (0, 1));

    let ctrl = match LinspaceBuilder::new(i64::MIN, i64::MAX)
        .input_range(10000, 20000)
        .output_range(250, 250, 100, 0)
        .point_count(5)
        .hysteresis(1000)
        .build()
    {
        Ok(x) => x,
        Err(e) => {
            panic!("Creating MultiSetpointHysteresis object failed: {}", e)
        }
    };

    // The inner bounds are thirds: 43000/3 is 14333.333..., and so on.
    let points = ctrl.setpoints();
    assert_eq!(5, points.len());
    check_setpoint(&ctrl, &points[0], (min, 1), (11000, 1), (250, 1));
    check_setpoint(&ctrl, &points[1], (9000, 1), (43000, 3), (200, 1));
    check_setpoint(&ctrl, &points[2], (37000, 3), (53000, 3), (150, 1));
    check_setpoint(&ctrl, &points[3], (47000, 3), (21000, 1), (100, 1));
    check_setpoint(&ctrl, &points[4], (19000, 1), (max, 1), (0, 1));
    assert_eq!(14333.333333333334, 43000.0 / 3.0);
}

#[test]
fn test_processing() {
    let mut ctrl = match LinspaceBuilder::new(i64::MIN, i64::MAX)
        .input_range(10000, 20000)
        .output_range(250, 250, 100, 0)
        .point_count(5)
        .hysteresis(1000)
        .build()
    {
        Ok(x) => x,
        Err(e) => {
            panic!("Creating MultiSetpointHysteresis object failed: {}", e)
        }
    };

    assert_eq!(0.0, output_value(&mut ctrl, 40001));
    assert_eq!(0.0, output_value(&mut ctrl, 20001));
    assert_eq!(0.0, output_value(&mut ctrl, 20000));
    assert_eq!(100.0, output_value(&mut ctrl, 18500));
    assert_eq!(100.0, output_value(&mut ctrl, 20000));
    assert_eq!(100.0, output_value(&mut ctrl, 17500));
    assert_eq!(150.0, output_value(&mut ctrl, 15000));
    assert_eq!(250.0, output_value(&mut ctrl, 5000));
    assert_eq!(250.0, output_value(&mut ctrl, -15000));
    assert_eq!(250.0, output_value(&mut ctrl, 10000));
    assert_eq!(200.0, output_value(&mut ctrl, 14000));
    assert_eq!(200.0, output_value(&mut ctrl, 12500));
    assert_eq!(150.0, output_value(&mut ctrl, 15000));
    assert_eq!(0.0, output_value(&mut ctrl, 25000));
}

#[test]
fn build_error_messages() {
    let b = || LinspaceBuilder::new(0, 100).input_range(10, 20).output_range(0, 0, 0, 0);
    match b().point_count(1).hysteresis(1).build() {
        Err(e) => assert_eq!("'num_points' must be greater than 1!", e),
        Ok(_) => panic!("accepted"),
    }
    match b().point_count(3).hysteresis(-1).build() {
        Err(e) => assert_eq!("'hysteresis' must be positive!", e),
        Ok(_) => panic!("accepted"),
    }
    match LinspaceBuilder::new(0, 100).input_range(20, 20).point_count(3).build() {
        Err(e) => assert_eq!("'in_start' must be smaller than 'in_stop'", e),
        Ok(_) => panic!("accepted"),
    }
}

#[test]
fn fractional_outputs_are_exact() {
    // Four gaps between 100 and 0 give steps of 25, three give 33 1/3.
    let mut ctrl = LinspaceBuilder::new(-1000, 1000)
        .input_range(0, 300)
        .output_range(100, 100, 0, -10)
        .point_count(5)
        .hysteresis(10)
        .build()
        .unwrap();
    assert_eq!(3, ctrl.scale());
    let r = ctrl.process(150);
    assert_eq!(100, r.num);
    assert_eq!(3, r.den);
    assert!(!ctrl.is_covered(1000));
    assert!(!ctrl.is_covered(-1000));
}

#[test]
fn hysteresis_keeps_selection_and_repeats() {
    let mut ctrl = LinspaceBuilder::new(i64::MIN, i64::MAX)
        .input_range(0, 90)
        .output_range(9, 6, 3, 0)
        .point_count(5)
        .hysteresis(5)
        .build()
        .unwrap();
    // 32 lies in the overlap of the second [-5, 35] and the third [25, 65]
    // setpoint: coming from below keeps the second, from above the third.
    let low = output_value(&mut ctrl, 10);
    assert_eq!(low, output_value(&mut ctrl, 32));
    assert_eq!(low, output_value(&mut ctrl, 32));
    let high = output_value(&mut ctrl, 50);
    assert_eq!(high, output_value(&mut ctrl, 32));
    assert!(low != high);
}

#[test]
fn two_points_leave_a_gap_without_overlap() {
    let ctrl = LinspaceBuilder::new(0, 100)
        .input_range(10, 90)
        .output_range(1, 0, 0, 2)
        .point_count(2)
        .hysteresis(5)
        .build()
        .unwrap();
    assert!(ctrl.is_covered(14));
    assert!(!ctrl.is_covered(50));
    assert!(ctrl.is_covered(86));
}
