use rand::Rng;
use tick_chart::sample::Sample;
use tick_chart::window::{SampleWindow, PLACEHOLDER_LEN, WINDOW_LEN};

fn sample(value: f64) -> Sample {
    Sample::from_bits(value.to_bits()).expect("in range")
}

fn y_of(window: &SampleWindow) -> Vec<f64> {
    window.y_values().iter().map(|s| f64::from_bits(s.to_bits())).collect()
}

fn points_of(window: &SampleWindow) -> Vec<(f64, f64)> {
    window.points().iter().map(|(x, y)| (f64::from(*x), f64::from_bits(y.to_bits()))).collect()
}

#[test]
fn window_sizes_are_ten_and_three() {
    assert_eq!(WINDOW_LEN, 10);
    assert_eq!(PLACEHOLDER_LEN, 3);
}

#[test]
fn new_window_holds_the_seed() {
    let window = SampleWindow::new();
    assert_eq!(y_of(&window), vec![1.0, 2.0, 3.0, 0.0, 0.0, 0.0, 0.0, 0.0, 0.0, 0.0]);
    assert_eq!(window.x_values(), &vec![0, 1, 2, 3, 4, 5, 6, 7, 8, 9]);
}

#[test]
fn new_window_has_three_placeholder_points() {
    let window = SampleWindow::new();
    assert_eq!(points_of(&window), vec![(0.0, 0.0), (0.0, 0.0), (0.0, 0.0)]);
}

#[test]
fn first_advance_pairs_all_ten_values() {
    let mut window = SampleWindow::new();
    window.advance(sample(7.25));
    let points = points_of(&window);
    assert_eq!(points.len(), 10);
    assert_eq!(points[0], (0.0, 2.0));
    assert_eq!(
        points,
        vec![
            (0.0, 2.0),
            (1.0, 3.0),
            (2.0, 0.0),
            (3.0, 0.0),
            (4.0, 0.0),
            (5.0, 0.0),
            (6.0, 0.0),
            (7.0, 0.0),
            (8.0, 0.0),
            (9.0, 7.25),
        ]
    );
    assert_eq!(y_of(&window), vec![2.0, 3.0, 0.0, 0.0, 0.0, 0.0, 0.0, 0.0, 0.0, 7.25]);
}

#[test]
fn first_advance_with_a_random_sample_starts_at_two() {
    let mut window = SampleWindow::new();
    let drawn: f64 = rand::thread_rng().gen_range(0.0..10.0);
    window.advance(sample(drawn));
    let points = points_of(&window);
    assert_eq!(points.len(), 10);
    assert_eq!(points[0], (0.0, 2.0));
    assert_eq!(points[9], (9.0, drawn));
}

#[test]
fn shape_holds_after_every_advance() {
    let mut window = SampleWindow::new();
    for k in 0..=64u32 {
        assert_eq!(window.y_values().len(), 10, "after {} advances", k);
        assert_eq!(window.x_values(), &vec![0, 1, 2, 3, 4, 5, 6, 7, 8, 9]);
        assert_eq!(window.points().len(), if k == 0 { 3 } else { 10 });
        window.advance(sample(f64::from(k % 10)));
    }
}

#[test]
fn points_pair_the_axis_with_the_values_after_every_advance() {
    let mut window = SampleWindow::new();
    for k in 0..30u32 {
        window.advance(sample(f64::from(k) / 4.0));
        let y = y_of(&window);
        let points = points_of(&window);
        for i in 0..10 {
            assert_eq!(points[i], (i as f64, y[i]));
        }
    }
}

#[test]
fn window_slides_over_the_seed_and_the_samples() {
    let mut window = SampleWindow::new();
    let mut history = vec![1.0, 2.0, 3.0, 0.0, 0.0, 0.0, 0.0, 0.0, 0.0, 0.0];
    for k in 0..25u32 {
        let value = f64::from(k) * 0.375;
        window.advance(sample(value));
        history.push(value);
        assert_eq!(y_of(&window), history[history.len() - 10..].to_vec());
    }
    assert_eq!(
        y_of(&window),
        vec![5.625, 6.0, 6.375, 6.75, 7.125, 7.5, 7.875, 8.25, 8.625, 9.0]
    );
}

#[test]
fn seed_leaves_after_ten_advances() {
    let mut window = SampleWindow::new();
    for _ in 0..9 {
        window.advance(sample(4.5));
    }
    assert_eq!(y_of(&window), vec![0.0, 4.5, 4.5, 4.5, 4.5, 4.5, 4.5, 4.5, 4.5, 4.5]);
    window.advance(sample(4.5));
    assert_eq!(y_of(&window), vec![4.5; 10]);
}

#[test]
fn ten_thousand_random_advances_stay_in_range() {
    let mut rng = rand::thread_rng();
    let mut window = SampleWindow::new();
    for _ in 0..10_000 {
        let drawn: f64 = rng.gen_range(0.0..10.0);
        let accepted = Sample::from_bits(drawn.to_bits());
        assert!(accepted.is_some(), "{} was refused", drawn);
        window.advance(accepted.expect("in range"));
        let y = y_of(&window);
        assert_eq!(y.len(), 10);
        assert_eq!(y[9], drawn);
        assert!(0.0 <= y[9] && y[9] < 10.0);
        assert!(y.iter().all(|v| 0.0 <= *v && *v < 10.0));
    }
}
