use valuelinediscovery::button::{Button, BUTTON_MASK, WINDOW};

const HIGH: u32 = 1;
const LOW: u32 = 0;

/// Feeds the samples and gives the ticks that reported a press.
fn edges(button: &mut Button, samples: &[u32]) -> Vec<usize> {
    let mut ticks = Vec::new();
    for (tick, port) in samples.iter().enumerate() {
        if button.is_pressed(*port) {
            ticks.push(tick);
        }
    }
    ticks
}

fn run(low: usize, high: usize) -> Vec<u32> {
    let mut samples = vec![LOW; low];
    samples.extend(vec![HIGH; high]);
    samples
}

#[test]
fn default_window_is_twelve_samples() {
    assert_eq!(WINDOW, 12);
    assert_eq!(Button::new().samples(), 12);
    assert_eq!(BUTTON_MASK, 1);
}

#[test]
fn window_must_fit_the_register() {
    assert!(Button::with_window(0).is_none());
    assert!(Button::with_window(16).is_none());
    assert!(Button::with_window(255).is_none());
    for window in 1u8..=15 {
        let button = Button::with_window(window);
        assert!(button.is_some());
        assert_eq!(button.unwrap().samples(), window);
    }
}

#[test]
fn press_is_reported_at_the_twelfth_high_sample() {
    let mut button = Button::new();
    assert_eq!(edges(&mut button, &run(1, 30)), vec![12]);
}

#[test]
fn press_is_reported_at_the_last_sample_of_every_window() {
    for window in 1u8..=15 {
        let mut button = Button::with_window(window).unwrap();
        let ticks = edges(&mut button, &run(3, 40));
        assert_eq!(ticks, vec![2 + window as usize]);
    }
}

#[test]
fn button_held_since_power_up_is_no_press() {
    let mut button = Button::new();
    assert_eq!(edges(&mut button, &run(0, 100)), Vec::<usize>::new());
}

#[test]
fn nothing_is_reported_before_the_window_is_full() {
    for window in 1u8..=15 {
        for low in 0..window as usize {
            let mut button = Button::with_window(window).unwrap();
            let samples = run(low, window as usize - low);
            assert_eq!(edges(&mut button, &samples), Vec::<usize>::new());
        }
    }
}

#[test]
fn fewer_high_samples_than_the_window_are_no_press() {
    let mut button = Button::new();
    let mut samples = run(4, 11);
    samples.extend(run(20, 0));
    assert_eq!(edges(&mut button, &samples), Vec::<usize>::new());
}

#[test]
fn exactly_the_window_of_high_samples_is_one_press() {
    let mut button = Button::new();
    let mut samples = run(4, 12);
    samples.extend(run(20, 0));
    assert_eq!(edges(&mut button, &samples), vec![15]);
}

#[test]
fn held_button_is_reported_once() {
    let mut button = Button::new();
    assert_eq!(edges(&mut button, &run(1, 12)), vec![12]);
    assert_eq!(edges(&mut button, &run(0, 500)), Vec::<usize>::new());
}

#[test]
fn low_sample_in_a_high_run_starts_the_count_again() {
    let mut button = Button::new();
    let mut samples = run(2, 11);
    samples.push(LOW);
    samples.extend(run(0, 11));
    assert_eq!(edges(&mut button, &samples), Vec::<usize>::new());
    assert_eq!(edges(&mut button, &[HIGH]), vec![0]);
}

#[test]
fn each_press_after_a_release_is_reported() {
    let mut button = Button::new();
    let mut samples = run(1, 20);
    samples.extend(run(5, 20));
    samples.extend(run(1, 12));
    assert_eq!(edges(&mut button, &samples), vec![12, 37, 58]);
}

#[test]
fn press_of_fifty_milliseconds_at_four_hundred_hertz_is_one_edge() {
    let mut button = Button::with_window(8).unwrap();
    let mut samples = run(10, 20);
    samples.extend(run(10, 0));
    assert_eq!(edges(&mut button, &samples), vec![17]);
}

#[test]
fn bounce_shorter_than_twenty_milliseconds_is_no_edge() {
    let bounces: [&[u32]; 4] = [
        &[HIGH, HIGH, HIGH, HIGH, HIGH, HIGH, HIGH],
        &[HIGH, LOW, HIGH, LOW, HIGH, LOW, HIGH],
        &[HIGH, HIGH, LOW, LOW, HIGH, HIGH, HIGH],
        &[HIGH],
    ];
    for bounce in bounces {
        let mut button = Button::with_window(8).unwrap();
        let mut samples = run(10, 0);
        samples.extend_from_slice(bounce);
        samples.extend(run(10, 0));
        assert_eq!(edges(&mut button, &samples), Vec::<usize>::new());
    }
}

#[test]
fn bouncing_press_is_reported_once_it_settles() {
    let mut button = Button::with_window(8).unwrap();
    let mut samples = run(5, 0);
    samples.extend_from_slice(&[HIGH, LOW, HIGH, HIGH, LOW]);
    samples.extend(run(0, 20));
    assert_eq!(edges(&mut button, &samples), vec![17]);
}

#[test]
fn button_reads_only_its_own_bit() {
    let mut plain = Button::with_window(4).unwrap();
    let mut noisy = Button::with_window(4).unwrap();
    let samples = [LOW, HIGH, HIGH, LOW, HIGH, HIGH, HIGH, HIGH, HIGH, LOW];
    for (tick, sample) in samples.iter().enumerate() {
        let alone = plain.is_pressed(*sample);
        let among = noisy.is_pressed(*sample | 0xFFFF_FFFE);
        assert_eq!(alone, among);
        assert_eq!(alone, tick == 7);
    }
}

#[test]
fn new_register_reads_as_held() {
    assert_eq!(Button::new().history(), 0xFFFF);
    for window in 1u8..=15 {
        assert_eq!(Button::with_window(window).unwrap().history(), 0xFFFF);
    }
}

#[test]
fn register_shifts_the_sample_in_below_the_guard_bits() {
    let mut button = Button::new();
    button.is_pressed(LOW);
    assert_eq!(button.history(), 0xFFFE);
    button.is_pressed(HIGH);
    assert_eq!(button.history(), 0xFFFD);
    button.is_pressed(LOW);
    assert_eq!(button.history(), 0xFFFA);
    edges(&mut button, &run(16, 0));
    assert_eq!(button.history(), 0xE000);
    button.is_pressed(HIGH);
    assert_eq!(button.history(), 0xE001);
    button.is_pressed(HIGH);
    assert_eq!(button.history(), 0xE003);
    button.is_pressed(LOW);
    assert_eq!(button.history(), 0xE006);
}

#[test]
fn guard_bits_are_set_after_every_sample() {
    for window in 1u8..=15 {
        let guard: u16 = !(0xFFFFu16 >> (15 - window));
        let mut button = Button::with_window(window).unwrap();
        for tick in 0u32..64 {
            button.is_pressed((tick / 3) & 1);
            assert_eq!(button.history() & guard, guard);
        }
    }
}

#[test]
fn register_of_a_stable_press_is_all_ones_but_the_bit_of_the_window() {
    let mut button = Button::new();
    let ticks = edges(&mut button, &run(5, 12));
    assert_eq!(ticks, vec![16]);
    assert_eq!(button.history(), 0xEFFF);
    assert!(!button.is_pressed(HIGH));
    assert_eq!(button.history(), 0xFFFF);
    let mut button = Button::with_window(8).unwrap();
    edges(&mut button, &run(5, 8));
    assert_eq!(button.history(), 0xFEFF);
    let mut button = Button::with_window(15).unwrap();
    edges(&mut button, &run(5, 15));
    assert_eq!(button.history(), 0x7FFF);
    let mut button = Button::with_window(1).unwrap();
    edges(&mut button, &run(5, 1));
    assert_eq!(button.history(), 0xFFFD);
}
