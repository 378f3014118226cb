use valuelinediscovery::button::Button;
use valuelinediscovery::inputs::{Events, Inputs};
use valuelinediscovery::led::leds;
use valuelinediscovery::rotary_encoder::{RotaryEncoder, State};
use valuelinediscovery::serial::{divisor, Divisor};

#[test]
fn leds_are_on_pins_eight_and_nine() {
    let all = leds();
    assert_eq!(all[0].on(), 0x0000_0100);
    assert_eq!(all[1].on(), 0x0000_0200);
    assert_eq!(all[0].off(), 0x0100_0000);
    assert_eq!(all[1].off(), 0x0200_0000);
}

#[test]
fn baud_rate_of_115200_on_eight_megahertz() {
    let d = divisor(8_000_000, 115_200);
    assert_eq!(d, Divisor { mantissa: 4, fraction: 5 });
}

#[test]
fn baud_rate_of_9600_on_eight_megahertz() {
    let d = divisor(8_000_000, 9_600);
    assert_eq!(d, Divisor { mantissa: 52, fraction: 1 });
}

#[test]
fn slowest_and_fastest_baud_rate() {
    assert_eq!(divisor(8_000_000, 123), Divisor { mantissa: 4065, fraction: 0 });
    assert_eq!(divisor(65_535, 1), Divisor { mantissa: 4095, fraction: 15 });
    assert_eq!(divisor(8_000_000, 8_000_000), Divisor { mantissa: 0, fraction: 1 });
    assert_eq!(divisor(8_000_000, 8_000_001), Divisor { mantissa: 0, fraction: 0 });
    assert_eq!(divisor(24_000_000, 1_000_000), Divisor { mantissa: 1, fraction: 8 });
}

#[test]
fn tick_feeds_button_and_encoder_from_one_reading() {
    let mut inputs = Inputs::new(Button::with_window(2).unwrap(), RotaryEncoder::new());
    let quiet = Events { pressed: false, rotation: State::IDLE };
    // the encoder lines are bits 2 and 3, the button is bit 0
    let readings: [(u32, Events); 7] = [
        (0b0000, quiet),
        (0b0101, quiet),
        (0b0001, Events { pressed: true, rotation: State::IDLE }),
        (0b1001, quiet),
        (0b0001, Events { pressed: false, rotation: State::CW }),
        (0b0000, quiet),
        (0b1100, quiet),
    ];
    for (port, expected) in readings {
        assert_eq!(inputs.tick(port), expected);
    }
}

#[test]
fn tick_ignores_the_other_pins() {
    let mut plain = Inputs::new(Button::new(), RotaryEncoder::new());
    let mut noisy = Inputs::new(Button::new(), RotaryEncoder::new());
    let mut presses = 0;
    let mut clicks = 0;
    for tick in 0u32..200 {
        let button = if tick % 50 < 20 { 0 } else { 1 };
        let lines = [0u32, 1, 0, 2][(tick / 3 % 4) as usize];
        let port = (lines << 2) | button;
        let a = plain.tick(port);
        let b = noisy.tick(port | 0xFFFF_FFF2);
        assert_eq!(a, b);
        if a.pressed {
            presses += 1;
        }
        if a.rotation == State::CW {
            clicks += 1;
            assert_eq!(tick % 12, 0);
        }
        assert_ne!(a.rotation, State::CCW);
    }
    assert_eq!(presses, 4);
    assert_eq!(clicks, 16);
}
