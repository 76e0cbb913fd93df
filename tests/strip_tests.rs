use palette::{FromColor, Gradient, Hsv, LinSrgb, Srgb};
use sk6812_rpi::led::Led;
use sk6812_rpi::strip::Strip;
use sk6812_rpi::SK6812RGBWStrip;

const LED_AMOUNT: usize = 144;

fn make_strip() -> Strip<()> {
    Strip::new((), LED_AMOUNT)
}

#[test]
fn test_setting_color() {
    let led: Led = [100, 0, 0].into();
    let mut strip = make_strip();

    strip.fill(led);

    strip.leds.iter().for_each(|strip_led| {
        assert_eq!(*strip_led, led);
    })
}

#[test]
fn test_clearing() {
    let led: Led = [100, 0, 0].into();
    let mut strip = make_strip();

    strip.fill(led);
    strip.clear();

    strip.leds.iter().for_each(|strip_led| {
        assert_eq!(*strip_led, Led::new());
    })
}

#[test]
fn test_shift_right() {
    let mut strip = Strip::new((), 5);

    strip.leds[0].r = 1;
    strip.leds[1].r = 2;
    strip.leds[2].r = 3;
    strip.leds[3].r = 4;
    strip.leds[4].r = 5;

    strip >>= 1;

    assert_eq!(strip.leds[0].r, 5);
    assert_eq!(strip.leds[1].r, 1);
    assert_eq!(strip.leds[2].r, 2);
    assert_eq!(strip.leds[3].r, 3);
    assert_eq!(strip.leds[4].r, 4);
}

#[test]
fn test_shift_left() {
    let mut strip = Strip::new((), 5);

    strip.leds[0].r = 1;
    strip.leds[1].r = 2;
    strip.leds[2].r = 3;
    strip.leds[3].r = 4;
    strip.leds[4].r = 5;

    strip <<= 1;

    assert_eq!(strip.leds[0].r, 2);
    assert_eq!(strip.leds[1].r, 3);
    assert_eq!(strip.leds[2].r, 4);
    assert_eq!(strip.leds[3].r, 5);
    assert_eq!(strip.leds[4].r, 1);
}

#[test]
fn lib_test_strip_single_color_fill() {
    let mut strip: SK6812RGBWStrip<()> = SK6812RGBWStrip::new((), LED_AMOUNT);

    strip.set_color(&Led {
        r: 100,
        g: 0,
        b: 0,
        w: 0,
    });
    let data = strip.get_led_data();

    assert_eq!(data.len(), 32 * LED_AMOUNT);
}

#[test]
fn lib_test_strip_clearing() {
    let mut strip: SK6812RGBWStrip<()> = SK6812RGBWStrip::new((), LED_AMOUNT);

    strip.clear();
    let data = strip.get_led_data();

    assert_eq!(data.len(), 32 * LED_AMOUNT);
}

#[test]
fn integration_tests_test_strip_single_color_fill() {
    let mut strip = make_strip();

    strip.set_color(&Led {
        r: 250,
        g: 0,
        b: 200,
        w: 10,
    });
    let data = strip.get_led_data();

    assert_eq!(data.len(), 32 * LED_AMOUNT);
}

#[test]
fn integration_tests_test_strip_clearing() {
    let mut strip = make_strip();

    strip.clear();
    let data = strip.get_led_data();

    assert_eq!(data.len(), 32 * LED_AMOUNT);
}

#[test]
fn usage_tests_test_strip_single_color_fill() {
    let mut strip = make_strip();

    strip.fill(Led {
        r: 150,
        g: 0,
        b: 100,
        w: 0,
    });
    let data = strip.get_led_data();

    assert_eq!(data.len(), 32 * LED_AMOUNT);
}

#[test]
fn usage_tests_test_strip_clearing() {
    let mut strip = make_strip();

    strip.clear();
    let data = strip.get_led_data();

    assert_eq!(data.len(), 32 * LED_AMOUNT);
}

#[test]
fn test_strip_gradient() {
    let mut strip = make_strip();
    let colors: Vec<LinSrgb> = (0..=360)
        .map(|i| Srgb::from_color(Hsv::new(i as f32, 1.0, 1.0)).into_linear())
        .collect();

    let gradient = Gradient::new(colors);

    // Each sample becomes an LED with its channels times 255, truncated.
    let samples: Vec<Led> = gradient
        .take(strip.leds.len())
        .map(|color| {
            let c = Srgb::from_linear(color);
            Led::from_rgb(
                (c.red * 255.0) as u8,
                (c.green * 255.0) as u8,
                (c.blue * 255.0) as u8,
            )
        })
        .collect();
    strip.set_gradient(&samples);

    assert_eq!(strip.leds, samples);
    assert_eq!(strip.get_led_data().len(), 32 * LED_AMOUNT);
}

#[test]
fn test_direct_led_access() {
    let mut strip = make_strip();

    // Direct access to Led fields
    strip.leds[0].r = 100;
    strip.leds[1].g = 150;
    strip.leds[2].b = 200;

    // Conversion from arrays (RGB and RGBW, depending on the amount of items)
    strip.leds[3] = [100, 150, 200].into();
    strip.leds[4] = [100, 150, 200, 50].into();

    // Alternative way - use functions. Works exactly the same.
    strip.leds[5] = Led::from_rgb(100, 150, 200);
    strip.leds[6] = Led::from_rgbw(100, 150, 200, 50);

    assert_eq!(strip.leds[0], Led::from_rgb(100, 0, 0));
    assert_eq!(strip.leds[1], Led::from_rgb(0, 150, 0));
    assert_eq!(strip.leds[2], Led::from_rgb(0, 0, 200));
    assert_eq!(strip.leds[3], strip.leds[5]);
    assert_eq!(strip.leds[4], strip.leds[6]);
}

#[test]
fn test_led_manipulation() {
    let mut strip = make_strip();

    strip.fill(Led::from_rgb(200, 100, 50));

    // The factor 1.2 becomes the scalar 255 (times 255, truncated and held at
    // 255), so the color channels saturate; scaling each channel by 1.2
    // directly would give (240, 120, 60) instead.
    let factor: f32 = 1.2;
    strip.leds[0] /= 2;
    strip.leds[1] *= (factor * 255.0) as u8;
    strip.leds[2] += 50;

    assert_eq!(strip.leds[0], Led::from_rgb(100, 50, 25));
    assert_eq!(strip.leds[1], Led::from_rgb(255, 255, 255));
    assert_eq!(strip.leds[2], Led::from_rgbw(250, 150, 100, 50));

    assert_eq!(strip.get_led_data().len(), 32 * LED_AMOUNT);
}

#[test]
fn test_led_iter_manipulation() {
    let mut strip = make_strip();

    strip
        .leds
        .iter_mut()
        .enumerate()
        .for_each(|(index, led)| led.w = index as u8);

    assert_eq!(strip.leds[143].w, 143);
    assert_eq!(strip.get_led_data().len(), 32 * LED_AMOUNT);
}
