use neopixel::channel::ColorUpdateChannel;
use neopixel::color::{parse_hex_color, RGB};
use neopixel::driver::NeoPixelDriver;

#[test]
fn color_request_reaches_the_led_as_the_matching_frame() {
    // The whole path of one color-change request: the query value is
    // parsed, published to the channel, consumed by the LED task and
    // encoded; the transmitted frame equals the direct encoding of the
    // requested color.
    let requested = "00ff00";
    let parsed = parse_hex_color(requested).expect("a valid hex color");
    assert_eq!(parsed, RGB { r: 0, g: 255, b: 0 });

    let mut channel = ColorUpdateChannel::new();
    channel.publish(parsed);

    let mut driver = NeoPixelDriver::new(0);
    let consumed = channel.try_take().expect("a pending color");
    let frame = driver.set_led(consumed);

    assert_eq!(frame, RGB { r: 0, g: 255, b: 0 }.to_pulsecodes());
    assert_eq!(driver.led, RGB { r: 0, g: 255, b: 0 });
}

#[test]
fn invalid_request_changes_nothing() {
    let mut channel = ColorUpdateChannel::new();
    if let Ok(color) = parse_hex_color("not-a-color") {
        channel.publish(color);
    }
    assert_eq!(channel.try_take(), None);
}
