use neopixel::channel::ColorUpdateChannel;
use neopixel::color::RGB;

#[test]
fn empty_channel_yields_nothing() {
    let mut ch = ColorUpdateChannel::new();
    assert_eq!(ch.try_take(), None);
    assert_eq!(ch.try_take(), None);
}

#[test]
fn publish_then_take_yields_the_color_once() {
    let mut ch = ColorUpdateChannel::new();
    let color = RGB { r: 1, g: 2, b: 3 };
    ch.publish(color);
    assert_eq!(ch.try_take(), Some(color));
    assert_eq!(ch.try_take(), None);
}

#[test]
fn publishing_twice_delivers_exactly_once() {
    // Idempotence: the same color published twice in a row reaches the
    // single consumer exactly once.
    let mut ch = ColorUpdateChannel::new();
    let color = RGB { r: 7, g: 7, b: 7 };
    ch.publish(color);
    ch.publish(color);
    assert_eq!(ch.try_take(), Some(color));
    assert_eq!(ch.try_take(), None);
}

#[test]
fn rapid_publishes_coalesce_to_the_latest() {
    // Coalescing: A then B published before the consumer runs; exactly
    // one take yields B, A is dropped.
    let mut ch = ColorUpdateChannel::new();
    let a = RGB { r: 10, g: 0, b: 0 };
    let b = RGB { r: 0, g: 10, b: 0 };
    ch.publish(a);
    ch.publish(b);
    assert_eq!(ch.try_take(), Some(b));
    assert_eq!(ch.try_take(), None);
}

#[test]
fn channel_can_be_reused_after_a_take() {
    let mut ch = ColorUpdateChannel::new();
    let first = RGB { r: 1, g: 1, b: 1 };
    let second = RGB { r: 2, g: 2, b: 2 };
    ch.publish(first);
    assert_eq!(ch.try_take(), Some(first));
    ch.publish(second);
    assert_eq!(ch.try_take(), Some(second));
    assert_eq!(ch.try_take(), None);
}
