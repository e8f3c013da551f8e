use countdown_overlay::digits::u64_to_dec;
use countdown_overlay::digits::u64_to_dec_pad2;
use countdown_overlay::render::choose_background;
use countdown_overlay::render::choose_palette;
use countdown_overlay::render::derive_blink_state;
use countdown_overlay::render::draw;
use countdown_overlay::render::format_hms;
use countdown_overlay::render::BackgroundPaint;
use countdown_overlay::render::BackgroundStyle;
use countdown_overlay::render::Palette;
use countdown_overlay::timer::HMS;

fn hms(overtime: bool, h: u64, m: u64, s: u64) -> HMS {
    HMS { overtime, h, m, s }
}

#[test]
fn format_omits_hour_segment_when_zero() {
    assert_eq!(format_hms(&hms(false, 0, 0, 5)).as_str(), "00:05");
    assert_eq!(format_hms(&hms(false, 0, 20, 0)).as_str(), "20:00");
}

#[test]
fn format_includes_unpadded_hours_when_nonzero() {
    assert_eq!(format_hms(&hms(false, 1, 2, 3)).as_str(), "1:02:03");
    assert_eq!(format_hms(&hms(false, 10, 2, 3)).as_str(), "10:02:03");
}

#[test]
fn format_prefixes_plus_exactly_in_overtime() {
    assert_eq!(format_hms(&hms(true, 0, 0, 0)).as_str(), "+00:00");
    assert_eq!(format_hms(&hms(true, 1, 2, 3)).as_str(), "+1:02:03");
    assert!(!format_hms(&hms(false, 1, 2, 3)).starts_with('+'));
}

#[test]
fn blink_holds_only_in_overtime_with_even_seconds() {
    assert!(derive_blink_state(&hms(true, 0, 0, 0)));
    assert!(derive_blink_state(&hms(true, 0, 0, 2)));
    assert!(!derive_blink_state(&hms(true, 0, 0, 1)));
    assert!(!derive_blink_state(&hms(false, 0, 0, 0)));
    assert!(!derive_blink_state(&hms(false, 0, 0, 2)));
    assert!(!derive_blink_state(&hms(false, 0, 0, 1)));
}

#[test]
fn background_uses_alarm_only_while_inverted() {
    assert_eq!(
        choose_background(BackgroundStyle::Solid, true),
        BackgroundPaint::AlarmOpaque
    );
    assert_eq!(
        choose_background(BackgroundStyle::TranslucentTrail, true),
        BackgroundPaint::AlarmOpaque
    );
    assert_eq!(
        choose_background(BackgroundStyle::Solid, false),
        BackgroundPaint::NormalOpaque
    );
    assert_eq!(
        choose_background(BackgroundStyle::TranslucentTrail, false),
        BackgroundPaint::NormalTranslucent
    );
}

#[test]
fn palette_is_alarm_exactly_while_inverted() {
    assert_eq!(choose_palette(true), Palette::Alarm);
    assert_eq!(choose_palette(false), Palette::Normal);
}

#[test]
fn draw_plan_combines_blink_palette_and_text() {
    let plan = draw(&hms(true, 0, 0, 2), BackgroundStyle::Solid);
    assert!(plan.inverted);
    assert_eq!(plan.background, BackgroundPaint::AlarmOpaque);
    assert_eq!(plan.foreground, Palette::Alarm);
    assert_eq!(plan.text.as_str(), "+00:02");

    let plan = draw(&hms(true, 0, 0, 3), BackgroundStyle::Solid);
    assert!(!plan.inverted);
    assert_eq!(plan.background, BackgroundPaint::NormalOpaque);
    assert_eq!(plan.foreground, Palette::Normal);
    assert_eq!(plan.text.as_str(), "+00:03");

    let plan = draw(&hms(false, 0, 14, 59), BackgroundStyle::TranslucentTrail);
    assert!(!plan.inverted);
    assert_eq!(plan.background, BackgroundPaint::NormalTranslucent);
    assert_eq!(plan.foreground, Palette::Normal);
    assert_eq!(plan.text.as_str(), "14:59");
}

#[test]
fn decimal_rendering() {
    assert_eq!(u64_to_dec(0).as_str(), "0");
    assert_eq!(u64_to_dec(7).as_str(), "7");
    assert_eq!(u64_to_dec(42).as_str(), "42");
    assert_eq!(u64_to_dec(1234567890).as_str(), "1234567890");
    assert_eq!(
        u64_to_dec(18446744073709551615).as_str(),
        "18446744073709551615"
    );
}

#[test]
fn two_digit_padding() {
    assert_eq!(u64_to_dec_pad2(0).as_str(), "00");
    assert_eq!(u64_to_dec_pad2(9).as_str(), "09");
    assert_eq!(u64_to_dec_pad2(10).as_str(), "10");
    assert_eq!(u64_to_dec_pad2(59).as_str(), "59");
    assert_eq!(u64_to_dec_pad2(100).as_str(), "100");
}
