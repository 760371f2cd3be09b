use phase_timer::decrement_clamp_and_report;
use phase_timer::decrement_seconds;
use phase_timer::seconds_to_h_m_s_display_string;

#[test]
fn just_seconds() {
    assert_eq!("00:00:15", seconds_to_h_m_s_display_string(15));
}

#[test]
fn just_minutes() {
    assert_eq!("00:15:00", seconds_to_h_m_s_display_string(15 * 60));
}

#[test]
fn just_hours() {
    assert_eq!("15:00:00", seconds_to_h_m_s_display_string(15 * 3600));
}

#[test]
fn minute_threshold() {
    assert_eq!("00:01:00", seconds_to_h_m_s_display_string(60));
}

#[test]
fn hour_threshold() {
    assert_eq!("01:00:00", seconds_to_h_m_s_display_string(3600));
}

#[test]
fn zero_seconds() {
    assert_eq!("00:00:00", seconds_to_h_m_s_display_string(0));
}

#[test]
fn full_day_boundary() {
    assert_eq!("23:59:59", seconds_to_h_m_s_display_string(86399));
}

#[test]
fn mixed_fields() {
    assert_eq!("01:01:01", seconds_to_h_m_s_display_string(3661));
}

#[test]
fn hours_beyond_two_digits() {
    assert_eq!("100:00:00", seconds_to_h_m_s_display_string(360000));
}

#[test]
fn clamp_reports_wrap_at_min() {
    assert_eq!((true, 59), decrement_clamp_and_report(0, 59, 0));
}

#[test]
fn clamp_pulls_overlarge_value_down() {
    assert_eq!((false, 59), decrement_clamp_and_report(0, 59, 75));
}

#[test]
fn clamp_decrements_in_range() {
    assert_eq!((false, 9), decrement_clamp_and_report(0, 59, 10));
}

#[test]
fn countdown_within_minute() {
    let mut seconds: u32 = 30;
    let mut minutes: u32 = 2;
    assert_eq!("02:29", decrement_seconds(&mut seconds, &mut minutes));
    assert_eq!(29, seconds);
    assert_eq!(2, minutes);
}

#[test]
fn countdown_borrows_a_minute() {
    let mut seconds: u32 = 0;
    let mut minutes: u32 = 2;
    assert_eq!("01:59", decrement_seconds(&mut seconds, &mut minutes));
    assert_eq!(59, seconds);
    assert_eq!(1, minutes);
}

#[test]
fn countdown_reaches_zero() {
    let mut seconds: u32 = 0;
    let mut minutes: u32 = 0;
    assert_eq!("Timer Done", decrement_seconds(&mut seconds, &mut minutes));
    assert_eq!(0, seconds);
    assert_eq!(0, minutes);
}
