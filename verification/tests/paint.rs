use globe_viewer::paint::{Hue, BUCKETS};

#[test]
fn thirteen_buckets_share_the_wheel() {
    assert_eq!(BUCKETS, 13);
}

#[test]
fn bucket_hues_are_thirteenths_of_a_turn() {
    assert_eq!(Hue::of_bucket(0), Hue::Thirteenths(0));
    assert_eq!(Hue::of_bucket(1), Hue::Thirteenths(1));
    assert_eq!(Hue::of_bucket(7), Hue::Thirteenths(7));
    assert_eq!(Hue::of_bucket(12), Hue::Thirteenths(12));
}

#[test]
fn bucket_thirteen_wraps_to_bucket_zero() {
    assert_eq!(Hue::of_bucket(13), Hue::of_bucket(0));
    assert_eq!(Hue::of_bucket(14), Hue::of_bucket(1));
    assert_eq!(Hue::of_bucket(25), Hue::of_bucket(12));
    assert_eq!(Hue::of_bucket(26), Hue::of_bucket(0));
    assert_eq!(Hue::of_bucket(255), Hue::Thirteenths(8));
}

#[test]
fn bucket_hues_rise_up_to_the_wrap() {
    let mut last: Option<u8> = None;
    for bucket in 0..13u8 {
        match Hue::of_bucket(bucket) {
            Hue::Thirteenths(part) => {
                assert!(part < 13);
                if let Some(before) = last {
                    assert!(before < part);
                }
                last = Some(part);
            }
            Hue::Degrees(_) => panic!("a bucket's hue is a part of the turn"),
        }
    }
}

#[test]
fn clock_hue_moves_a_hundred_degrees_a_second() {
    assert_eq!(Hue::of_seconds(0), Hue::Degrees(0));
    assert_eq!(Hue::of_seconds(1), Hue::Degrees(100));
    assert_eq!(Hue::of_seconds(2), Hue::Degrees(200));
    assert_eq!(Hue::of_seconds(3), Hue::Degrees(300));
    assert_eq!(Hue::of_seconds(4), Hue::Degrees(40));
    assert_eq!(Hue::of_seconds(18), Hue::Degrees(0));
    assert_eq!(Hue::of_seconds(1_700_000_000), Hue::Degrees(80));
}

#[test]
fn clock_hue_is_the_remainder_of_the_hundredfold() {
    for seconds in 0..5000u64 {
        let degrees = ((seconds as f64 * 100.0) % 360.0) as u16;
        assert_eq!(Hue::of_seconds(seconds), Hue::Degrees(degrees));
    }
}

#[test]
fn clock_hue_of_the_last_second() {
    // 18446744073709551615 = 18 * 1024819115206086200 + 15, and 1500 = 4 * 360 + 60.
    assert_eq!(Hue::of_seconds(u64::MAX), Hue::Degrees(60));
}
