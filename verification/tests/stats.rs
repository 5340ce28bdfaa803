use pms5003::frame::Frame;
use pms5003::stats::FrameStats;

fn frame_with(pm10: u16, pm25: u16) -> Frame {
    Frame::from_array([pm10, pm25, 3, 4, 5, 6, 7, 8, 9, 10, 11, 12, 13, 14])
}

#[test]
fn new_stats_are_zero() {
    let stats = FrameStats::new();
    assert_eq!(stats, FrameStats { samples: 0, pm10_standard_sum: 0, pm25_standard_sum: 0 });
}

#[test]
fn from_frame_counts_one_sample() {
    let stats = FrameStats::from_frame(&frame_with(100, 50));
    assert_eq!(stats, FrameStats { samples: 1, pm10_standard_sum: 100, pm25_standard_sum: 50 });
}

#[test]
fn from_frame_takes_the_standard_fields_only() {
    let frame = Frame::from_array([7, 9, 1000, 2000, 3000, 4000, 1, 1, 1, 1, 1, 1, 1, 1]);
    let stats = FrameStats::from_frame(&frame);
    assert_eq!(stats.pm10_standard_sum, 7);
    assert_eq!(stats.pm25_standard_sum, 9);
}

#[test]
fn add_frame_adds_to_each_field() {
    let stats = FrameStats::from_frame(&frame_with(100, 50)).add_frame(&frame_with(20, 65535));
    assert_eq!(stats, FrameStats { samples: 2, pm10_standard_sum: 120, pm25_standard_sum: 65585 });
}

#[test]
fn add_frame_to_zero_is_from_frame() {
    let frame = frame_with(65535, 0);
    assert_eq!(FrameStats::new().add_frame(&frame), FrameStats::from_frame(&frame));
}

#[test]
fn add_sums_each_field() {
    let a = FrameStats { samples: 3, pm10_standard_sum: 300, pm25_standard_sum: 150 };
    let b = FrameStats { samples: 4, pm10_standard_sum: 1, pm25_standard_sum: 70000 };
    assert_eq!(a + b, FrameStats { samples: 7, pm10_standard_sum: 301, pm25_standard_sum: 70150 });
}

#[test]
fn add_is_a_commutative_monoid() {
    let a = FrameStats { samples: 3, pm10_standard_sum: 300, pm25_standard_sum: 150 };
    let b = FrameStats { samples: 4, pm10_standard_sum: 1, pm25_standard_sum: 70000 };
    let c = FrameStats { samples: 1, pm10_standard_sum: 65535, pm25_standard_sum: 0 };
    assert_eq!((a + b) + c, a + (b + c));
    assert_eq!(a + b, b + a);
    assert_eq!(a + FrameStats::new(), a);
    assert_eq!(FrameStats::new() + a, a);
}

#[test]
fn add_frame_is_add_of_from_frame() {
    let a = FrameStats { samples: 3, pm10_standard_sum: 300, pm25_standard_sum: 150 };
    let frame = frame_with(12, 34);
    assert_eq!(a.add_frame(&frame), a + FrameStats::from_frame(&frame));
}

#[test]
fn add_reaches_the_largest_totals() {
    let a = FrameStats { samples: u32::MAX - 1, pm10_standard_sum: u32::MAX - 65535, pm25_standard_sum: u32::MAX };
    let stats = a.add_frame(&frame_with(65535, 0));
    assert_eq!(stats, FrameStats { samples: u32::MAX, pm10_standard_sum: u32::MAX, pm25_standard_sum: u32::MAX });
}

#[test]
fn has_room_up_to_the_largest_totals() {
    let a = FrameStats { samples: u32::MAX - 1, pm10_standard_sum: u32::MAX - 65535, pm25_standard_sum: u32::MAX };
    assert!(a.has_room(&frame_with(65535, 0)));
    assert!(a.has_room(&frame_with(0, 0)));
    assert!(!a.has_room(&frame_with(0, 1)));
    let b = FrameStats { samples: 5, pm10_standard_sum: u32::MAX - 65534, pm25_standard_sum: 0 };
    assert!(b.has_room(&frame_with(65534, 65535)));
    assert!(!b.has_room(&frame_with(65535, 65535)));
    let c = FrameStats { samples: u32::MAX, pm10_standard_sum: 0, pm25_standard_sum: 0 };
    assert!(!c.has_room(&frame_with(0, 0)));
    assert!(FrameStats::new().has_room(&frame_with(65535, 65535)));
}
