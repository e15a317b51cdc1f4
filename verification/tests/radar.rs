use cruise_control::radar::{AheadDistance, RadarHistory, RADAR_HISTORY_LEN};

const RADAR_REACH_M: f32 = 200.0;

/// What the radar of a car at `own_m` measures of a car ahead at `ahead_m`.
fn measure(own_m: f32, ahead_m: f32) -> AheadDistance<f32> {
    let distance = ahead_m - own_m;
    AheadDistance { distance_m: distance, beyond_radar: distance > RADAR_REACH_M }
}

fn contents<T: Copy>(h: &RadarHistory<T>) -> Vec<Option<T>> {
    let mut v = Vec::new();
    for i in 0..h.len() {
        v.push(*h.get(i).unwrap());
    }
    v
}

#[test]
fn read_radar_keeps_the_ten_newest_readings() {
    // car ahead at 60.0, own car moving 1.0 per reading from 0.0
    let mut h = RadarHistory::new();
    let mut own = 0.0f32;
    for _ in 0..20 {
        h.read_radar(Some(measure(own, 60.0)));
        own += 1.0;
    }
    assert_eq!(h.len(), 10);
    assert_eq!(RADAR_HISTORY_LEN, 10);
    assert_eq!(*h.get(0).unwrap(), Some(41.0));
    assert_eq!(*h.get(9).unwrap(), Some(50.0));
    assert!(h.get(10).is_none());
}

#[test]
fn read_radar_records_no_distance_out_of_reach_or_without_car() {
    let mut h = RadarHistory::new();
    h.read_radar(Some(measure(10.0, 350.0)));
    assert_eq!(contents(&h), vec![None]);
    h.read_radar(None);
    assert_eq!(contents(&h), vec![None, None]);
    h.read_radar(Some(measure(10.0, 150.0)));
    assert_eq!(contents(&h), vec![Some(140.0), None, None]);
    h.read_radar(Some(measure(10.0, 100.0)));
    assert_eq!(contents(&h), vec![Some(90.0), Some(140.0), None, None]);
    // exactly at reach is still within it
    h.read_radar(Some(measure(0.0, 200.0)));
    assert_eq!(*h.get(0).unwrap(), Some(200.0));
}

#[test]
fn new_history_is_empty() {
    let h: RadarHistory<u32> = RadarHistory::new();
    assert_eq!(h.len(), 0);
    assert!(h.get(0).is_none());
    assert!(h.speed_pairs_front().is_empty());
}

#[test]
fn history_is_newest_first_followed_by_older() {
    let mut h = RadarHistory::new();
    for d in 1..=12u32 {
        h.read_radar(Some(AheadDistance { distance_m: d, beyond_radar: false }));
    }
    let expected: Vec<Option<u32>> = (3..=12u32).rev().map(Some).collect();
    assert_eq!(contents(&h), expected);
}

#[test]
fn speed_pairs_pair_each_reading_with_the_one_before() {
    let mut h = RadarHistory::new();
    // oldest first: 5, none, 42, 41
    h.read_radar(Some(AheadDistance { distance_m: 5i32, beyond_radar: false }));
    h.read_radar(None);
    h.read_radar(Some(AheadDistance { distance_m: 42, beyond_radar: false }));
    h.read_radar(Some(AheadDistance { distance_m: 41, beyond_radar: false }));
    // newest first: 41, 42, none, 5; the oldest holds a distance: no entry for it
    assert_eq!(h.speed_pairs_front(), vec![Some((41, 42)), None, None]);
    // a reading without distance at the oldest end still gives an entry
    let mut g = RadarHistory::new();
    g.read_radar(None);
    g.read_radar(Some(AheadDistance { distance_m: 7i32, beyond_radar: false }));
    assert_eq!(g.speed_pairs_front(), vec![None, None]);
}

#[test]
fn speeds_from_pairs_match_the_tick() {
    // two readings 0.1 s apart: 50.0 then 50.1 m, about 1 m/s
    let mut h = RadarHistory::new();
    h.read_radar(Some(measure(0.0, 50.0)));
    h.read_radar(Some(measure(10.0, 60.1)));
    let speeds: Vec<Option<f32>> = h
        .speed_pairs_front()
        .into_iter()
        .map(|p| p.map(|(x, prev)| (x - prev) / 0.1))
        .collect();
    assert_eq!(speeds.len(), 1);
    assert!((speeds[0].unwrap() - 1.0).abs() < 1e-3);
}

#[test]
fn newest_speed_entry_comes_from_the_last_two_readings() {
    let mut h = RadarHistory::new();
    h.read_radar(Some(AheadDistance { distance_m: 3u8, beyond_radar: false }));
    assert!(h.speed_pairs_front().is_empty());
    h.read_radar(Some(AheadDistance { distance_m: 4u8, beyond_radar: false }));
    assert_eq!(h.speed_pairs_front()[0], Some((4, 3)));
    h.read_radar(None);
    assert_eq!(h.speed_pairs_front()[0], None);
}

#[test]
fn clone_keeps_the_readings() {
    let mut h = RadarHistory::new();
    h.read_radar(Some(AheadDistance { distance_m: 9i64, beyond_radar: false }));
    h.read_radar(None);
    let c = h.clone();
    assert_eq!(contents(&c), contents(&h));
}
