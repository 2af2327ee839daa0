use std::collections::VecDeque;
use terrain_gen::mesh::GridPoint;
use terrain_gen::stats::{record_sample, summarize_mismatches, HISTORY_LEN};

#[test]
fn history_keeps_latest() {
    let mut h: VecDeque<u32> = VecDeque::new();
    for i in 0..300u32 {
        record_sample(&mut h, Some(i));
        assert!(h.len() <= HISTORY_LEN);
        assert_eq!(*h.back().unwrap(), i);
    }
    assert_eq!(h.len(), 256);
    assert_eq!(*h.front().unwrap(), 44);
}

#[test]
fn history_without_sample_still_trims() {
    let mut h: VecDeque<u32> = (0..256).collect();
    record_sample(&mut h, None);
    assert_eq!(h.len(), 255);
    assert_eq!(*h.front().unwrap(), 1);
    record_sample(&mut h, None);
    assert_eq!(h.len(), 255);
}

#[test]
fn float_history() {
    let mut h: VecDeque<f32> = VecDeque::new();
    record_sample(&mut h, Some(60.0));
    record_sample(&mut h, Some(30.0));
    let avg: f32 = h.iter().sum::<f32>() / h.len() as f32;
    assert_eq!(avg, 45.0);
}

#[test]
fn no_mismatch_passes() {
    let r = summarize_mismatches(&vec![false; 10], 5);
    assert_eq!(r.count, 0);
    assert!(r.first.is_empty());
    assert!(r.passed());
    let r = summarize_mismatches(&vec![false; 3], 0);
    assert!(r.passed());
}

#[test]
fn mismatch_positions_reported() {
    let mut m = vec![false; 20];
    for i in [1usize, 4, 6, 9, 13, 15, 19] {
        m[i] = true;
    }
    let r = summarize_mismatches(&m, 4);
    assert_eq!(r.count, 7);
    assert!(!r.passed());
    assert_eq!(
        r.first,
        vec![
            GridPoint { x: 1, z: 0 },
            GridPoint { x: 0, z: 1 },
            GridPoint { x: 2, z: 1 },
            GridPoint { x: 1, z: 2 },
            GridPoint { x: 1, z: 3 },
        ]
    );
}

#[test]
fn few_mismatches_all_listed() {
    let r = summarize_mismatches(&vec![false, false, true], 3);
    assert_eq!(r.count, 1);
    assert_eq!(r.first, vec![GridPoint { x: 2, z: 0 }]);
}
