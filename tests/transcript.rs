use notary_session::transcript::{Direction, Transcript, TranscriptRange};

#[test]
fn ranges_follow_each_other_per_direction() {
    let mut t = Transcript::new();
    assert_eq!(
        t.record(Direction::Sent, 10),
        Some(TranscriptRange { direction: Direction::Sent, offset: 0, length: 10 })
    );
    assert_eq!(
        t.record(Direction::Received, 7),
        Some(TranscriptRange { direction: Direction::Received, offset: 0, length: 7 })
    );
    assert_eq!(
        t.record(Direction::Sent, 5),
        Some(TranscriptRange { direction: Direction::Sent, offset: 10, length: 5 })
    );
    assert_eq!(
        t.record(Direction::Received, 3),
        Some(TranscriptRange { direction: Direction::Received, offset: 7, length: 3 })
    );
    assert_eq!(t.total(Direction::Sent), 15);
    assert_eq!(t.total(Direction::Received), 10);
    assert_eq!(t.range_count(), 4);
    assert_eq!(t.range_at(2), TranscriptRange { direction: Direction::Sent, offset: 10, length: 5 });
}

#[test]
fn ranges_partition_each_direction() {
    let mut t = Transcript::new();
    for (d, n) in [(Direction::Sent, 3), (Direction::Received, 4), (Direction::Sent, 2), (Direction::Sent, 6), (Direction::Received, 1)] {
        t.record(d, n);
    }
    for d in [Direction::Sent, Direction::Received] {
        let total = t.total(d);
        let mut hits = vec![0usize; total];
        for i in 0..t.range_count() {
            let r = t.range_at(i);
            if r.direction == d {
                for p in r.offset..r.offset + r.length {
                    hits[p] += 1;
                }
            }
        }
        assert!(hits.iter().all(|&h| h == 1));
    }
}

#[test]
fn record_refuses_an_overflowing_total() {
    let mut t = Transcript::new();
    assert!(t.record(Direction::Sent, usize::MAX).is_some());
    assert_eq!(t.record(Direction::Sent, 1), None);
    assert_eq!(t.range_count(), 1);
    assert_eq!(
        t.record(Direction::Received, 1),
        Some(TranscriptRange { direction: Direction::Received, offset: 0, length: 1 })
    );
}

#[test]
fn disclosure_of_first_hundred_bytes_opens_only_the_first_range() {
    let mut t = Transcript::new();
    t.record(Direction::Sent, 100);
    t.record(Direction::Received, 50);
    t.record(Direction::Sent, 100);
    assert_eq!(
        t.ranges_for_disclosure(Direction::Sent, 0, 100),
        vec![TranscriptRange { direction: Direction::Sent, offset: 0, length: 100 }]
    );
    assert_eq!(
        t.ranges_for_disclosure(Direction::Sent, 100, 200),
        vec![TranscriptRange { direction: Direction::Sent, offset: 100, length: 100 }]
    );
}

#[test]
fn disclosure_takes_every_overlapping_range_of_its_direction() {
    let mut t = Transcript::new();
    t.record(Direction::Sent, 60);
    t.record(Direction::Received, 80);
    t.record(Direction::Sent, 0);
    t.record(Direction::Sent, 90);
    t.record(Direction::Sent, 50);
    assert_eq!(
        t.ranges_for_disclosure(Direction::Sent, 50, 100),
        vec![
            TranscriptRange { direction: Direction::Sent, offset: 0, length: 60 },
            TranscriptRange { direction: Direction::Sent, offset: 60, length: 90 },
        ]
    );
    assert_eq!(
        t.ranges_for_disclosure(Direction::Received, 79, 1000),
        vec![TranscriptRange { direction: Direction::Received, offset: 0, length: 80 }]
    );
    assert_eq!(t.ranges_for_disclosure(Direction::Received, 80, 1000), vec![]);
    assert_eq!(t.ranges_for_disclosure(Direction::Sent, 10, 10), vec![]);
}
