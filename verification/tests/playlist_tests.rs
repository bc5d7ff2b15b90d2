use implayer::playlist::{next, prev};

#[test]
fn next_is_the_first_existing_track_behind() {
    let exists = vec![true, false, false, true, true, false];
    assert_eq!(next(&exists, 0), Some(3));
    assert_eq!(next(&exists, 1), Some(3));
    assert_eq!(next(&exists, 2), Some(3));
    assert_eq!(next(&exists, 3), Some(4));
}

#[test]
fn next_stops_at_the_end_of_the_list() {
    let exists = vec![true, false, false, true, true, false];
    assert_eq!(next(&exists, 4), None);
    assert_eq!(next(&exists, 5), None);
    assert_eq!(next(&exists, 6), None);
    assert_eq!(next(&exists, usize::MAX), None);
    assert_eq!(next(&Vec::new(), 0), None);
    assert_eq!(next(&vec![true], 0), None);
}

#[test]
fn prev_is_the_last_existing_track_before() {
    let exists = vec![true, false, false, true, true, false];
    assert_eq!(prev(&exists, 5), Some(4));
    assert_eq!(prev(&exists, 4), Some(3));
    assert_eq!(prev(&exists, 3), Some(0));
    assert_eq!(prev(&exists, 2), Some(0));
    assert_eq!(prev(&exists, 1), Some(0));
    assert_eq!(prev(&exists, 6), Some(4));
}

#[test]
fn prev_stops_at_the_start_of_the_list() {
    let exists = vec![false, true, false];
    assert_eq!(prev(&exists, 0), None);
    assert_eq!(prev(&exists, 1), None);
    assert_eq!(prev(&exists, 2), Some(1));
    assert_eq!(prev(&Vec::new(), 0), None);
    assert_eq!(prev(&Vec::new(), 3), None);
    assert_eq!(prev(&vec![false, false], 2), None);
}
