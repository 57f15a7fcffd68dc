use capture_demo::mode::{capture_mode, classify, CaptureMode, Classification, Usage};

#[test]
fn a_body_that_only_reads_captures_by_reference() {
    assert_eq!(capture_mode(&vec![Usage::Read]), CaptureMode::ByReference);
    assert_eq!(capture_mode(&vec![Usage::Read, Usage::Read]), CaptureMode::ByReference);
}

#[test]
fn a_body_that_mutates_captures_by_mutable_reference() {
    assert_eq!(capture_mode(&vec![Usage::Mutate]), CaptureMode::ByMutableReference);
    assert_eq!(capture_mode(&vec![Usage::Mutate, Usage::Read]), CaptureMode::ByMutableReference);
    assert_eq!(capture_mode(&vec![Usage::Read, Usage::Mutate]), CaptureMode::ByMutableReference);
}

#[test]
fn a_body_that_consumes_captures_by_value() {
    assert_eq!(capture_mode(&vec![Usage::Consume]), CaptureMode::ByValue);
    assert_eq!(capture_mode(&vec![Usage::Read, Usage::Consume]), CaptureMode::ByValue);
    assert_eq!(capture_mode(&vec![Usage::Consume, Usage::Mutate]), CaptureMode::ByValue);
    assert_eq!(
        capture_mode(&vec![Usage::Read, Usage::Mutate, Usage::Consume, Usage::Read]),
        CaptureMode::ByValue
    );
}

#[test]
fn a_body_without_uses_asks_for_the_least() {
    assert_eq!(capture_mode(&[]), CaptureMode::ByReference);
}

#[test]
fn a_part_of_a_body_is_a_body() {
    let body = [Usage::Read, Usage::Mutate, Usage::Consume];
    assert_eq!(capture_mode(&body[..1]), CaptureMode::ByReference);
    assert_eq!(capture_mode(&body[..2]), CaptureMode::ByMutableReference);
    assert_eq!(capture_mode(&body), CaptureMode::ByValue);
}

#[test]
fn every_order_of_uses_gives_the_same_mode() {
    let all = [Usage::Read, Usage::Mutate, Usage::Consume];
    for a in all {
        for b in all {
            for c in all {
                let mode = capture_mode(&vec![a, b, c]);
                assert_eq!(mode, capture_mode(&vec![c, b, a]));
                assert_eq!(mode, capture_mode(&vec![b, a, c]));
            }
        }
    }
}

#[test]
fn one_more_use_never_eases_the_mode() {
    let all = [Usage::Read, Usage::Mutate, Usage::Consume];
    let rank = |mode: CaptureMode| match mode {
        CaptureMode::ByReference => 0,
        CaptureMode::ByMutableReference => 1,
        CaptureMode::ByValue => 2,
    };
    for a in all {
        for b in all {
            for added in all {
                let before = capture_mode(&vec![a, b]);
                let after = capture_mode(&vec![a, b, added]);
                let alone = capture_mode(&vec![added]);
                assert_eq!(rank(after), rank(before).max(rank(alone)));
            }
        }
    }
}

#[test]
fn a_release_added_to_the_body_makes_it_a_move() {
    let mut farewell = vec![Usage::Mutate, Usage::Read];
    assert_eq!(capture_mode(&farewell), CaptureMode::ByMutableReference);
    farewell.push(Usage::Consume);
    assert_eq!(capture_mode(&farewell), CaptureMode::ByValue);
}

#[test]
fn the_closures_of_the_demonstration() {
    let color = capture_mode(&vec![Usage::Read]);
    assert_eq!(classify(&vec![color]), Classification::ReadOnly);

    let count = capture_mode(&vec![Usage::Mutate, Usage::Read]);
    assert_eq!(classify(&vec![count]), Classification::ExclusiveMutating);

    let movable = capture_mode(&vec![Usage::Read, Usage::Consume]);
    assert_eq!(classify(&vec![movable]), Classification::Consuming);

    let greeting = capture_mode(&vec![Usage::Read]);
    let farewell = capture_mode(&vec![Usage::Mutate, Usage::Read]);
    assert_eq!(classify(&vec![greeting, farewell]), Classification::ExclusiveMutating);

    let released = capture_mode(&vec![Usage::Mutate, Usage::Read, Usage::Consume]);
    assert_eq!(classify(&vec![greeting, released]), Classification::Consuming);
}

#[test]
fn a_closure_that_captures_nothing_is_read_only() {
    assert_eq!(classify(&vec![]), Classification::ReadOnly);
}

#[test]
fn the_most_restrictive_capture_decides() {
    let r = CaptureMode::ByReference;
    let m = CaptureMode::ByMutableReference;
    let v = CaptureMode::ByValue;
    assert_eq!(classify(&vec![r, r]), Classification::ReadOnly);
    assert_eq!(classify(&vec![r, m]), Classification::ExclusiveMutating);
    assert_eq!(classify(&vec![m, r]), Classification::ExclusiveMutating);
    assert_eq!(classify(&vec![m, v]), Classification::Consuming);
    assert_eq!(classify(&vec![v, r, m]), Classification::Consuming);
    assert_eq!(classify(&vec![r, m, r, v, r]), Classification::Consuming);
}

#[test]
fn only_a_consuming_closure_is_single_use() {
    assert!(Classification::ReadOnly.is_repeatable());
    assert!(Classification::ExclusiveMutating.is_repeatable());
    assert!(!Classification::Consuming.is_repeatable());
}
