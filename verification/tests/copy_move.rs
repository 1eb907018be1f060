use ownership_borrowing::copy_move::{ownership_example, run};

#[test]
fn copy_and_move_both_hold_the_text() {
    let seen = ownership_example();
    assert_eq!(seen.original, "hallo!");
    assert_eq!(seen.copy, "hallo!");
    assert_eq!(seen.moved, "hallo!");
}

#[test]
fn copy_does_not_share_storage_with_the_moved_text() {
    let seen = ownership_example();
    assert_ne!(seen.copy.as_ptr(), seen.moved.as_ptr());

    let mut copy = seen.copy;
    copy.push('?');
    assert_eq!(copy, "hallo!?");
    assert_eq!(seen.moved, "hallo!");
}

#[test]
fn copy_move_run_gives_the_same_readings() {
    let seen = run();
    assert_eq!(seen.original, "hallo!");
    assert_eq!(seen.copy, "hallo!");
    assert_eq!(seen.moved, "hallo!");
    assert_eq!(seen, ownership_example());
}
