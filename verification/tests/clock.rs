use a2app_core::clock::{epoch_seconds, unix_now};

#[test]
fn a_reading_after_1970_gives_its_seconds() {
    assert_eq!(epoch_seconds(Some(1_700_000_000)), 1_700_000_000);
}

#[test]
fn no_reading_gives_zero() {
    assert_eq!(epoch_seconds(None), 0);
}

#[test]
fn the_clock_reads_after_2020() {
    assert!(unix_now() > 1_577_836_800);
}
