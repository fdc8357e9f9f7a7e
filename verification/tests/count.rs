use sysmetrics::{logical_count, physical_count, ProcessorCount};

#[test]
fn logical_count_passes_a_real_report_through() {
    assert_eq!(logical_count(8), 8);
    assert_eq!(logical_count(1), 1);
}

#[test]
fn logical_count_floors_at_one() {
    assert_eq!(logical_count(0), 1);
}

#[test]
fn physical_count_unknown_is_not_an_error() {
    // A binding that cannot determine the core count reports unknown; the
    // logical count still succeeds on its own.
    assert_eq!(physical_count(None), None);
    assert_eq!(logical_count(4), 4);
}

#[test]
fn physical_count_passes_a_real_report_through() {
    assert_eq!(physical_count(Some(4)), Some(4));
}

#[test]
fn physical_count_zero_is_unknown() {
    assert_eq!(physical_count(Some(0)), None);
}

#[test]
fn processor_count_normalizes_both_reports() {
    let c = ProcessorCount::new(6, Some(3));
    assert_eq!(c.logical(), 6);
    assert_eq!(c.physical(), Some(3));

    let c = ProcessorCount::new(0, None);
    assert_eq!(c.logical(), 1);
    assert_eq!(c.physical(), None);
}
