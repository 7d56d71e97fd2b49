use cpu_monitor::event::{is_finite, Event};

fn bits(values: &[f32]) -> Vec<u32> {
    values.iter().map(|v| v.to_bits()).collect()
}

#[test]
fn snapshot_keeps_every_reading_in_order() {
    let readings = bits(&[12.5, 0.0, 100.0, 37.25]);
    let event = Event::snapshot(readings.clone());
    assert_eq!(event.cpus(), &readings);
    assert_eq!(event.core_count(), 4);
    assert_eq!(event, Event::Snapshot { cpus: readings });
}

#[test]
fn snapshot_of_no_cores_is_empty() {
    let event = Event::snapshot(Vec::new());
    assert_eq!(event.core_count(), 0);
    assert!(event.cpus().is_empty());
    assert!(event.all_finite());
}

#[test]
fn snapshot_length_equals_core_count() {
    for n in 0..65usize {
        let readings: Vec<u32> = (0..n).map(|i| (i as f32 * 1.5).to_bits()).collect();
        let event = Event::snapshot(readings);
        assert_eq!(event.core_count(), n);
        assert_eq!(event.cpus().len(), n);
    }
}

#[test]
fn duplicate_carries_the_same_readings() {
    let event = Event::snapshot(bits(&[1.0, 2.0, 3.0]));
    let copy = event.duplicate();
    assert_eq!(copy, event);
    assert_eq!(copy.cpus(), &bits(&[1.0, 2.0, 3.0]));
    assert_eq!(Event::snapshot(Vec::new()).duplicate().core_count(), 0);
}

#[test]
fn finite_readings_are_recognised() {
    for v in [0.0f32, -0.0, 1.0, 99.999, 100.0, 250.0, f32::MAX, f32::MIN, f32::MIN_POSITIVE, 1e-45] {
        assert!(is_finite(v.to_bits()), "{v}");
        assert_eq!(is_finite(v.to_bits()), v.is_finite());
    }
}

#[test]
fn non_finite_readings_are_recognised() {
    for v in [f32::NAN, f32::INFINITY, f32::NEG_INFINITY, -f32::NAN] {
        assert!(!is_finite(v.to_bits()));
    }
    assert!(!is_finite(0x7f80_0000));
    assert!(!is_finite(0xffff_ffff));
    assert!(is_finite(0x7f7f_ffff));
    assert!(is_finite(0));
}

#[test]
fn all_finite_fails_on_one_bad_reading() {
    assert!(Event::snapshot(bits(&[1.0, 2.0, 3.0])).all_finite());
    assert!(!Event::snapshot(bits(&[1.0, f32::NAN, 3.0])).all_finite());
    assert!(!Event::snapshot(bits(&[f32::INFINITY])).all_finite());
    assert!(!Event::snapshot(bits(&[1.0, 2.0, f32::NEG_INFINITY])).all_finite());
}

#[test]
fn is_finite_agrees_with_the_float_on_a_sweep_of_patterns() {
    let mut pattern: u32 = 0;
    loop {
        assert_eq!(is_finite(pattern), f32::from_bits(pattern).is_finite());
        match pattern.checked_add(0x0001_0001) {
            Some(next) => pattern = next,
            None => break,
        }
    }
}
