use std::collections::HashSet;
use danji::monitor::{
    data_source_label, device_list_change, fits_target, fourcc, fourcc_code,
    is_builtin_headphone, monitor_step, switch_target, OutputTarget, SOURCE_HEADPHONES,
    SOURCE_SPEAKERS, TRANSPORT_BUILTIN,
};

#[test]
fn fourcc_codes_of_the_known_constants() {
    assert_eq!(fourcc_code(*b"hdpn"), SOURCE_HEADPHONES);
    assert_eq!(fourcc_code(*b"ispk"), SOURCE_SPEAKERS);
    assert_eq!(fourcc_code(*b"bltn"), TRANSPORT_BUILTIN);
    assert_eq!(fourcc_code(*b"hdpn"), u32::from_be_bytes(*b"hdpn"));
}

#[test]
fn fourcc_writes_the_bytes() {
    assert_eq!(fourcc(SOURCE_HEADPHONES), "hdpn");
    assert_eq!(fourcc(SOURCE_SPEAKERS), "ispk");
    assert_eq!(fourcc(0), "\0\0\0\0");
    assert_eq!(fourcc(0x41e94200), "A\u{e9}B\0");
    for v in [0u32, 1, 0xdeadbeef, u32::MAX, 0x12345678] {
        let b = v.to_be_bytes();
        let expected: String = b.iter().map(|&x| x as char).collect();
        assert_eq!(fourcc(v), expected);
        assert_eq!(fourcc_code(b), v);
    }
}

#[test]
fn data_source_labels() {
    assert_eq!(data_source_label(SOURCE_HEADPHONES), "HEADPHONES");
    assert_eq!(data_source_label(SOURCE_SPEAKERS), "SPEAKERS");
    assert_eq!(data_source_label(0), "none");
    assert_eq!(data_source_label(7), "other");
}

#[test]
fn builtin_headphone() {
    assert!(is_builtin_headphone(TRANSPORT_BUILTIN, SOURCE_HEADPHONES));
    assert!(!is_builtin_headphone(TRANSPORT_BUILTIN, SOURCE_SPEAKERS));
    assert!(!is_builtin_headphone(0, SOURCE_HEADPHONES));
}

fn set(v: &[u32]) -> HashSet<u32> {
    v.iter().copied().collect()
}

#[test]
fn device_changes() {
    let c = device_list_change(&set(&[1, 2, 3]), &set(&[2, 3, 4, 4, 5]));
    let mut added = c.added.clone();
    added.sort();
    assert_eq!(added, vec![4, 5]);
    assert_eq!(c.removed, vec![1]);
    assert_eq!(switch_target(&c), Some(OutputTarget::External));

    let c = device_list_change(&set(&[1, 2, 3]), &set(&[3, 1]));
    assert!(c.added.is_empty());
    assert_eq!(c.removed, vec![2]);
    assert_eq!(switch_target(&c), Some(OutputTarget::Builtin));

    let c = device_list_change(&set(&[1, 2, 3]), &set(&[3, 2, 1, 1]));
    assert!(c.added.is_empty());
    assert!(c.removed.is_empty());
    assert_eq!(switch_target(&c), None);
}

#[test]
fn monitor_steps() {
    let mut known = set(&[1, 2, 3]);
    let (change, target) = monitor_step(&mut known, set(&[1, 2, 3, 9]));
    assert_eq!(change.added, vec![9]);
    assert!(change.removed.is_empty());
    assert_eq!(target, Some(OutputTarget::External));
    assert_eq!(known, set(&[1, 2, 3, 9]));

    let (change, target) = monitor_step(&mut known, set(&[9, 3, 2, 1]));
    assert!(change.added.is_empty() && change.removed.is_empty());
    assert_eq!(target, None);
    assert_eq!(known, set(&[1, 2, 3, 9]));

    let (change, target) = monitor_step(&mut known, set(&[1, 3]));
    assert!(change.added.is_empty());
    let mut removed = change.removed.clone();
    removed.sort();
    assert_eq!(removed, vec![2, 9]);
    assert_eq!(target, Some(OutputTarget::Builtin));
    assert_eq!(known, set(&[1, 3]));
}

#[test]
fn output_names() {
    assert!(fits_target(OutputTarget::External, "USB Headphones"));
    assert!(!fits_target(OutputTarget::External, "MacBook Pro Speakers"));
    assert!(!fits_target(OutputTarget::External, "BlackHole 2ch"));
    assert!(!fits_target(OutputTarget::External, "Aggregate Device"));
    assert!(!fits_target(OutputTarget::External, "\u{591a}\u{8f93}\u{51fa}\u{8bbe}\u{5907}"));
    assert!(fits_target(OutputTarget::Builtin, "MacBook Pro Speakers"));
    assert!(fits_target(OutputTarget::Builtin, "\u{5185}\u{5efa}\u{626c}\u{58f0}\u{5668}"));
    assert!(!fits_target(OutputTarget::Builtin, "USB Headphones"));
    assert!(!fits_target(OutputTarget::Builtin, "BlackHole Speakers"));
}
