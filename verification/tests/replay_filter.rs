use cycleback::bloom::BloomFilter;

#[test]
fn fresh_filter_reports_nothing() {
    let filter = BloomFilter::new(3);
    let id = [1u8; 32];
    assert!(!filter.might_contain(&id));
    assert!(!filter.might_contain(b"anything at all"));
}

#[test]
fn added_item_is_reported() {
    let mut filter = BloomFilter::new(3);
    let id = [7u8; 32];
    assert!(!filter.might_contain(&id));
    filter.add(&id);
    assert!(filter.might_contain(&id));
}

#[test]
fn membership_is_monotone_under_further_adds() {
    let mut filter = BloomFilter::new(3);
    let first = [1u8; 32];
    filter.add(&first);
    assert!(filter.might_contain(&first));
    for byte in 2u8..30u8 {
        let other = [byte; 32];
        filter.add(&other);
        assert!(filter.might_contain(&first));
        assert!(filter.might_contain(&other));
    }
}

#[test]
fn adding_twice_keeps_reporting() {
    let mut filter = BloomFilter::new(3);
    let id = [9u8; 32];
    filter.add(&id);
    filter.add(&id);
    assert!(filter.might_contain(&id));
}

#[test]
fn default_filter_is_empty() {
    let filter = BloomFilter::default();
    assert!(!filter.might_contain(&[0u8; 32]));
}
