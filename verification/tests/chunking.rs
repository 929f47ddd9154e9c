use vidpipe::chunk::plan_chunks;

#[test]
fn three_chunk_scenario() {
    let plan = plan_chunks(120_000_000, 45_000_000);
    assert_eq!(plan.len(), 3);
    assert_eq!(plan[0].start, 0);
    assert_eq!(plan[0].len, 45_000_000);
    assert_eq!(plan[1].start, 45_000_000);
    assert_eq!(plan[1].len, 45_000_000);
    assert_eq!(plan[2].start, 90_000_000);
    assert_eq!(plan[2].len, 30_000_000);
}

#[test]
fn even_division_keeps_full_last_chunk() {
    let plan = plan_chunks(90, 45);
    assert_eq!(plan.len(), 2);
    assert_eq!(plan[0].start, 0);
    assert_eq!(plan[0].len, 45);
    assert_eq!(plan[1].start, 45);
    assert_eq!(plan[1].len, 45);
}

#[test]
fn asset_under_ceiling_is_one_chunk() {
    let plan = plan_chunks(10, 45);
    assert_eq!(plan.len(), 1);
    assert_eq!(plan[0].start, 0);
    assert_eq!(plan[0].len, 10);
}

#[test]
fn asset_exactly_at_ceiling_is_one_chunk() {
    let plan = plan_chunks(45, 45);
    assert_eq!(plan.len(), 1);
    assert_eq!(plan[0].len, 45);
}

#[test]
fn one_byte_over_ceiling_needs_two_chunks() {
    let plan = plan_chunks(46, 45);
    assert_eq!(plan.len(), 2);
    assert_eq!(plan[0].len, 45);
    assert_eq!(plan[1].start, 45);
    assert_eq!(plan[1].len, 1);
}

#[test]
fn empty_asset_needs_no_chunks() {
    let plan = plan_chunks(0, 45);
    assert!(plan.is_empty());
}

#[test]
fn chunks_are_contiguous_and_cover_the_asset() {
    let plan = plan_chunks(1_000_003, 4096);
    let mut expected_start = 0u64;
    for range in &plan {
        assert_eq!(range.start, expected_start);
        assert!(range.len > 0 && range.len <= 4096);
        expected_start += range.len;
    }
    assert_eq!(expected_start, 1_000_003);
}
