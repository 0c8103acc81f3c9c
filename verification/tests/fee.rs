use cdk_ldk_node::fee::fee_reserve;

#[test]
fn fee_is_the_relative_share_when_it_is_larger() {
    let relative = (0.02f32 * 1000u64 as f32) as u64;
    assert_eq!(relative, 20);
    assert_eq!(fee_reserve(2, relative), 20);
}

#[test]
fn fee_is_the_floor_when_the_share_is_smaller() {
    let relative = (0.02f32 * 50u64 as f32) as u64;
    assert_eq!(relative, 1);
    assert_eq!(fee_reserve(2, relative), 2);
}
