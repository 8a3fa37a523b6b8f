use mx_interact::potlock::{
    donation_amount, fee_for, selected, selected_id, DONATION_FEES, FEE_AMOUNT, FEE_AMOUNT_2,
};

#[test]
fn the_second_is_picked_only_for_two() {
    assert_eq!(selected_id(2), 2);
    assert_eq!(selected_id(1), 1);
    assert_eq!(selected_id(0), 1);
    assert_eq!(selected_id(3), 1);
    assert_eq!(selected_id(u64::MAX), 1);
}

#[test]
fn selected_picks_between_any_two_values() {
    assert_eq!(selected(2, "first proposer", "second proposer"), "second proposer");
    assert_eq!(selected(1, "first proposer", "second proposer"), "first proposer");
    assert_eq!(selected(7, "first proposer", "second proposer"), "first proposer");
}

#[test]
fn fee_by_type() {
    assert_eq!(fee_for(1), 50000000000000000);
    assert_eq!(fee_for(2), 300000000000000000);
    assert_eq!(fee_for(0), 300000000000000000);
    assert_eq!(fee_for(u64::MAX), 300000000000000000);
}

#[test]
fn fee_constants() {
    assert_eq!(FEE_AMOUNT, 50000000000000000);
    assert_eq!(FEE_AMOUNT_2, 300000000000000000);
    assert_eq!(DONATION_FEES, 3);
}

#[test]
fn a_donation_is_three_fees() {
    assert_eq!(donation_amount(), 150000000000000000);
    assert_eq!(donation_amount(), 3 * FEE_AMOUNT);
}
