use nezha_staking::fixed_point::{FPInternal, FixedPoint};
use nezha_staking::state::balance::FloatingBalance;
use nezha_staking::state::return_rate::CumulativeReturnRate;

fn fp<const D: u8>(x: f64) -> FixedPoint<D> {
    x.to_string().parse().unwrap()
}

#[test]
fn balance() {
    let mut balance = FloatingBalance::new(fp(1.0), CumulativeReturnRate::unity());
    let mut current_return_rate = CumulativeReturnRate(fp(1.0));

    assert_eq!(balance.get_amount(current_return_rate).unwrap(), fp(1.0));

    balance.amount = fp(10.0);
    assert_eq!(balance.get_amount(current_return_rate).unwrap(), fp(10.0));

    balance.amount = fp(1.0);
    balance.starting_rate.0 = fp(1.0);
    current_return_rate.0 = fp(2.0);
    assert_eq!(balance.get_amount(current_return_rate).unwrap(), fp(2.0));

    current_return_rate.0 = fp(0.5);
    assert_eq!(balance.get_amount(current_return_rate).unwrap(), fp(0.5));

    balance.amount = fp(1.0);
    balance.starting_rate.0 = fp(2.0);

    current_return_rate.0 = fp(1.0);
    assert_eq!(balance.get_amount(current_return_rate).unwrap(), fp(0.5));

    balance.starting_rate.0 = fp(0.5);
    assert_eq!(balance.get_amount(current_return_rate).unwrap(), fp(2.0));
}

#[test]
fn stake() {
    let mut balance = FloatingBalance::new(fp(1.0), CumulativeReturnRate::unity());
    let mut current_return_rate = CumulativeReturnRate(fp(1.0));

    current_return_rate.0 = fp(1.0);
    balance.amount = fp(1.0);
    balance.starting_rate.0 = fp(1.0);
    balance = balance.checked_add(fp(1.0), current_return_rate).unwrap();
    assert_eq!(balance.amount, fp(2.0));
    assert_eq!(balance.get_amount(current_return_rate).unwrap(), fp(2.0));

    current_return_rate.0 = fp(2.0);
    balance.amount = fp(1.0);
    balance.starting_rate.0 = fp(1.0);
    balance = balance.checked_add(fp(1.0), current_return_rate).unwrap();
    assert_eq!(balance.get_amount(current_return_rate).unwrap(), fp(3.0));
}

#[test]
fn unstake() {
    let mut balance = FloatingBalance::new(fp(1.0), CumulativeReturnRate::unity());
    let mut current_return_rate = CumulativeReturnRate(fp(1.0));

    current_return_rate.0 = fp(1.0);
    balance.amount = fp(10.0);
    balance.starting_rate.0 = fp(1.0);
    balance = balance.checked_sub(fp(1.0), current_return_rate).unwrap();
    assert_eq!(balance.amount, fp(9.0));
    assert_eq!(balance.get_amount(current_return_rate).unwrap(), fp(9.0));

    current_return_rate.0 = fp(2.0);
    balance.amount = fp(1.0);
    balance.starting_rate.0 = fp(1.0);
    balance = balance.checked_sub(fp(1.0), current_return_rate).unwrap();
    assert_eq!(balance.get_amount(current_return_rate).unwrap(), fp(1.0));
}

#[test]
fn deposit_then_read_at_same_rate_gives_deposit() {
    let rate = CumulativeReturnRate(fp(1.5));
    let balance = FloatingBalance::new(fp(0.0), rate);
    let balance = balance.checked_add(fp(4.0), rate).unwrap();
    let amount: FPInternal = balance.get_amount(rate).unwrap();
    assert_eq!(amount, fp(4.0));
}

#[test]
fn withdrawing_more_than_the_balance_fails() {
    let rate = CumulativeReturnRate(fp(1.0));
    let balance = FloatingBalance::new(fp(1.0), rate);
    assert_eq!(balance.checked_sub(fp(2.0), rate), None);
}

#[test]
fn cumulative_return_rate_reads_as_its_number() {
    let rate = CumulativeReturnRate::unity();
    let one: FPInternal = fp(1.0);
    assert_eq!(*rate, one);
}
