use nezha_staking::fixed_point::test_utils::{fp, usdc};
use nezha_staking::fixed_point::{FPInternal, FPUSDC, FixedPoint};
use nezha_staking::u192::U192;

fn fpf<const D: u8>(x: f64) -> FixedPoint<D> {
    x.to_string().parse().unwrap()
}

fn fp_to_f64<const D: u8>(x: FixedPoint<D>) -> f64 {
    x.to_string().parse().unwrap()
}

fn raw<const D: u8>(x: u64) -> FixedPoint<D> {
    FixedPoint::new(U192::from_u64(x))
}

#[test]
fn test_add() {
    let a: FixedPoint<6> = fpf(1.0);
    let b: FixedPoint<6> = fpf(2.0);

    let c = a.checked_add(b).map(fp_to_f64);
    assert_eq!(c, Some(3.0f64));

    let a: FixedPoint<6> = raw(1_000_001);
    let b: FixedPoint<6> = a.checked_add(a).unwrap();

    assert_eq!(b, raw(2_000_002));
}

#[test]
fn test_sub() {
    let a: FixedPoint<6> = fpf(1.0);
    let b: FixedPoint<6> = fpf(2.0);

    let c: Option<f64> = a.checked_sub(b).map(fp_to_f64);
    assert_eq!(c, None);

    let c: Option<f64> = b.checked_sub(a).map(fp_to_f64);
    assert_eq!(c, Some(1.0f64));

    let a: FixedPoint<6> = raw(1_000_001);
    let b: FixedPoint<6> = raw(0_000_001);
    let c: Option<FixedPoint<6>> = a.checked_sub(b);

    assert_eq!(c, Some(raw(1_000_000)));
}

#[test]
fn test_mul() {
    let a: FixedPoint<6> = fpf(1.0);
    let b: FixedPoint<6> = fpf(2.0);

    let c = a.checked_mul(b).map(fp_to_f64);
    assert_eq!(c, Some(2.0f64));

    let a: FixedPoint<6> = raw(1_000_000);
    let b: FixedPoint<6> = raw(0_000_001);
    let c: FixedPoint<6> = a.checked_mul(b).unwrap();
    assert_eq!(c, raw(0_000_001));

    let a: FixedPoint<6> = raw(0_000_015);
    let b: FixedPoint<6> = raw(0_100_000);
    let c: FixedPoint<6> = a.checked_mul(b).unwrap();
    assert_eq!(c, raw(0_000_001));

    let a: FixedPoint<6> = raw(0_000_001);
    let b: FixedPoint<6> = raw(0_000_001);
    let c: FixedPoint<6> = a.checked_mul(b).unwrap();
    assert_eq!(c, raw(0_000_000));
}

#[test]
fn test_div() {
    let a: FixedPoint<6> = fpf(1.0);
    let b: FixedPoint<6> = fpf(2.0);

    let c = a.checked_div(b).map(fp_to_f64);
    assert_eq!(c, Some(0.5f64));

    let a: FixedPoint<6> = raw(0_000_015);
    let b: FixedPoint<6> = raw(10_000_000);
    let c: FixedPoint<6> = a.checked_div(b).unwrap();
    assert_eq!(c, raw(0_000_001));
}

#[test]
fn test_from_fixed_point() {
    let a: FixedPoint<6> = fpf(1.0);

    let b: FixedPoint<6> = FixedPoint::from_fixed_point_u64(1_000_000, 6);
    assert_eq!(a, b);

    let b: FixedPoint<6> = FixedPoint::from_fixed_point_u64(1_000_00, 5);
    assert_eq!(a, b);

    let b: FixedPoint<6> = FixedPoint::from_fixed_point_u64(1_000_0000, 7);
    assert_eq!(a, b);
}

#[test]
fn test_change_precision() {
    let a: FixedPoint<2> = fpf(1.1);
    let b: FixedPoint<3> = a.change_precision();
    let c: FixedPoint<3> = fpf(1.1);
    assert_eq!(b, c);

    let b: FixedPoint<0> = a.change_precision();
    let c: FixedPoint<0> = fpf(1.0);
    assert_eq!(b, c);
}

#[test]
fn test_from_str() {
    assert_eq!("1.234567".parse(), Ok(FPUSDC::from_usdc(1_234_567)));
    assert_eq!("1.234567890".parse(), Ok(FPUSDC::from_usdc(1_234_567)));
    assert_eq!("1.234567890".parse(), Ok(FPUSDC::from_usdc(1_234_567)));
    assert_eq!("1.234".parse(), Ok(FPUSDC::from_usdc(1_234_000)));
    assert_eq!("1_000.234_567".parse(), Ok(FPUSDC::from_usdc(1_000_234_567)));
}

#[test]
fn test_str_roundtrip() {
    let fps = [1_234_567, 1_000_567, 0_000_567, 0_000_007, 0_000_000, 9_999_999];

    for i in fps {
        let fp = FPUSDC::from_usdc(i);
        assert_eq!(fp.to_string().parse(), Ok(fp));

        let fp = FPInternal::from_usdc(i);
        assert_eq!(fp.to_string().parse(), Ok(fp));
    }
}

#[test]
fn to_string_writes_whole_part_point_and_all_decimals() {
    assert_eq!(FPUSDC::from_usdc(1_234_567).to_string(), "1.234567");
    assert_eq!(FPUSDC::from_usdc(7).to_string(), "0.000007");
    assert_eq!(FPUSDC::from_usdc(0).to_string(), "0.000000");
    let whole: FixedPoint<0> = raw(42);
    assert_eq!(whole.to_string(), "42.");
}

#[test]
fn parse_errors_name_the_problem() {
    let r: Result<FPUSDC, String> = "1.2.3".parse();
    assert_eq!(r, Err("More than 1 decimal points found".to_string()));
    let r: Result<FPUSDC, String> = "12a".parse();
    assert_eq!(r, Err("Invalid char a".to_string()));
    let r: Result<FPUSDC, String> = "".parse();
    assert_eq!(r, Ok(FPUSDC::from_usdc(0)));
    let r: Result<FPUSDC, String> = "5".parse();
    assert_eq!(r, Ok(FPUSDC::from_usdc(5_000_000)));
}

#[test]
fn parse_refuses_numbers_out_of_range() {
    let r = FPUSDC::from_text("1.000000000000000000000000000000");
    assert!(r.is_none());
    let r = FPUSDC::from_text("1.2x");
    assert_eq!(r, Some(Err("Invalid char x".to_string())));
}

#[test]
fn fp_and_usdc_read_decimal_text() {
    let a: FPUSDC = fp("2.5");
    assert_eq!(a, FPUSDC::from_usdc(2_500_000));
    assert_eq!(usdc("0.000001"), FPUSDC::from_usdc(1));
}

#[test]
fn precision_up_then_down_gives_the_number_back() {
    let a = FPUSDC::from_usdc(1_234_567);
    let up: FPInternal = a.change_precision();
    let down: FPUSDC = up.change_precision();
    assert_eq!(down, a);
    assert_eq!(FPInternal::from_usdc(987_654_321).as_usdc(), 987_654_321);
}

#[test]
fn adding_then_subtracting_gives_the_number_back() {
    let a: FPUSDC = fpf(12.5);
    let b: FPUSDC = fpf(0.000001);
    assert_eq!(a.checked_add(b).unwrap().checked_sub(b), Some(a));
}

#[test]
fn one_is_neutral() {
    let a: FPInternal = fpf(3.25);
    let one: FPInternal = fpf(1.0);
    assert_eq!(a.checked_mul(one), Some(a));
    assert_eq!(a.checked_div(one), Some(a));
}
