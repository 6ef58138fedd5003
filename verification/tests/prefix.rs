use num::bigint::BigInt;
use num::rational::BigRational;
use si::base::Gram;
use si::base::Meter;
use si::integer::Integer;
use si::prefix::prefix_longform;
use si::prefix::prefix_shortform;
use si::prefix::Atto;
use si::prefix::Centi;
use si::prefix::Deca;
use si::prefix::Deci;
use si::prefix::Exa;
use si::prefix::Femto;
use si::prefix::Giga;
use si::prefix::Hecto;
use si::prefix::Kilo;
use si::prefix::Mega;
use si::prefix::Micro;
use si::prefix::Milli;
use si::prefix::Nano;
use si::prefix::Peta;
use si::prefix::Pico;
use si::prefix::Prefix;
use si::prefix::Scale;
use si::prefix::KiloScale;
use si::prefix::YoctoScale;
use si::prefix::Tera;
use si::prefix::Unity;
use si::prefix::Yocto;
use si::prefix::Yotta;
use si::prefix::Zepto;
use si::prefix::Zetta;
use si::DivisionByZero;
use si::ExactValue;
use si::IntoBase;
use si::Scalar;
use si::Unit;

fn exact(r: &BigRational) -> ExactValue {
    ExactValue::new(
        Integer::from_signed_bytes_le(r.numer().to_signed_bytes_le()),
        Integer::from_signed_bytes_le(r.denom().to_signed_bytes_le()),
    )
    .unwrap()
}

fn ratio(n: i64, d: i64) -> BigRational {
    let d = if d == 0 { 1 } else { d };
    BigRational::new(BigInt::from(n), BigInt::from(d))
}

fn meter(n: i64, d: i64) -> Meter {
    Meter::new(ExactValue::from_parts(n, d))
}

fn kilometer(n: i64, d: i64) -> Kilo<Meter> {
    Kilo::<Meter>::new(ExactValue::from_parts(n, d))
}

fn millimeter(n: i64, d: i64) -> Milli<Meter> {
    Milli::<Meter>::new(ExactValue::from_parts(n, d))
}

fn yotta_and_back(n: i64, d: i64) -> bool {
    Yotta::<Meter>::from(meter(n, d)).base() == meter(n, d)
}

#[test]
fn test_yotta_from_meter_and_back() {
    quickcheck::quickcheck(yotta_and_back as fn(i64, i64) -> bool);
}

fn zetta_and_back(n: i64, d: i64) -> bool {
    Zetta::<Meter>::from(meter(n, d)).base() == meter(n, d)
}

#[test]
fn test_zetta_from_meter_and_back() {
    quickcheck::quickcheck(zetta_and_back as fn(i64, i64) -> bool);
}

fn exa_and_back(n: i64, d: i64) -> bool {
    Exa::<Meter>::from(meter(n, d)).base() == meter(n, d)
}

#[test]
fn test_exa_from_meter_and_back() {
    quickcheck::quickcheck(exa_and_back as fn(i64, i64) -> bool);
}

fn peta_and_back(n: i64, d: i64) -> bool {
    Peta::<Meter>::from(meter(n, d)).base() == meter(n, d)
}

#[test]
fn test_peta_from_meter_and_back() {
    quickcheck::quickcheck(peta_and_back as fn(i64, i64) -> bool);
}

fn tera_and_back(n: i64, d: i64) -> bool {
    Tera::<Meter>::from(meter(n, d)).base() == meter(n, d)
}

#[test]
fn test_tera_from_meter_and_back() {
    quickcheck::quickcheck(tera_and_back as fn(i64, i64) -> bool);
}

fn giga_and_back(n: i64, d: i64) -> bool {
    Giga::<Meter>::from(meter(n, d)).base() == meter(n, d)
}

#[test]
fn test_giga_from_meter_and_back() {
    quickcheck::quickcheck(giga_and_back as fn(i64, i64) -> bool);
}

fn mega_and_back(n: i64, d: i64) -> bool {
    Mega::<Meter>::from(meter(n, d)).base() == meter(n, d)
}

#[test]
fn test_mega_from_meter_and_back() {
    quickcheck::quickcheck(mega_and_back as fn(i64, i64) -> bool);
}

fn kilo_and_back(n: i64, d: i64) -> bool {
    Kilo::<Meter>::from(meter(n, d)).base() == meter(n, d)
}

#[test]
fn test_kilo_from_meter_and_back() {
    quickcheck::quickcheck(kilo_and_back as fn(i64, i64) -> bool);
}

fn hecto_and_back(n: i64, d: i64) -> bool {
    Hecto::<Meter>::from(meter(n, d)).base() == meter(n, d)
}

#[test]
fn test_hecto_from_meter_and_back() {
    quickcheck::quickcheck(hecto_and_back as fn(i64, i64) -> bool);
}

fn deca_and_back(n: i64, d: i64) -> bool {
    Deca::<Meter>::from(meter(n, d)).base() == meter(n, d)
}

#[test]
fn test_deka_from_meter_and_back() {
    quickcheck::quickcheck(deca_and_back as fn(i64, i64) -> bool);
}

fn deci_and_back(n: i64, d: i64) -> bool {
    Deci::<Meter>::from(meter(n, d)).base() == meter(n, d)
}

#[test]
fn test_deci_from_meter_and_back() {
    quickcheck::quickcheck(deci_and_back as fn(i64, i64) -> bool);
}

fn centi_and_back(n: i64, d: i64) -> bool {
    Centi::<Meter>::from(meter(n, d)).base() == meter(n, d)
}

#[test]
fn test_centi_from_meter_and_back() {
    quickcheck::quickcheck(centi_and_back as fn(i64, i64) -> bool);
}

fn milli_and_back(n: i64, d: i64) -> bool {
    Milli::<Meter>::from(meter(n, d)).base() == meter(n, d)
}

#[test]
fn test_milli_from_meter_and_back() {
    quickcheck::quickcheck(milli_and_back as fn(i64, i64) -> bool);
}

fn micro_and_back(n: i64, d: i64) -> bool {
    Micro::<Meter>::from(meter(n, d)).base() == meter(n, d)
}

#[test]
fn test_micro_from_meter_and_back() {
    quickcheck::quickcheck(micro_and_back as fn(i64, i64) -> bool);
}

fn nano_and_back(n: i64, d: i64) -> bool {
    Nano::<Meter>::from(meter(n, d)).base() == meter(n, d)
}

#[test]
fn test_nano_from_meter_and_back() {
    quickcheck::quickcheck(nano_and_back as fn(i64, i64) -> bool);
}

fn pico_and_back(n: i64, d: i64) -> bool {
    Pico::<Meter>::from(meter(n, d)).base() == meter(n, d)
}

#[test]
fn test_pico_from_meter_and_back() {
    quickcheck::quickcheck(pico_and_back as fn(i64, i64) -> bool);
}

fn femto_and_back(n: i64, d: i64) -> bool {
    Femto::<Meter>::from(meter(n, d)).base() == meter(n, d)
}

#[test]
fn test_femto_from_meter_and_back() {
    quickcheck::quickcheck(femto_and_back as fn(i64, i64) -> bool);
}

fn atto_and_back(n: i64, d: i64) -> bool {
    Atto::<Meter>::from(meter(n, d)).base() == meter(n, d)
}

#[test]
fn test_atto_from_meter_and_back() {
    quickcheck::quickcheck(atto_and_back as fn(i64, i64) -> bool);
}

fn zepto_and_back(n: i64, d: i64) -> bool {
    Zepto::<Meter>::from(meter(n, d)).base() == meter(n, d)
}

#[test]
fn test_zepto_from_meter_and_back() {
    quickcheck::quickcheck(zepto_and_back as fn(i64, i64) -> bool);
}

fn yocto_and_back(n: i64, d: i64) -> bool {
    Yocto::<Meter>::from(meter(n, d)).base() == meter(n, d)
}

#[test]
fn test_yocto_from_meter_and_back() {
    quickcheck::quickcheck(yocto_and_back as fn(i64, i64) -> bool);
}

#[test]
fn round_trip_on_chosen_values() {
    assert!(kilo_and_back(1, 3));
    assert!(milli_and_back(-7, 11));
    assert!(yotta_and_back(i64::MAX, i64::MIN));
    assert!(yocto_and_back(0, 1));
    assert!(Kilo::<Meter>::from(meter(1, 3)).base().value() == ExactValue::from_parts(1, 3));
}

#[test]
fn prefix_has_right_shortform() {
    assert_eq!(Yotta::<Meter>::shortform(), "Ym");
    assert_eq!(Zetta::<Meter>::shortform(), "Zm");
    assert_eq!(Exa::<Meter>::shortform(), "Em");
    assert_eq!(Peta::<Meter>::shortform(), "Pm");
    assert_eq!(Tera::<Meter>::shortform(), "Tm");
    assert_eq!(Giga::<Meter>::shortform(), "Gm");
    assert_eq!(Mega::<Meter>::shortform(), "Mm");
    assert_eq!(Kilo::<Meter>::shortform(), "km");
    assert_eq!(Hecto::<Meter>::shortform(), "hm");
    assert_eq!(Deca::<Meter>::shortform(), "dam");
    assert_eq!(Deci::<Meter>::shortform(), "dm");
    assert_eq!(Centi::<Meter>::shortform(), "cm");
    assert_eq!(Milli::<Meter>::shortform(), "mm");
    assert_eq!(Micro::<Meter>::shortform(), "\u{3bc}m");
    assert_eq!(Nano::<Meter>::shortform(), "nm");
    assert_eq!(Pico::<Meter>::shortform(), "pm");
    assert_eq!(Femto::<Meter>::shortform(), "fm");
    assert_eq!(Atto::<Meter>::shortform(), "am");
    assert_eq!(Zepto::<Meter>::shortform(), "zm");
    assert_eq!(Yocto::<Meter>::shortform(), "ym");
    assert_eq!(Kilo::<Gram>::shortform(), "kg");
}

#[test]
fn prefix_has_right_longform() {
    assert_eq!(Yotta::<Meter>::longform(), "yottameter");
    assert_eq!(Zetta::<Meter>::longform(), "zettameter");
    assert_eq!(Exa::<Meter>::longform(), "exameter");
    assert_eq!(Peta::<Meter>::longform(), "petameter");
    assert_eq!(Tera::<Meter>::longform(), "terameter");
    assert_eq!(Giga::<Meter>::longform(), "gigameter");
    assert_eq!(Mega::<Meter>::longform(), "megameter");
    assert_eq!(Kilo::<Meter>::longform(), "kilometer");
    assert_eq!(Hecto::<Meter>::longform(), "hectometer");
    assert_eq!(Deca::<Meter>::longform(), "decameter");
    assert_eq!(Deci::<Meter>::longform(), "decimeter");
    assert_eq!(Centi::<Meter>::longform(), "centimeter");
    assert_eq!(Milli::<Meter>::longform(), "millimeter");
    assert_eq!(Micro::<Meter>::longform(), "micrometer");
    assert_eq!(Nano::<Meter>::longform(), "nanometer");
    assert_eq!(Pico::<Meter>::longform(), "picometer");
    assert_eq!(Femto::<Meter>::longform(), "femtometer");
    assert_eq!(Atto::<Meter>::longform(), "attometer");
    assert_eq!(Zepto::<Meter>::longform(), "zeptometer");
    assert_eq!(Yocto::<Meter>::longform(), "yoctometer");
    assert_eq!(Kilo::<Gram>::longform(), "kilogram");
}

#[test]
fn exponent_without_a_name_has_no_text() {
    assert_eq!(prefix_longform(0), "");
    assert_eq!(prefix_shortform(0), "");
    assert_eq!(prefix_longform(4), "");
    assert_eq!(prefix_shortform(-5), "");
    assert_eq!(prefix_longform(-24), "yocto");
    assert_eq!(prefix_shortform(24), "Y");
}

#[test]
fn exponents_are_those_of_the_si() {
    assert_eq!(KiloScale::exponent(), 3);
    assert_eq!(YoctoScale::exponent(), -24);
}

#[test]
fn factor_is_the_power_of_ten() {
    assert!(Kilo::<Meter>::factor() == 1000i64.into_exact());
    assert!(Hecto::<Meter>::factor() == 100i64.into_exact());
    assert!(Deca::<Meter>::factor() == 10i64.into_exact());
    assert!(Mega::<Meter>::factor() == 1_000_000i64.into_exact());
    assert!(Exa::<Meter>::factor() == 1_000_000_000_000_000_000i64.into_exact());
    assert!(Kilo::<Meter>::factor() == Kilo::<Meter>::factor());
}

#[test]
fn negative_exponent_is_one_over_the_power() {
    assert!(Deci::<Meter>::factor() == ExactValue::from_parts(1, 10));
    assert!(Centi::<Meter>::factor() == ExactValue::from_parts(1, 100));
    assert!(Milli::<Meter>::factor() == ExactValue::from_parts(1, 1000));
    assert!(Micro::<Meter>::factor() == ExactValue::from_parts(1, 1_000_000));
    assert!(Atto::<Meter>::factor() == ExactValue::from_parts(1, 1_000_000_000_000_000_000));
    // By cross-multiplication: the factor times ten to the 24 is one.
    let whole = num::pow::pow(BigInt::from(10), 24);
    let product = Meter::new(Yocto::<Meter>::factor()) * exact(&BigRational::from_integer(whole));
    assert!(product.value() == 1i64.into_exact());
}

#[test]
fn new_keeps_the_value_unscaled() {
    let v = ExactValue::from_parts(22, 7);
    assert!(Kilo::<Meter>::new(v.clone()).value() == v);
    assert!(*Kilo::<Meter>::new(v.clone()).value_ref() == v);
}

#[test]
fn from_a_number_is_not_scaled() {
    assert!(Kilo::<Meter>::from(5).value() == 5i64.into_exact());
    assert!(Milli::<Meter>::from(5u64).value() == 5i64.into_exact());
    assert!(Kilo::<Meter>::from(ExactValue::from_parts(1, 3)).value() == ExactValue::from_parts(1, 3));
    let thousand = Integer::from_signed_bytes_le(vec![0xE8, 0x03]);
    assert!(Kilo::<Meter>::from(thousand).value() == 1000i64.into_exact());
}

#[test]
fn from_a_base_divides_by_the_factor() {
    assert!(Kilo::<Meter>::from(meter(1, 1)).value() == ExactValue::from_parts(1, 1000));
    assert!(Milli::<Meter>::from(meter(1, 1)).value() == 1000i64.into_exact());
    assert!(Kilo::<Meter>::from(meter(1500, 1)).value() == ExactValue::from_parts(3, 2));
}

#[test]
fn base_multiplies_by_the_factor() {
    assert!(kilometer(3, 2).base().value() == 1500i64.into_exact());
    assert!(kilometer(3, 2).base_value() == 1500i64.into_exact());
    assert!(millimeter(3, 2).base().value() == ExactValue::from_parts(3, 2000));
    assert!(millimeter(3, 2).base_value() == ExactValue::from_parts(3, 2000));
}

fn value_is_base_over_factor(n: i64, d: i64) -> bool {
    let value = millimeter(n, d);
    let expected = exact(&(ratio(n, d) * ratio(1, 1000) / ratio(1, 1000)));
    let amount = Meter::new(value.clone().base().value()) / Milli::<Meter>::factor();
    amount.value() == expected && value.value() == expected
}

#[test]
fn value_functions_as_expected() {
    quickcheck::quickcheck(value_is_base_over_factor as fn(i64, i64) -> bool);
}

fn scale_from_kilo(n: i64, d: i64) -> bool {
    let value = kilometer(n, d);
    let expected = exact(&(ratio(n, d) * ratio(1000, 1) / ratio(1, 1000)));
    Milli::<Meter>::scale(value).value() == expected
}

#[test]
fn scale_from_kilo_works() {
    assert!(Milli::<Meter>::scale(kilometer(1, 1)).value() == 1_000_000i64.into_exact());
    assert!(Kilo::<Meter>::scale(millimeter(1, 1)).value() == ExactValue::from_parts(1, 1_000_000));
    assert!(Kilo::<Meter>::scale(meter(1, 1)).value() == ExactValue::from_parts(1, 1000));
    assert!(Kilo::<Meter>::scale(kilometer(5, 7)).value() == ExactValue::from_parts(5, 7));
    quickcheck::quickcheck(scale_from_kilo as fn(i64, i64) -> bool);
}

fn add_other(a: i64, b: i64, c: i64, d: i64) -> bool {
    let check = exact(&(ratio(a, b) * ratio(1, 1000) + ratio(c, d) * ratio(1000, 1)));
    (millimeter(a, b) + kilometer(c, d)).base().value() == check
}

#[test]
fn can_add_other() {
    assert!((kilometer(1, 2) + millimeter(1, 1)).value() == ExactValue::from_parts(500_001, 1_000_000));
    assert!((kilometer(1, 2) + kilometer(1, 3)).value() == ExactValue::from_parts(5, 6));
    assert!((kilometer(1, 2) + meter(250, 1)).value() == ExactValue::from_parts(3, 4));
    quickcheck::quickcheck(add_other as fn(i64, i64, i64, i64) -> bool);
}

fn sub_other(a: i64, b: i64, c: i64, d: i64) -> bool {
    let check = exact(&(ratio(a, b) * ratio(1, 1000) - ratio(c, d) * ratio(1000, 1)));
    (millimeter(a, b) - kilometer(c, d)).base().value() == check
}

#[test]
fn can_sub_other() {
    assert!((kilometer(1, 2) - millimeter(1, 1)).value() == ExactValue::from_parts(499_999, 1_000_000));
    assert!((kilometer(1, 2) - kilometer(1, 3)).value() == ExactValue::from_parts(1, 6));
    assert!((kilometer(1, 2) - meter(250, 1)).value() == ExactValue::from_parts(1, 4));
    quickcheck::quickcheck(sub_other as fn(i64, i64, i64, i64) -> bool);
}

#[test]
fn addition_commutes_across_scales() {
    assert!(meter(1, 3) + kilometer(2, 7) == kilometer(2, 7) + meter(1, 3));
    assert!(kilometer(2, 7) + meter(1, 3) == meter(1, 3) + kilometer(2, 7));
}

#[test]
fn same_prefix_multiplies_stored_values() {
    assert!((kilometer(2, 3) * kilometer(3, 5)).value() == ExactValue::from_parts(2, 5));
    assert!((kilometer(2, 3) / kilometer(4, 5)).value() == ExactValue::from_parts(5, 6));
}

#[test]
fn scalars_scale_the_stored_value() {
    assert!((kilometer(1, 2) * 3).value() == ExactValue::from_parts(3, 2));
    assert!((kilometer(1, 2) * ExactValue::from_parts(2, 3)).value() == ExactValue::from_parts(1, 3));
    assert!((kilometer(1, 2) / 3u16).value() == ExactValue::from_parts(1, 6));
    assert!((kilometer(1, 2) / ExactValue::from_parts(2, 3)).value() == ExactValue::from_parts(3, 4));
    assert!((kilometer(1, 2) / Integer::from_signed_bytes_le(vec![2])).value() == ExactValue::from_parts(1, 4));
}

#[test]
fn prefix_checked_div_refuses_zero() {
    assert_eq!(kilometer(1, 2).checked_div(0).err(), Some(DivisionByZero));
    assert_eq!(kilometer(1, 2).checked_div(ExactValue::from_parts(0, 3)).err(), Some(DivisionByZero));
    assert!(kilometer(1, 2).checked_div(4).unwrap().value() == ExactValue::from_parts(1, 8));
}

#[test]
fn equality_is_transitive_across_three_prefixes() {
    let a = Kilo::<Meter>::from(1_000);
    let b = Mega::<Meter>::from(1);
    let c = Milli::<Meter>::from(1_000_000_000);
    assert!(a == b);
    assert!(b == c);
    assert!(a == c);
    assert!(c == a);
    assert!(a != Mega::<Meter>::from(2));
}

#[test]
fn prefix_copy_is_equal() {
    let k = kilometer(-9, 4);
    assert!(k == k.clone());
    assert!(k.clone().value() == ExactValue::from_parts(-9, 4));
}

fn eq_other(a: i64, b: i64) -> bool {
    let value = millimeter(a, b);
    let as_kilo = Kilo::scale(value.clone());
    value == as_kilo
}

#[test]
fn can_eq_other() {
    quickcheck::quickcheck(eq_other as fn(i64, i64) -> bool);
}

fn plain(n: i64, d: i64) -> Unity<Meter> {
    Unity::<Meter>::new(ExactValue::from_parts(n, d))
}

#[test]
fn zero_exponent_behaves_as_the_base() {
    assert!(Unity::<Meter>::factor() == 1i64.into_exact());
    assert_eq!(Unity::<Meter>::longform(), "meter");
    assert_eq!(Unity::<Meter>::shortform(), "m");
    assert!(plain(3, 7).base().value() == ExactValue::from_parts(3, 7));
    assert!(Unity::<Meter>::from(meter(3, 7)).value() == ExactValue::from_parts(3, 7));
    assert!(plain(3, 7) == meter(3, 7));
    assert!(meter(3, 7) == plain(3, 7));
    assert!(plain(3, 7) != meter(7, 3));
    assert!((plain(1, 2) + meter(1, 3)).value() == (meter(1, 2) + meter(1, 3)).value());
    assert!((plain(1, 2) - meter(1, 3)).value() == (meter(1, 2) - meter(1, 3)).value());
    assert!((plain(1, 2) + kilometer(1, 3)).value() == (meter(1, 2) + kilometer(1, 3)).value());
    assert!((plain(1, 2) * 3).value() == (meter(1, 2) * 3).value());
    assert!((plain(1, 2) / 3).value() == (meter(1, 2) / 3).value());
    assert!(Unity::<Meter>::scale(kilometer(1, 2)).value() == 500i64.into_exact());
}
