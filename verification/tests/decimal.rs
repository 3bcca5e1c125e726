use clobster::decimal::Decimal;

#[test]
fn decimals_compare_as_numbers() {
    assert_eq!(Decimal::new(50, 2), Decimal::new(5, 1));
    assert_ne!(Decimal::new(50, 2), Decimal::new(51, 2));
    assert!(Decimal::new(-1, 0).is_lt(Decimal::zero()));
    assert!(Decimal::new(101, 2).is_gt(Decimal::one()));
    assert!(Decimal::new(10, 1).is_le(Decimal::one()));
    assert!(Decimal::new(10, 1).is_ge(Decimal::one()));
    assert!(!Decimal::new(10, 1).is_lt(Decimal::one()));
}

#[test]
fn checked_arithmetic() {
    let a = Decimal::new(15, 1);
    let b = Decimal::new(25, 2);
    assert_eq!(a.checked_add(b), Some(Decimal::new(175, 2)));
    assert_eq!(a.checked_sub(b), Some(Decimal::new(125, 2)));
    assert_eq!(a.checked_mul(b), Some(Decimal::new(375, 3)));
    assert_eq!(a.checked_div(b), Some(Decimal::new(6, 0)));
    assert_eq!(a.checked_div(Decimal::zero()), None);
    assert_eq!(a.checked_div(Decimal::new(0, 5)), None);
}

#[test]
fn adding_zero_keeps_the_other_operand_as_it_is() {
    let x = Decimal::new(1230, 3);
    let sum = Decimal::zero().checked_add(x).unwrap();
    assert_eq!((sum.mantissa(), sum.scale()), (1230, 3));
    let sum = x.checked_add(Decimal::new(0, 6)).unwrap();
    assert_eq!((sum.mantissa(), sum.scale()), (1230, 3));
}

#[test]
fn overflow_is_none() {
    let max = Decimal::try_from_i128_with_scale(79_228_162_514_264_337_593_543_950_335, 0).unwrap();
    assert_eq!(max.checked_add(Decimal::one()), None);
    assert_eq!(max.checked_mul(Decimal::two()), None);
    assert_eq!(max.neg().checked_sub(Decimal::one()), None);
}

#[test]
fn only_what_fits_is_a_decimal() {
    assert!(Decimal::try_from_i128_with_scale(1, 28).is_some());
    assert!(Decimal::try_from_i128_with_scale(1, 29).is_none());
    assert!(Decimal::try_from_i128_with_scale(79_228_162_514_264_337_593_543_950_336, 0).is_none());
    assert!(Decimal::try_from_i128_with_scale(-79_228_162_514_264_337_593_543_950_336, 0).is_none());
    assert!(Decimal::try_from_i128_with_scale(-79_228_162_514_264_337_593_543_950_335, 0).is_some());
}

#[test]
fn sign_and_magnitude() {
    let x = Decimal::new(-314, 2);
    assert_eq!(x.abs(), Decimal::new(314, 2));
    assert_eq!(x.neg(), Decimal::new(314, 2));
    assert_eq!(x.abs().neg(), x);
    assert!(Decimal::new(0, 3).is_zero());
    assert!(!x.is_zero());
    assert_eq!(x.min(Decimal::one()), x);
    assert_eq!(Decimal::one().min(x), x);
}

#[test]
fn text_of_a_decimal() {
    assert_eq!(Decimal::new(-150, 2).to_string(), "-1.50");
    assert_eq!(Decimal::new(5, 0).to_string(), "5");
    assert_eq!(Decimal::new(12340, 3).to_fixed(2), "12.34");
    assert_eq!(Decimal::new(5, 1).to_fixed(4), "0.5000");
}

#[test]
fn whole_numbers() {
    assert_eq!(Decimal::from_usize(7), Decimal::new(7, 0));
    assert_eq!(Decimal::from_i64(-7), Decimal::new(-70, 1));
    assert_eq!(Decimal::one_hundred(), Decimal::new(100, 0));
    assert_eq!(Decimal::two().mantissa(), 2);
    assert_eq!(Decimal::two().scale(), 0);
}

#[test]
fn a_text_with_places_has_its_limits() {
    let widest = Decimal::try_from_i128_with_scale(79_228_162_514_264_337_593_543_950_335, 0).unwrap();
    // up to two places every number can be written
    assert!(widest.fits_fixed(0) && widest.fits_fixed(1) && widest.fits_fixed(2));
    assert_eq!(widest.to_fixed(2), "79228162514264337593543950335.00");
    assert!(!widest.fits_fixed(3));
    assert!(!widest.fits_fixed(4));
    assert_eq!(widest.to_fixed_or_plain(4), "79228162514264337593543950335");
    // 27 digits before the point and four behind it are 31
    let fits = Decimal::try_from_i128_with_scale(999_999_999_999_999_999_999_999_999, 0).unwrap();
    assert!(fits.fits_fixed(4));
    assert_eq!(fits.to_fixed(4), "999999999999999999999999999.0000");
    assert_eq!(fits.to_fixed_or_plain(4), "999999999999999999999999999.0000");
    assert!(!fits.fits_fixed(5));
    let over = Decimal::try_from_i128_with_scale(1_000_000_000_000_000_000_000_000_000, 0).unwrap();
    assert!(!over.fits_fixed(4));
    assert_eq!(over.to_fixed_or_plain(4), "1000000000000000000000000000");
    // the scale counts: the whole part of this one has a single digit
    let fine = Decimal::try_from_i128_with_scale(79_228_162_514_264_337_593_543_950_335, 28).unwrap();
    assert!(fine.fits_fixed(28));
    assert_eq!(fine.to_fixed(28), "7.9228162514264337593543950335");
    // no more places than a number can have
    assert!(!fine.fits_fixed(29));
    assert_eq!(fine.to_fixed_or_plain(29), "7.9228162514264337593543950335");
    assert!(!Decimal::one().fits_fixed(usize::MAX));
    assert_eq!(Decimal::one().to_fixed_or_plain(usize::MAX), "1");
    assert_eq!(Decimal::one().to_fixed(28), "1.0000000000000000000000000000");
    let small = Decimal::new(-5, 1);
    assert!(small.fits_fixed(4));
    assert_eq!(small.to_fixed(4), "-0.5000");
    assert_eq!(Decimal::zero().to_fixed(3), "0.000");
    let wide = Decimal::try_from_i128_with_scale(-79_228_162_514_264_337_593_543_950_335, 1).unwrap();
    assert!(wide.fits_fixed(3));
    assert_eq!(wide.to_fixed(3), "-7922816251426433759354395033.500");
    assert!(!wide.fits_fixed(4));
    assert_eq!(wide.to_fixed_or_plain(4), "-7922816251426433759354395033.5");
}
