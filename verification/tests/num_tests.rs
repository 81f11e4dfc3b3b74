use add_channel::merge::{DomainError, PriceQuote, completion_value, default_baseline, model_value};
use add_channel::num::Decimal;
use add_channel::text::push_decimal;

fn render(d: Decimal) -> String {
    let mut v: Vec<char> = Vec::new();
    push_decimal(&mut v, d);
    v.iter().collect()
}

#[test]
fn completion_ratio_exact_quotient() {
    // 6.0 / 2.0 = 3.0
    let q = PriceQuote { input: Decimal { mantissa: 20, exp: 1 }, output: Decimal { mantissa: 60, exp: 1 } };
    let v = completion_value(&q).unwrap();
    assert_eq!(v.mantissa, 3);
    assert_eq!(v.exp, 0);
    assert_eq!(render(v), "3.0");
}

#[test]
fn completion_ratio_small_prices() {
    // 0.06 / 0.03 = 2.0
    let q = PriceQuote { input: Decimal { mantissa: 3, exp: 2 }, output: Decimal { mantissa: 6, exp: 2 } };
    let v = completion_value(&q).unwrap();
    assert_eq!(render(v), "2.0");
}

#[test]
fn model_ratio_exact_quotient() {
    // 2.0 / 2.5 = 0.8
    let q = PriceQuote { input: Decimal { mantissa: 20, exp: 1 }, output: Decimal { mantissa: 60, exp: 1 } };
    let v = model_value(&q, default_baseline()).unwrap();
    assert_eq!(v.mantissa, 8);
    assert_eq!(v.exp, 1);
    assert_eq!(render(v), "0.8");
}

#[test]
fn model_ratio_small_price() {
    // 0.03 / 2.5 = 0.012
    let q = PriceQuote { input: Decimal { mantissa: 3, exp: 2 }, output: Decimal { mantissa: 6, exp: 2 } };
    let v = model_value(&q, default_baseline()).unwrap();
    assert_eq!(render(v), "0.012");
}

#[test]
fn zero_input_price_is_rejected() {
    let q = PriceQuote { input: Decimal { mantissa: 0, exp: 0 }, output: Decimal { mantissa: 60, exp: 1 } };
    assert_eq!(completion_value(&q), Err(DomainError::ZeroInputPrice));
}

#[test]
fn zero_baseline_is_rejected() {
    let q = PriceQuote { input: Decimal { mantissa: 20, exp: 1 }, output: Decimal { mantissa: 60, exp: 1 } };
    assert_eq!(model_value(&q, Decimal { mantissa: 0, exp: 0 }), Err(DomainError::ZeroBaseline));
}

#[test]
fn non_terminating_quotient_is_rejected() {
    // 1 / 3 has no finite decimal expansion
    let q = PriceQuote { input: Decimal { mantissa: 3, exp: 0 }, output: Decimal { mantissa: 1, exp: 0 } };
    assert_eq!(completion_value(&q), Err(DomainError::UnrepresentableRatio));
}

#[test]
fn zero_output_price_is_fine() {
    let q = PriceQuote { input: Decimal { mantissa: 20, exp: 1 }, output: Decimal { mantissa: 0, exp: 0 } };
    let v = completion_value(&q).unwrap();
    assert_eq!(render(v), "0.0");
}

#[test]
fn rendering_inserts_the_point() {
    assert_eq!(render(Decimal { mantissa: 125, exp: 1 }), "12.5");
    assert_eq!(render(Decimal { mantissa: 7, exp: 0 }), "7.0");
    assert_eq!(render(Decimal { mantissa: 12, exp: 3 }), "0.012");
}
