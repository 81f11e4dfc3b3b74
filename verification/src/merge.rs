//! The ratio merger: derives the completion-cost and model-cost ratios for
//! the new model from its raw per-million-token prices and writes them into
//! a fetched ratio table under both model names, leaving every other entry
//! untouched.

use vstd::prelude::*;
use crate::num::{Decimal, pow10, quot_spec, quotient, lemma_quotient_exact, lemma_pow10_pos};
use crate::text::{dec_render, push_decimal, string_from_chars};
use crate::table::{
    RatioTable, entry_of, table_wf, with_entry, lemma_with_entry_same, lemma_with_entry_other,
    lemma_with_entry_wf,
};

verus! {

/// The raw prices of the model being onboarded, in dollars per million input
/// tokens and per million output tokens.
#[derive(Clone, Copy, Debug)]
pub struct PriceQuote {
    pub input: Decimal,
    pub output: Decimal,
}

impl PriceQuote {
    pub open spec fn wf(self) -> bool {
        self.input.wf() && self.output.wf()
    }
}

/// A failure of the ratio derivation itself, before anything is published.
#[derive(Clone, Copy, PartialEq, Eq, Structural, Debug)]
pub enum DomainError {
    /// The input price is zero, so the completion ratio is undefined.
    ZeroInputPrice,
    /// The reference baseline price is zero, so the model ratio is undefined.
    ZeroBaseline,
    /// A quotient has no finite decimal expansion in the supported range.
    UnrepresentableRatio,
}

/// `v` is the exact quotient `a / b` of the two decimals.
pub open spec fn is_quotient(v: Decimal, a: Decimal, b: Decimal) -> bool {
    quot_spec(a, b) == Some((v.mantissa as int, v.exp as int))
}

/// The gateway's default reference price, 2.5 dollars per million input
/// tokens: the baseline the model ratio is measured against.
pub fn default_baseline() -> (d: Decimal)
    ensures
        d.mantissa == 25,
        d.exp == 1,
{
    Decimal { mantissa: 25, exp: 1 }
}

/// The completion ratio: output price over input price. A zero input price
/// is rejected rather than divided by.
pub fn completion_value(q: &PriceQuote) -> (r: Result<Decimal, DomainError>)
    requires
        q.wf(),
    ensures
        match r {
            Ok(v) => q.input.mantissa != 0 && is_quotient(v, q.output, q.input),
            Err(e) => match e {
                DomainError::ZeroInputPrice => q.input.mantissa == 0,
                DomainError::UnrepresentableRatio => q.input.mantissa != 0 && quot_spec(
                    q.output,
                    q.input,
                ) is None,
                DomainError::ZeroBaseline => false,
            },
        },
{
    if q.input.mantissa == 0 {
        Err(DomainError::ZeroInputPrice)
    } else {
        match quotient(q.output, q.input) {
            Some(v) => Ok(v),
            None => Err(DomainError::UnrepresentableRatio),
        }
    }
}

/// The model ratio: input price over the reference baseline price. A zero
/// baseline is rejected rather than divided by.
pub fn model_value(q: &PriceQuote, baseline: Decimal) -> (r: Result<Decimal, DomainError>)
    requires
        q.wf(),
        baseline.wf(),
    ensures
        match r {
            Ok(v) => baseline.mantissa != 0 && is_quotient(v, q.input, baseline),
            Err(e) => match e {
                DomainError::ZeroBaseline => baseline.mantissa == 0,
                DomainError::UnrepresentableRatio => baseline.mantissa != 0 && quot_spec(
                    q.input,
                    baseline,
                ) is None,
                DomainError::ZeroInputPrice => false,
            },
        },
{
    if baseline.mantissa == 0 {
        Err(DomainError::ZeroBaseline)
    } else {
        match quotient(q.input, baseline) {
            Some(v) => Ok(v),
            None => Err(DomainError::UnrepresentableRatio),
        }
    }
}

/// A table after merging: the rendered value stands under both the source
/// model name and the gateway model name; nothing else moves.
pub open spec fn merged(
    t: Seq<(Seq<char>, Seq<char>)>,
    src: Seq<char>,
    gw: Seq<char>,
    v: Seq<char>,
) -> Seq<(Seq<char>, Seq<char>)> {
    with_entry(with_entry(t, src, v), gw, v)
}

/// Merges the derived value into the table under both model names.
pub fn merge_table(t: &mut RatioTable, source_name: &String, gateway_name: &String, value: Decimal)
    ensures
        final(t)@ == merged(old(t)@, source_name@, gateway_name@, dec_render(value)),
{
    let mut vc: Vec<char> = Vec::new();
    push_decimal(&mut vc, value);
    let vs = string_from_chars(&vc);
    t.set_value(source_name, &vs);
    t.set_value(gateway_name, &vs);
}

/// Law: merging never removes or alters any entry other than the two model
/// names — every pre-existing key keeps its exact value.
pub proof fn lemma_merge_preserves_others(
    t: Seq<(Seq<char>, Seq<char>)>,
    src: Seq<char>,
    gw: Seq<char>,
    v: Seq<char>,
    k: Seq<char>,
)
    requires
        k != src,
        k != gw,
    ensures
        entry_of(merged(t, src, gw, v), k) == entry_of(t, k),
{
    lemma_with_entry_other(t, src, v, k);
    lemma_with_entry_other(with_entry(t, src, v), gw, v, k);
}

/// Law: after a merge, both model names hold the same rendered value.
pub proof fn lemma_merge_sets_both(
    t: Seq<(Seq<char>, Seq<char>)>,
    src: Seq<char>,
    gw: Seq<char>,
    v: Seq<char>,
)
    ensures
        entry_of(merged(t, src, gw, v), gw) == Some(v),
        entry_of(merged(t, src, gw, v), src) == Some(v),
{
    lemma_with_entry_same(with_entry(t, src, v), gw, v);
    if src == gw {
    } else {
        lemma_with_entry_same(t, src, v);
        lemma_with_entry_other(with_entry(t, src, v), gw, v, src);
    }
}

/// Law: merging preserves the distinctness of the table's keys.
pub proof fn lemma_merge_wf(
    t: Seq<(Seq<char>, Seq<char>)>,
    src: Seq<char>,
    gw: Seq<char>,
    v: Seq<char>,
)
    requires
        table_wf(t),
    ensures
        table_wf(merged(t, src, gw, v)),
{
    lemma_with_entry_wf(t, src, v);
    lemma_with_entry_wf(with_entry(t, src, v), gw, v);
}

/// Law: for a positive input price, a successfully derived completion value
/// equals `output / input` exactly: `v * input = output * 10^v.exp`, over the
/// prices' exact rational values.
pub proof fn lemma_completion_exact(q: PriceQuote, v: Decimal)
    requires
        q.input.mantissa >= 1,
        is_quotient(v, q.output, q.input),
    ensures
        v.num() * (q.input.num() * q.output.den()) == (q.output.num() * q.input.den()) * pow10(
            v.exp as nat,
        ),
        v.exp == 0 || v.mantissa % 10 != 0,
{
    lemma_pow10_pos(q.output.exp as nat);
    assert(q.input.num() * q.output.den() >= 1) by (nonlinear_arith)
        requires
            q.input.num() >= 1,
            q.output.den() >= 1,
    ;
    lemma_quotient_exact(q.output, q.input, v);
}

/// Law: for a positive baseline, a successfully derived model value equals
/// `input / baseline` exactly.
pub proof fn lemma_model_exact(q: PriceQuote, baseline: Decimal, v: Decimal)
    requires
        baseline.mantissa >= 1,
        is_quotient(v, q.input, baseline),
    ensures
        v.num() * (baseline.num() * q.input.den()) == (q.input.num() * baseline.den()) * pow10(
            v.exp as nat,
        ),
        v.exp == 0 || v.mantissa % 10 != 0,
{
    lemma_pow10_pos(q.input.exp as nat);
    assert(baseline.num() * q.input.den() >= 1) by (nonlinear_arith)
        requires
            baseline.num() >= 1,
            q.input.den() >= 1,
    ;
    lemma_quotient_exact(q.input, baseline, v);
}

} // verus!
