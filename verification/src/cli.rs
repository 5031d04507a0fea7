//! Command-line arguments for a backend process.

use crate::context_size::ContextSize;
use crate::on_off::{on_off_text, OnOffModel, OnOffValue};
use crate::text::{decimal, decimal_string, signed_decimal, signed_decimal_string};
use vstd::prelude::*;
use vstd::string::*;

verus! {

/// A fractional tunable, carried as the bit pattern of its binary
/// single-precision representation. Two values are equal when their bit
/// patterns are.
#[derive(Debug, Clone, Copy, PartialEq, Eq, Structural)]
pub struct SamplingValue {
    pub bits: u32,
}

/// One argument on a command line.
#[derive(Debug, Clone, PartialEq)]
pub enum CliArg {
    /// Passed as it is.
    Text(String),
    /// A fraction, to be written with two digits after the decimal point.
    TwoDecimals(SamplingValue),
}

/// Mathematical model of [`CliArg`].
pub ghost enum CliArgModel {
    Text(Seq<char>),
    TwoDecimals(SamplingValue),
}

impl View for CliArg {
    type V = CliArgModel;

    open spec fn view(&self) -> CliArgModel {
        match *self {
            CliArg::Text(s) => CliArgModel::Text(s@),
            CliArg::TwoDecimals(v) => CliArgModel::TwoDecimals(v),
        }
    }
}

/// What a list of arguments stands for.
pub open spec fn args_view(v: Seq<CliArg>) -> Seq<CliArgModel> {
    Seq::new(v.len(), |i: int| v[i]@)
}

/// A bare flag.
pub open spec fn flag(name: Seq<char>) -> Seq<CliArgModel> {
    seq![CliArgModel::Text(name)]
}

/// A bare flag, present when the switch is set.
pub open spec fn switch(name: Seq<char>, set: bool) -> Seq<CliArgModel> {
    if set {
        flag(name)
    } else {
        Seq::empty()
    }
}

/// A flag followed by its value.
pub open spec fn flag_text(name: Seq<char>, value: Seq<char>) -> Seq<CliArgModel> {
    seq![CliArgModel::Text(name), CliArgModel::Text(value)]
}

/// A flag followed by its value, present when there is a value.
pub open spec fn opt_flag_text(name: Seq<char>, value: Option<Seq<char>>) -> Seq<CliArgModel> {
    match value {
        Some(v) => flag_text(name, v),
        None => Seq::empty(),
    }
}

/// A flag followed by a number in decimal, present when there is a number.
pub open spec fn opt_flag_number(name: Seq<char>, value: Option<int>) -> Seq<CliArgModel> {
    match value {
        Some(n) => flag_text(name, signed_decimal(n)),
        None => Seq::empty(),
    }
}

/// A flag followed by a fraction, present when there is one.
pub open spec fn opt_flag_fraction(name: Seq<char>, value: Option<SamplingValue>) -> Seq<
    CliArgModel,
> {
    match value {
        Some(v) => seq![CliArgModel::Text(name), CliArgModel::TwoDecimals(v)],
        None => Seq::empty(),
    }
}

/// A flag followed by the word of a switch, present when there is one.
pub open spec fn opt_flag_on_off(name: Seq<char>, value: Option<OnOffModel>) -> Seq<CliArgModel> {
    match value {
        Some(v) => flag_text(name, on_off_text(v)),
        None => Seq::empty(),
    }
}

/// A flag followed by the token count of a tier, present when there is one.
pub open spec fn opt_flag_tier(name: Seq<char>, value: Option<ContextSize>) -> Seq<CliArgModel> {
    match value {
        Some(t) => flag_text(name, decimal(t.spec_tokens())),
        None => Seq::empty(),
    }
}

/// Widens an optional small number.
pub open spec fn opt_int_u8(o: Option<u8>) -> Option<int> {
    match o {
        Some(n) => Some(n as int),
        None => None,
    }
}

/// Widens an optional small number.
pub open spec fn opt_int_u16(o: Option<u16>) -> Option<int> {
    match o {
        Some(n) => Some(n as int),
        None => None,
    }
}

/// Widens an optional number.
pub open spec fn opt_int_u64(o: Option<u64>) -> Option<int> {
    match o {
        Some(n) => Some(n as int),
        None => None,
    }
}

/// Appends a bare flag if the switch is set.
pub fn push_switch(out: &mut Vec<CliArg>, name: &str, set: bool)
    ensures
        args_view(final(out)@) == args_view(old(out)@) + switch(name@, set),
{
    if set {
        out.push(CliArg::Text(String::from_str(name)));
    }
    assert(args_view(out@) =~= args_view(old(out)@) + switch(name@, set));
}

/// Appends a flag and its value.
pub fn push_flag_text(out: &mut Vec<CliArg>, name: &str, value: String)
    ensures
        args_view(final(out)@) == args_view(old(out)@) + flag_text(name@, value@),
{
    out.push(CliArg::Text(String::from_str(name)));
    out.push(CliArg::Text(value));
    assert(args_view(out@) =~= args_view(old(out)@) + flag_text(name@, value@));
}

/// Appends a flag and its value if there is a value.
pub fn push_opt_text(out: &mut Vec<CliArg>, name: &str, value: &Option<String>)
    ensures
        args_view(final(out)@) == args_view(old(out)@) + opt_flag_text(
            name@,
            crate::text::opt_text_view(*value),
        ),
{
    match value {
        Some(v) => push_flag_text(out, name, v.clone()),
        None => {
            assert(args_view(out@) =~= args_view(old(out)@) + Seq::<CliArgModel>::empty());
        },
    }
}

/// Appends a flag and a number if there is a number.
pub fn push_opt_unsigned(out: &mut Vec<CliArg>, name: &str, value: Option<u64>)
    ensures
        args_view(final(out)@) == args_view(old(out)@) + opt_flag_number(
            name@,
            opt_int_u64(value),
        ),
{
    match value {
        Some(n) => push_flag_text(out, name, decimal_string(n)),
        None => {
            assert(args_view(out@) =~= args_view(old(out)@) + Seq::<CliArgModel>::empty());
        },
    }
}

/// Appends a flag and a number.
pub fn push_signed(out: &mut Vec<CliArg>, name: &str, value: i64)
    ensures
        args_view(final(out)@) == args_view(old(out)@) + flag_text(
            name@,
            signed_decimal(value as int),
        ),
{
    push_flag_text(out, name, signed_decimal_string(value));
}

/// Appends a flag and a fraction if there is one.
pub fn push_opt_fraction(out: &mut Vec<CliArg>, name: &str, value: Option<SamplingValue>)
    ensures
        args_view(final(out)@) == args_view(old(out)@) + opt_flag_fraction(name@, value),
{
    match value {
        Some(v) => {
            out.push(CliArg::Text(String::from_str(name)));
            out.push(CliArg::TwoDecimals(v));
        },
        None => {},
    }
    assert(args_view(out@) =~= args_view(old(out)@) + opt_flag_fraction(name@, value));
}

/// Appends a flag and the word of a switch if there is one.
pub fn push_opt_on_off(out: &mut Vec<CliArg>, name: &str, value: &Option<OnOffValue>)
    ensures
        args_view(final(out)@) == args_view(old(out)@) + opt_flag_on_off(
            name@,
            crate::on_off::opt_on_off_view(*value),
        ),
{
    match value {
        Some(v) => push_flag_text(out, name, v.to_text()),
        None => {
            assert(args_view(out@) =~= args_view(old(out)@) + Seq::<CliArgModel>::empty());
        },
    }
}

/// Appends a flag and the token count of a tier if there is one.
pub fn push_opt_tier(out: &mut Vec<CliArg>, name: &str, value: Option<ContextSize>)
    ensures
        args_view(final(out)@) == args_view(old(out)@) + opt_flag_tier(name@, value),
{
    match value {
        Some(t) => push_flag_text(out, name, decimal_string(t.tokens())),
        None => {
            assert(args_view(out@) =~= args_view(old(out)@) + Seq::<CliArgModel>::empty());
        },
    }
}

/// Widens an optional small number.
pub fn widen_u8(o: Option<u8>) -> (r: Option<u64>)
    ensures
        opt_int_u64(r) == opt_int_u8(o),
{
    match o {
        Some(n) => Some(n as u64),
        None => None,
    }
}

/// Widens an optional small number.
pub fn widen_u16(o: Option<u16>) -> (r: Option<u64>)
    ensures
        opt_int_u64(r) == opt_int_u16(o),
{
    match o {
        Some(n) => Some(n as u64),
        None => None,
    }
}


/// Equality of two optional values.
pub fn same_opt_u8(a: Option<u8>, b: Option<u8>) -> (r: bool)
    ensures
        r == (a == b),
{
    match (a, b) {
        (Some(x), Some(y)) => x == y,
        (None, None) => true,
        _ => false,
    }
}

/// Equality of two optional values.
pub fn same_opt_u16(a: Option<u16>, b: Option<u16>) -> (r: bool)
    ensures
        r == (a == b),
{
    match (a, b) {
        (Some(x), Some(y)) => x == y,
        (None, None) => true,
        _ => false,
    }
}

/// Equality of two optional values.
pub fn same_opt_u64(a: Option<u64>, b: Option<u64>) -> (r: bool)
    ensures
        r == (a == b),
{
    match (a, b) {
        (Some(x), Some(y)) => x == y,
        (None, None) => true,
        _ => false,
    }
}

/// Equality of two optional values.
pub fn same_opt_fraction(a: Option<SamplingValue>, b: Option<SamplingValue>) -> (r: bool)
    ensures
        r == (a == b),
{
    match (a, b) {
        (Some(x), Some(y)) => x.bits == y.bits,
        (None, None) => true,
        _ => false,
    }
}

/// Equality of two optional values.
pub fn same_opt_tier(a: Option<ContextSize>, b: Option<ContextSize>) -> (r: bool)
    ensures
        r == (a == b),
{
    match (a, b) {
        (Some(x), Some(y)) => x == y,
        (None, None) => true,
        _ => false,
    }
}

} // verus!
