use vstd::prelude::*;

verus! {

/// ASCII digit for a value below ten.
pub open spec fn digit(d: nat) -> u8 {
    (d + 48) as u8
}

/// Decimal rendering of `n`, most significant digit first, without leading
/// zeros; zero renders as a single `0`.
pub open spec fn decimal(n: nat) -> Seq<u8>
    decreases n,
{
    if n < 10 {
        seq![digit(n)]
    } else {
        decimal(n / 10).push(digit(n % 10))
    }
}

/// Appends the decimal digits of `n` to `out`.
pub fn push_decimal(n: u32, out: &mut Vec<u8>)
    ensures
        final(out)@ == old(out)@ + decimal(n as nat),
    decreases n,
{
    if n >= 10 {
        push_decimal(n / 10, out);
    }
    out.push((n % 10) as u8 + 48);
    proof {
        assert(decimal(n as nat) == if n < 10 { seq![digit(n as nat)] } else { decimal((n / 10) as nat).push(digit((n % 10) as nat)) });
    }
}

/// The decimal digits of `num` as ASCII text.
pub fn format_u32(num: u32) -> (r: Vec<u8>)
    ensures
        r@ == decimal(num as nat),
{
    let mut out: Vec<u8> = Vec::new();
    push_decimal(num, &mut out);
    assert(out@ =~= decimal(num as nat));
    out
}

/// A rendering has at least one digit, and starts with `0` only for zero.
pub proof fn decimal_has_no_leading_zero(n: nat)
    ensures
        decimal(n).len() >= 1,
        decimal(n)[0] == digit(0) ==> n == 0,
        forall|i: int| 0 <= i < decimal(n).len() ==> 48 <= #[trigger] decimal(n)[i] <= 57,
    decreases n,
{
    if n >= 10 {
        decimal_has_no_leading_zero(n / 10);
        assert(decimal(n)[0] == decimal(n / 10)[0]);
        assert(forall|i: int| 0 <= i < decimal(n / 10).len() ==> decimal(n)[i] == decimal(n / 10)[i]);
    }
}

/// The two bytes that end every line: carriage return, line feed.
pub open spec fn line_end() -> Seq<u8> {
    seq![13u8, 10u8]
}

/// One line for the diagnostic sink: `label`, the value in decimal, CR-LF.
pub fn value_line(label: &[u8], value: u32) -> (r: Vec<u8>)
    ensures
        r@ == label@ + decimal(value as nat) + line_end(),
{
    let mut out: Vec<u8> = Vec::new();
    let mut i: usize = 0;
    while i < label.len()
        invariant
            i <= label@.len(),
            out@ == label@.subrange(0, i as int),
        decreases label@.len() - i,
    {
        out.push(label[i]);
        i = i + 1;
        assert(out@ =~= label@.subrange(0, i as int));
    }
    assert(out@ =~= label@);
    push_decimal(value, &mut out);
    out.push(13);
    out.push(10);
    assert(out@ =~= label@ + decimal(value as nat) + line_end());
    out
}

} // verus!
