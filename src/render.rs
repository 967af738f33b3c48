use vstd::prelude::*;

verus! {

/// The character of a decimal digit.
pub open spec fn digit_char(d: nat) -> char {
    if d == 0 {
        '0'
    } else if d == 1 {
        '1'
    } else if d == 2 {
        '2'
    } else if d == 3 {
        '3'
    } else if d == 4 {
        '4'
    } else if d == 5 {
        '5'
    } else if d == 6 {
        '6'
    } else if d == 7 {
        '7'
    } else if d == 8 {
        '8'
    } else {
        '9'
    }
}

/// `n` in decimal, without leading zeros ("0" for zero).
pub open spec fn decimal(n: nat) -> Seq<char>
    decreases n,
{
    if n < 10 {
        seq![digit_char(n)]
    } else {
        decimal(n / 10).push(digit_char(n % 10))
    }
}

/// The last `width` decimal digits of `n`, zero-padded on the left.
pub open spec fn padded(n: nat, width: nat) -> Seq<char>
    decreases width,
{
    if width == 0 {
        seq![]
    } else {
        padded(n / 10, (width - 1) as nat).push(digit_char(n % 10))
    }
}

/// How many decimal digits `n` has (none for zero).
pub open spec fn digit_count(n: nat) -> nat
    decreases n,
{
    if n == 0 {
        0
    } else {
        1 + digit_count(n / 10)
    }
}

/// How many digits the minor part takes for a currency with `scale` minor
/// units in a major unit: two for cents, none for a currency without them.
pub open spec fn fraction_width(scale: nat) -> nat {
    digit_count((scale - 1) as nat)
}

/// `{major}.{minor} {code}`, the minor part zero-padded to the width that the
/// scale implies and left out, with its point, when there is none.
pub open spec fn rendered(minor_units: nat, scale: nat, code: Seq<char>) -> Seq<char> {
    let fraction = if fraction_width(scale) == 0 {
        seq![]
    } else {
        seq!['.'] + padded(minor_units % scale, fraction_width(scale))
    };
    decimal(minor_units / scale) + fraction + seq![' '] + code
}

fn digit_str(d: u128) -> (r: &'static str)
    requires
        d < 10,
    ensures
        r@ == seq![digit_char(d as nat)],
{
    proof {
        reveal_strlit("0");
        reveal_strlit("1");
        reveal_strlit("2");
        reveal_strlit("3");
        reveal_strlit("4");
        reveal_strlit("5");
        reveal_strlit("6");
        reveal_strlit("7");
        reveal_strlit("8");
        reveal_strlit("9");
    }
    if d == 0 {
        "0"
    } else if d == 1 {
        "1"
    } else if d == 2 {
        "2"
    } else if d == 3 {
        "3"
    } else if d == 4 {
        "4"
    } else if d == 5 {
        "5"
    } else if d == 6 {
        "6"
    } else if d == 7 {
        "7"
    } else if d == 8 {
        "8"
    } else {
        "9"
    }
}

/// Appends `n` in decimal.
pub(crate) fn push_decimal(out: &mut String, n: u128)
    ensures
        final(out)@ == old(out)@ + decimal(n as nat),
    decreases n,
{
    if n >= 10 {
        push_decimal(out, n / 10);
    }
    out.append(digit_str(n % 10));
}

/// Appends the last `width` decimal digits of `n`, zero-padded on the left.
pub(crate) fn push_padded(out: &mut String, n: u128, width: u32)
    ensures
        final(out)@ == old(out)@ + padded(n as nat, width as nat),
    decreases width,
{
    if width > 0 {
        push_padded(out, n / 10, width - 1);
        out.append(digit_str(n % 10));
    }
}

proof fn lemma_digit_count_at_most(n: nat)
    ensures
        digit_count(n) <= n,
    decreases n,
{
    if n > 0 {
        lemma_digit_count_at_most(n / 10);
    }
}

/// How many digits the minor part takes for a currency with `scale` minor units.
pub(crate) fn fraction_digits(scale: u16) -> (r: u32)
    requires
        scale >= 1,
    ensures
        r as nat == fraction_width(scale as nat),
{
    proof {
        lemma_digit_count_at_most((scale - 1) as nat);
    }
    let mut rest: u16 = scale - 1;
    let mut count: u32 = 0;
    while rest > 0
        invariant
            count + digit_count(rest as nat) == fraction_width(scale as nat),
            fraction_width(scale as nat) < scale,
        decreases rest,
    {
        rest = rest / 10;
        count = count + 1;
    }
    count
}

/// `{major}.{minor} {code}` for `minor_units` of a currency with `scale`
/// minor units in a major unit.
pub(crate) fn render(minor_units: u128, scale: u16, code: &str) -> (r: String)
    requires
        scale >= 1,
    ensures
        r@ == rendered(minor_units as nat, scale as nat, code@),
{
    proof {
        reveal_strlit(".");
        reveal_strlit(" ");
    }
    let ghost whole = minor_units as nat / scale as nat;
    let ghost part = minor_units as nat % scale as nat;
    let mut out = String::new();
    push_decimal(&mut out, minor_units / (scale as u128));
    assert(out@ =~= decimal(whole));
    let width = fraction_digits(scale);
    if width > 0 {
        out.append(".");
        push_padded(&mut out, minor_units % (scale as u128), width);
        assert(out@ =~= decimal(whole) + (seq!['.'] + padded(part, width as nat)));
    }
    out.append(" ");
    out.append(code);
    assert(out@ =~= rendered(minor_units as nat, scale as nat, code@));
    out
}

} // verus!
