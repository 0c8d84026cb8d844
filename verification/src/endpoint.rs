use vstd::prelude::*;
use vstd::string::StringExecFns;

verus! {

/// The character for one decimal digit.
pub open spec fn spec_digit_char(d: int) -> char {
    if d == 0 {
        '0'
    } else if d == 1 {
        '1'
    } else if d == 2 {
        '2'
    } else if d == 3 {
        '3'
    } else if d == 4 {
        '4'
    } else if d == 5 {
        '5'
    } else if d == 6 {
        '6'
    } else if d == 7 {
        '7'
    } else if d == 8 {
        '8'
    } else {
        '9'
    }
}

/// The decimal rendering of a natural number: most significant digit first,
/// no sign, no padding.
pub open spec fn spec_dec_str(n: nat) -> Seq<char>
    decreases n,
{
    if n < 10 {
        seq![spec_digit_char(n as int)]
    } else {
        spec_dec_str(n / 10).push(spec_digit_char((n % 10) as int))
    }
}

/// The search endpoint for one page: the fixed base for the single game this
/// crate integrates with, the page size, and the zero-based offset.
pub open spec fn spec_base_endpoint(page_size: nat, index: nat) -> Seq<char> {
    "https://api.curseforge.com/v1/mods/search?gameId=1&pageSize="@ + spec_dec_str(page_size)
        + "&index="@ + spec_dec_str(index)
}

/// The string literal for one decimal digit.
fn digit_str(d: u64) -> (r: &'static str)
    requires
        d < 10,
    ensures
        r@ =~= seq![spec_digit_char(d as int)],
{
    proof {
        reveal_strlit("0");
        reveal_strlit("1");
        reveal_strlit("2");
        reveal_strlit("3");
        reveal_strlit("4");
        reveal_strlit("5");
        reveal_strlit("6");
        reveal_strlit("7");
        reveal_strlit("8");
        reveal_strlit("9");
    }
    match d {
        0 => "0",
        1 => "1",
        2 => "2",
        3 => "3",
        4 => "4",
        5 => "5",
        6 => "6",
        7 => "7",
        8 => "8",
        _ => "9",
    }
}

/// Appends the decimal rendering of `n` to `out`.
fn push_dec_digits(out: &mut String, n: u64)
    ensures
        final(out)@ == old(out)@ + spec_dec_str(n as nat),
    decreases n,
{
    if n >= 10 {
        proof {
            assert(n / 10 < n) by (nonlinear_arith)
                requires
                    n >= 10,
            ;
        }
        push_dec_digits(out, n / 10);
        let d = n % 10;
        let ghost before = out@;
        out.append(digit_str(d));
        proof {
            assert(out@ =~= before + seq![spec_digit_char(d as int)]);
            assert(out@ =~= old(out)@ + spec_dec_str(n as nat));
        }
    } else {
        let ghost before = out@;
        out.append(digit_str(n));
        proof {
            assert(out@ =~= old(out)@ + spec_dec_str(n as nat));
        }
    }
}

/// The endpoint URL for one page request, parameterized by the page size and
/// the zero-based offset.
pub fn base_endpoint(page_size: usize, index: usize) -> (r: String)
    ensures
        r@ == spec_base_endpoint(page_size as nat, index as nat),
{
    let mut s = String::from_str("https://api.curseforge.com/v1/mods/search?gameId=1&pageSize=");
    push_dec_digits(&mut s, page_size as u64);
    s.append("&index=");
    push_dec_digits(&mut s, index as u64);
    proof {
        assert(s@ =~= spec_base_endpoint(page_size as nat, index as nat));
    }
    s
}

} // verus!
