//! Decimal rendering of whole-second counts, and the `M:SS` display format.

use vstd::prelude::*;
use vstd::string::StringExecFns;

verus! {

/// The character for one decimal digit value.
pub open spec fn digit_char(d: nat) -> char {
    if d == 0 {
        '0'
    } else if d == 1 {
        '1'
    } else if d == 2 {
        '2'
    } else if d == 3 {
        '3'
    } else if d == 4 {
        '4'
    } else if d == 5 {
        '5'
    } else if d == 6 {
        '6'
    } else if d == 7 {
        '7'
    } else if d == 8 {
        '8'
    } else {
        '9'
    }
}

/// The usual decimal rendering of `n`: no sign, no leading zeros except for
/// `n == 0` itself, most significant digit first.
pub open spec fn spec_dec(n: nat) -> Seq<char>
    decreases n,
{
    if n < 10 {
        seq![digit_char(n)]
    } else {
        spec_dec(n / 10) + seq![digit_char(n % 10)]
    }
}

/// Seconds-within-minute rendering: zero-padded to two digits.
pub open spec fn spec_pad2(x: nat) -> Seq<char> {
    if x < 10 {
        seq!['0'] + spec_dec(x)
    } else {
        spec_dec(x)
    }
}

/// The `M:SS` display form of a whole-second count: minutes unbounded,
/// seconds zero-padded to two digits.
pub open spec fn spec_m_ss(total_secs: nat) -> Seq<char> {
    spec_dec(total_secs / 60) + seq![':'] + spec_pad2(total_secs % 60)
}

fn digit_str(d: u64) -> (r: &'static str)
    requires
        d < 10,
    ensures
        r@ == seq![digit_char(d as nat)],
{
    match d {
        0u64 => {
            proof {
                reveal_strlit("0");
                assert("0"@ =~= seq![digit_char(0)]);
            }
            "0"
        },
        1u64 => {
            proof {
                reveal_strlit("1");
                assert("1"@ =~= seq![digit_char(1)]);
            }
            "1"
        },
        2u64 => {
            proof {
                reveal_strlit("2");
                assert("2"@ =~= seq![digit_char(2)]);
            }
            "2"
        },
        3u64 => {
            proof {
                reveal_strlit("3");
                assert("3"@ =~= seq![digit_char(3)]);
            }
            "3"
        },
        4u64 => {
            proof {
                reveal_strlit("4");
                assert("4"@ =~= seq![digit_char(4)]);
            }
            "4"
        },
        5u64 => {
            proof {
                reveal_strlit("5");
                assert("5"@ =~= seq![digit_char(5)]);
            }
            "5"
        },
        6u64 => {
            proof {
                reveal_strlit("6");
                assert("6"@ =~= seq![digit_char(6)]);
            }
            "6"
        },
        7u64 => {
            proof {
                reveal_strlit("7");
                assert("7"@ =~= seq![digit_char(7)]);
            }
            "7"
        },
        8u64 => {
            proof {
                reveal_strlit("8");
                assert("8"@ =~= seq![digit_char(8)]);
            }
            "8"
        },
        _ => {
            proof {
                reveal_strlit("9");
                assert("9"@ =~= seq![digit_char(9)]);
            }
            "9"
        },
    }
}

/// Renders `n` in decimal.
pub fn u64_to_dec(n: u64) -> (r: String)
    ensures
        r@ == spec_dec(n as nat),
    decreases n,
{
    if n < 10 {
        digit_str(n).to_owned()
    } else {
        proof {
            assert(n / 10 < n) by (nonlinear_arith)
                requires
                    10 <= n,
            ;
        }
        let mut s = u64_to_dec(n / 10);
        s.append(digit_str(n % 10));
        s
    }
}

/// Renders a whole-second count as `M:SS`.
pub fn format_m_ss(total_secs: u64) -> (r: String)
    ensures
        r@ == spec_m_ss(total_secs as nat),
{
    let mins = total_secs / 60;
    let secs = total_secs % 60;
    let mut out = u64_to_dec(mins);
    proof {
        reveal_strlit(":");
        assert(":"@ =~= seq![':']);
        reveal_strlit("0");
        assert("0"@ =~= seq!['0']);
    }
    out.append(":");
    if secs < 10 {
        out.append("0");
    }
    let tail = u64_to_dec(secs);
    out.append(tail.as_str());
    proof {
        assert(out@ =~= spec_m_ss(total_secs as nat));
    }
    out
}

} // verus!
