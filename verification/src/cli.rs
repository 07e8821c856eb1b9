//! Pure argument-resolution helpers behind the command-line surface.
//!
//! The front end tokenizes the command line and reads files; everything it
//! then decides - which value wins between a positional token and a flag,
//! which endpoint a shorthand names, what a decimal amount is worth in base
//! units - is here, with exact contracts.

use crate::digits::lemma_digits_value_bound;
use crate::digits::lemma_digits_value_nonneg;
use crate::digits::lemma_first_pos_characterizes;
use crate::digits::lemma_pow10_add;
use crate::digits::lemma_pow10_pos;
use crate::digits::lemma_pow10_mono;
use crate::digits::lemma_pow10_values;
use crate::digits::find_first;
use crate::digits::parse_digit_run;
use crate::digits::pow10_u64;
use crate::digits::spec_all_digits;
use crate::digits::spec_digits_value;
use crate::digits::spec_first_pos;
use crate::digits::spec_pow10;
use crate::errors::VampError;
use vstd::slice::slice_index_get;
use vstd::prelude::*;
use vstd::string::StringSliceAdditionalSpecFns;

verus! {

/// Fetch the value following a flag: `args[index]`, unless the flag was the
/// last token.
pub fn get_arg(index: usize, args: &Vec<String>) -> (r: Result<String, VampError>)
    requires
        1 <= index <= args@.len(),
    ensures
        match r {
            Ok(s) => index < args@.len() && s@ == args@[index as int]@,
            Err(e) => index == args@.len() && e == VampError::ArgumentError,
        },
{
    if index == args.len() {
        Err(VampError::ArgumentError)
    } else {
        Ok(args[index].clone())
    }
}

/// A required value that may arrive as a positional token or as a flag
/// value: exactly one of the two must be present.
pub fn get_arg_value(token: Option<String>, arg: Option<String>) -> (r: Result<String, VampError>)
    ensures
        match r {
            Ok(s) => match (token, arg) {
                (Some(t), None) => s@ == t@,
                (None, Some(a)) => s@ == a@,
                _ => false,
            },
            Err(e) => (token is Some <==> arg is Some) && e == VampError::ArgumentError,
        },
{
    match (token, arg) {
        (Some(t), None) => Ok(t),
        (None, Some(a)) => Ok(a),
        _ => Err(VampError::ArgumentError),
    }
}

/// An optional value that may arrive as a positional token or as a flag
/// value; both at once counts as neither.
pub fn get_option_arg_value(token: Option<String>, arg: Option<String>) -> (r: Option<String>)
    ensures
        match r {
            Some(s) => match (token, arg) {
                (Some(t), None) => s@ == t@,
                (None, Some(a)) => s@ == a@,
                _ => false,
            },
            None => token is Some <==> arg is Some,
        },
{
    match (token, arg) {
        (Some(t), None) => Some(t),
        (None, Some(a)) => Some(a),
        _ => None,
    }
}

/// The endpoint a `--url` shorthand names; an unrecognized value passes
/// through unchanged.
pub open spec fn spec_resolved_url(u: Seq<char>) -> Seq<char> {
    if u == "l"@ || u == "localhost"@ {
        "http://localhost:8899"@
    } else if u == "d"@ || u == "devnet"@ {
        "https://api.devnet.solana.com"@
    } else if u == "t"@ || u == "testnet"@ {
        "https://api.testnet.solana.com"@
    } else if u == "m"@ || u == "mainnet"@ {
        "https://api.mainnet-beta.solana.com"@
    } else {
        u
    }
}

/// Resolve the `--url` option: absent means the well-known mainnet
/// endpoint; shorthands name the well-known endpoints; anything else is an
/// endpoint already.
pub fn get_url(url: Option<String>) -> (r: String)
    ensures
        match url {
            None => r@ == "https://api.mainnet-beta.solana.com"@,
            Some(u) => r@ == spec_resolved_url(u@),
        },
{
    match url {
        None => "https://api.mainnet-beta.solana.com".to_owned(),
        Some(u) => {
            if u == "l".to_owned() || u == "localhost".to_owned() {
                "http://localhost:8899".to_owned()
            } else if u == "d".to_owned() || u == "devnet".to_owned() {
                "https://api.devnet.solana.com".to_owned()
            } else if u == "t".to_owned() || u == "testnet".to_owned() {
                "https://api.testnet.solana.com".to_owned()
            } else if u == "m".to_owned() || u == "mainnet".to_owned() {
                "https://api.mainnet-beta.solana.com".to_owned()
            } else {
                u
            }
        },
    }
}

/// The token amount a decimal string denotes, in base units of one
/// billionth: digits with at most one point, at least one digit in all,
/// fractional digits beyond the ninth truncated toward zero. Nothing if the
/// shape is wrong or the amount overflows a `u64`.
pub open spec fn spec_sol_to_lamports(s: Seq<u8>) -> Option<u64> {
    let ip = match spec_first_pos(s, 46) {
        Some(i) => s.take(i),
        None => s,
    };
    let fp = match spec_first_pos(s, 46) {
        Some(i) => if 0 <= i < s.len() {
            s.subrange(i + 1, s.len() as int)
        } else {
            Seq::empty()
        },
        None => Seq::empty(),
    };
    if ip.len() + fp.len() > 0 && spec_all_digits(ip) && spec_all_digits(fp) {
        let k = if fp.len() >= 9 {
            9
        } else {
            fp.len() as int
        };
        let v = spec_digits_value(ip) * 1000000000 + spec_digits_value(fp.take(k)) * spec_pow10(
            (9 - k) as nat,
        );
        if v <= u64::MAX {
            Some(v as u64)
        } else {
            None
        }
    } else {
        None
    }
}

/// Convert a decimal token amount (`1.5`) to base units (`1500000000`),
/// truncating toward zero, exactly as the fixed scale of one billion
/// demands.
#[verifier::loop_isolation(false)]
pub fn parse_sol_amount(s: &str) -> (r: Result<u64, VampError>)
    ensures
        match r {
            Ok(v) => spec_sol_to_lamports(s.spec_bytes()) == Some(v),
            Err(e) => spec_sol_to_lamports(s.spec_bytes()) is None && e
                == VampError::ArgumentError,
        },
{
    let b = s.as_bytes();
    let n = b.len();
    let dot = find_first(b, 46);
    let (ip_end, fp_start): (usize, usize) = match dot {
        Some(i) => {
            proof {
                lemma_first_pos_characterizes(b@, 46);
            }
            (i, i + 1)
        },
        None => (n, n),
    };
    let ghost ip = b@.take(ip_end as int);
    let ghost fp = b@.subrange(fp_start as int, n as int);
    proof {
        if spec_first_pos(b@, 46) is None {
            assert(b@.take(n as int) =~= b@);
            assert(b@.subrange(n as int, n as int) =~= Seq::<u8>::empty());
        }
    }
    if ip_end == 0 && fp_start == n {
        return Err(VampError::ArgumentError);
    }
    // integer part
    let ip_value = match parse_digit_run(b, 0, ip_end) {
        Ok(v) => v,
        Err(e) => {
            proof {
                if spec_all_digits(ip) && spec_all_digits(fp) {
                    let k: int = if fp.len() >= 9 {
                        9
                    } else {
                        fp.len() as int
                    };
                    lemma_digits_value_nonneg(ip);
                    lemma_digits_value_nonneg(fp.take(k));
                    lemma_pow10_pos((9 - k) as nat);
                    assert(spec_digits_value(ip) * 1000000000 >= spec_digits_value(ip))
                        by (nonlinear_arith)
                        requires
                            spec_digits_value(ip) >= 0,
                    ;
                    assert(spec_digits_value(fp.take(k)) * spec_pow10((9 - k) as nat) >= 0)
                        by (nonlinear_arith)
                        requires
                            spec_digits_value(fp.take(k)) >= 0,
                            spec_pow10((9 - k) as nat) >= 1,
                    ;
                }
            }
            return Err(e);
        },
    };
    // fractional part: every byte must be a digit
    let mut j: usize = fp_start;
    while j < n
        invariant
            fp_start <= j <= n,
            n == b@.len(),
            fp == b@.subrange(fp_start as int, n as int),
            spec_all_digits(fp.take(j - fp_start)),
        decreases n - j,
    {
        let c = *slice_index_get(b, j);
        proof {
            assert(fp.take(j - fp_start + 1).drop_last() =~= fp.take(j - fp_start));
            assert(fp.take(j - fp_start + 1).last() == fp[j - fp_start]);
            assert(fp[j - fp_start] == b@[j as int]);
        }
        if c < 48 || c > 57 {
            proof {
                assert(!spec_all_digits(fp));
            }
            return Err(VampError::ArgumentError);
        }
        j = j + 1;
    }
    proof {
        assert(fp.take(n - fp_start) =~= fp);
    }
    // the first nine fractional digits, scaled up to nine places
    let k: usize = if n - fp_start >= 9 {
        9
    } else {
        n - fp_start
    };
    let ghost frac9 = fp.take(k as int);
    proof {
        assert(b@.subrange(fp_start as int, (fp_start + k) as int) =~= frac9);
        lemma_digits_value_nonneg(frac9);
        lemma_digits_value_bound(frac9);
        lemma_pow10_mono(frac9.len(), 9nat);
        lemma_pow10_values();
    }
    let frac_value = match parse_digit_run(b, fp_start, fp_start + k) {
        Ok(v) => v,
        Err(_) => {
            proof {
                assert(false);
            }
            return Err(VampError::ArgumentError);
        },
    };
    let scale = pow10_u64(9 - k);
    proof {
        lemma_pow10_add(k as nat, (9 - k) as nat);
        assert(frac_value * scale <= (spec_pow10(k as nat) - 1) * spec_pow10((9 - k) as nat))
            by (nonlinear_arith)
            requires
                0 <= frac_value <= spec_pow10(k as nat) - 1,
                scale == spec_pow10((9 - k) as nat),
                scale >= 1,
        ;
        assert((spec_pow10(k as nat) - 1) * spec_pow10((9 - k) as nat) == spec_pow10(9nat)
            - spec_pow10((9 - k) as nat)) by (nonlinear_arith)
            requires
                spec_pow10(k as nat) * spec_pow10((9 - k) as nat) == spec_pow10(9nat),
        ;
        lemma_pow10_pos((9 - k) as nat);
        assert(frac_value * scale >= 0) by (nonlinear_arith)
            requires
                frac_value >= 0,
                scale >= 1,
        ;
    }
    let frac_lamports: u64 = frac_value * scale;
    let wide: u128 = (ip_value as u128) * 1000000000;
    if wide > u64::MAX as u128 || (wide as u64) > u64::MAX - frac_lamports {
        proof {
            lemma_digits_value_nonneg(ip);
        }
        return Err(VampError::ArgumentError);
    }
    Ok((wide as u64) + frac_lamports)
}

/// The lamports a withdraw amount argument denotes: an absent amount is the
/// zero sentinel, which asks for the maximum available.
pub fn sol_amount_to_lamports(amount: Option<&str>) -> (r: Result<u64, VampError>)
    ensures
        match amount {
            None => r == Ok::<u64, VampError>(0),
            Some(s) => match r {
                Ok(v) => spec_sol_to_lamports(s.spec_bytes()) == Some(v),
                Err(e) => spec_sol_to_lamports(s.spec_bytes()) is None && e
                    == VampError::ArgumentError,
            },
        },
{
    match amount {
        None => Ok(0),
        Some(s) => parse_sol_amount(s),
    }
}

} // verus!
