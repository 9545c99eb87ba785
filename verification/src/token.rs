//! Structural codec for the mock credential token.
//!
//! A token is well formed when it has the shape
//! `user-<digits>.<expiry>.<signature>`: the literal prefix `user-`, one or
//! more decimal digits, a dot, a non-empty opaque expiry (which may itself
//! contain dots: it extends up to the token's last dot), a dot, and a
//! non-empty opaque signature after the last dot. Only the structure is
//! checked; expiry and signature are never validated here, by design.

use vstd::prelude::*;

use crate::error::Error;

verus! {

/// Decimal digit.
pub open spec fn is_digit_char(c: char) -> bool {
    '0' <= c && c <= '9'
}

/// Numeric value of one decimal digit.
pub open spec fn digit_val(c: char) -> nat
    recommends
        is_digit_char(c),
{
    (c as int - '0' as int) as nat
}

/// Value of a string of decimal digits, most significant digit first.
pub open spec fn digits_value(s: Seq<char>) -> nat
    decreases s.len(),
{
    if s.len() == 0 {
        0
    } else {
        digits_value(s.drop_last()) * 10 + digit_val(s.last())
    }
}

/// First index at or after `from` that does not hold a digit, or the length
/// if digits run to the end.
pub open spec fn digit_run_end(s: Seq<char>, from: int) -> int
    recommends
        0 <= from <= s.len(),
    decreases s.len() - from,
{
    if from < 0 || from >= s.len() {
        s.len() as int
    } else if is_digit_char(s[from]) {
        digit_run_end(s, from + 1)
    } else {
        from
    }
}

/// Index of the last `.` strictly before `k`, or -1 if there is none.
pub open spec fn last_dot_before(s: Seq<char>, k: int) -> int
    recommends
        k <= s.len(),
    decreases k,
{
    if k <= 0 {
        -1
    } else if s[k - 1] == '.' {
        k - 1
    } else {
        last_dot_before(s, k - 1)
    }
}

/// Where the token's digit run (after the 5-character `user-` prefix) ends.
pub open spec fn token_digits_end(s: Seq<char>) -> int {
    digit_run_end(s, 5)
}

/// Index of the token's last dot.
pub open spec fn token_last_dot(s: Seq<char>) -> int {
    last_dot_before(s, s.len() as int)
}

/// Structural well-formedness of a token: `user-` prefix, at least one
/// digit, a dot right after the digits, a non-empty expiry up to the last
/// dot, and a non-empty signature after it.
pub open spec fn token_wf(s: Seq<char>) -> bool {
    let d = token_digits_end(s);
    let j = token_last_dot(s);
    &&& s.len() > 5
    &&& s.subrange(0, 5) == "user-"@
    &&& d > 5
    &&& d < s.len()
    &&& s[d] == '.'
    &&& j > d + 1
    &&& j + 1 < s.len()
}

/// The user id carried by the token's digit run.
pub open spec fn token_user_id(s: Seq<char>) -> nat {
    digits_value(s.subrange(5, token_digits_end(s)))
}

/// The expiry segment: between the dot that ends the digits and the last dot.
pub open spec fn token_exp(s: Seq<char>) -> Seq<char> {
    s.subrange(token_digits_end(s) + 1, token_last_dot(s))
}

/// The signature segment: everything after the last dot.
pub open spec fn token_sign(s: Seq<char>) -> Seq<char> {
    s.subrange(token_last_dot(s) + 1, s.len() as int)
}

/// Exactly when parsing succeeds: the shape matches and the user id fits in
/// a `u64`.
pub open spec fn token_parses(s: Seq<char>) -> bool {
    token_wf(s) && token_user_id(s) <= u64::MAX
}

proof fn lemma_digit_run_end_bounds(s: Seq<char>, from: int)
    requires
        0 <= from <= s.len(),
    ensures
        from <= digit_run_end(s, from) <= s.len(),
    decreases s.len() - from,
{
    if from < s.len() && is_digit_char(s[from]) {
        lemma_digit_run_end_bounds(s, from + 1);
    }
}

proof fn lemma_digit_run_end_scan(s: Seq<char>, from: int, i: int)
    requires
        0 <= from <= i <= s.len(),
        forall|k: int| from <= k < i ==> is_digit_char(s[k]),
        i == s.len() || !is_digit_char(s[i]),
    ensures
        digit_run_end(s, from) == i,
    decreases i - from,
{
    if from < i {
        lemma_digit_run_end_scan(s, from + 1, i);
    }
}

proof fn lemma_last_dot_scan(s: Seq<char>, k: int, n: int)
    requires
        0 <= k <= n <= s.len(),
        forall|m: int| k <= m < n ==> s[m] != '.',
    ensures
        last_dot_before(s, n) == last_dot_before(s, k),
    decreases n - k,
{
    if k < n {
        lemma_last_dot_scan(s, k, n - 1);
    }
}

/// Whether position `i` of the token holds a decimal digit.
fn digit_at(token: &str, i: usize) -> (r: bool)
    requires
        i < token@.len(),
    ensures
        r == is_digit_char(token@[i as int]),
{
    let c = token.get_char(i);
    '0' <= c && c <= '9'
}

/// Parse a raw credential cookie value.
///
/// Succeeds exactly on structurally well-formed tokens whose digit run fits
/// in a `u64`, returning the user id and the opaque expiry and signature
/// segments; every other input is a format error. Pure: no side effects, no
/// verification of expiry or signature.
pub fn parse_token(token: &str) -> (r: Result<(u64, String, String), Error>)
    ensures
        r is Ok <==> token_parses(token@),
        r is Ok ==> r->Ok_0.0 as nat == token_user_id(token@),
        r is Ok ==> r->Ok_0.1@ == token_exp(token@),
        r is Ok ==> r->Ok_0.2@ == token_sign(token@),
        r is Err ==> r->Err_0 == Error::AuthFailTokenWrongFormat,
{
    let ghost s = token@;
    let n = token.unicode_len();
    proof {
        lemma_digit_run_end_bounds(s, if s.len() < 5 { s.len() as int } else { 5 });
    }

    // The prefix: `user-`, then at least one digit.
    if n < 6 {
        proof {
            if s.len() >= 5 {
                lemma_digit_run_end_bounds(s, 5);
            }
        }
        return Err(Error::AuthFailTokenWrongFormat);
    }
    proof {
        reveal_strlit("user-");
    }
    if !(token.get_char(0) == 'u' && token.get_char(1) == 's' && token.get_char(2) == 'e'
        && token.get_char(3) == 'r' && token.get_char(4) == '-') {
        proof {
            assert(s.subrange(0, 5) != "user-"@) by {
                if s.subrange(0, 5) == "user-"@ {
                    assert(s[0] == s.subrange(0, 5)[0]);
                    assert(s[1] == s.subrange(0, 5)[1]);
                    assert(s[2] == s.subrange(0, 5)[2]);
                    assert(s[3] == s.subrange(0, 5)[3]);
                    assert(s[4] == s.subrange(0, 5)[4]);
                }
            }
        }
        return Err(Error::AuthFailTokenWrongFormat);
    }
    assert(s.subrange(0, 5) =~= "user-"@);

    // Scan the digit run, accumulating the user id and noting overflow.
    let mut i: usize = 5;
    let mut uid: u64 = 0;
    let mut over = false;
    proof {
        assert(s.subrange(5, 5) =~= Seq::<char>::empty());
    }
    while i < n && digit_at(token, i)
        invariant
            5 <= i <= n,
            n == s.len(),
            s == token@,
            forall|k: int| 5 <= k < i ==> is_digit_char(s[k]),
            !over ==> uid as nat == digits_value(s.subrange(5, i as int)),
            over ==> digits_value(s.subrange(5, i as int)) > u64::MAX,
        decreases n - i,
    {
        let c = token.get_char(i);
        let d = (c as u32 - 48) as u64;
        assert(d as nat == digit_val(s[i as int]));
        let ghost pre = s.subrange(5, i as int);
        proof {
            assert(s.subrange(5, i + 1).drop_last() =~= pre);
            assert(s.subrange(5, i + 1).last() == s[i as int]);
        }
        if !over {
            if uid > (u64::MAX - d) / 10 {
                proof {
                    let q = ((u64::MAX - d) / 10) as int;
                    assert((u64::MAX - d) as int == 10 * q + (u64::MAX - d) as int % 10) by {
                        vstd::arithmetic::div_mod::lemma_fundamental_div_mod(
                            (u64::MAX - d) as int,
                            10,
                        );
                    }
                    assert(uid as int * 10 >= (q + 1) * 10) by (nonlinear_arith)
                        requires
                            uid as int >= q + 1,
                    ;
                    assert(digits_value(s.subrange(5, i + 1)) == uid as nat * 10 + d as nat);
                }
                over = true;
            } else {
                proof {
                    let q = ((u64::MAX - d) / 10) as int;
                    assert((u64::MAX - d) as int >= 10 * q) by {
                        vstd::arithmetic::div_mod::lemma_fundamental_div_mod(
                            (u64::MAX - d) as int,
                            10,
                        );
                    }
                    assert(uid as int * 10 <= q * 10) by (nonlinear_arith)
                        requires
                            uid as int <= q,
                    ;
                }
                uid = uid * 10 + d;
            }
        } else {
            proof {
                let v = digits_value(pre);
                assert(digits_value(s.subrange(5, i + 1)) == v * 10 + digit_val(s[i as int]));
                assert(v * 10 >= v) by (nonlinear_arith);
            }
        }
        i += 1;
    }
    proof {
        lemma_digit_run_end_scan(s, 5, i as int);
    }

    // The digit run must be non-empty and must end at a dot.
    if i == 5 || i >= n {
        return Err(Error::AuthFailTokenWrongFormat);
    }
    if token.get_char(i) != '.' {
        return Err(Error::AuthFailTokenWrongFormat);
    }

    // The last dot of the whole token; scanning down from the end stops at
    // the latest at the dot that ends the digit run.
    let mut k: usize = n;
    while token.get_char(k - 1) != '.'
        invariant
            i + 1 <= k <= n,
            n == s.len(),
            s == token@,
            s[i as int] == '.',
            i < n,
            forall|m: int| k <= m < n ==> s[m] != '.',
        decreases k,
    {
        k -= 1;
    }
    let j = k - 1;
    proof {
        lemma_last_dot_scan(s, k as int, n as int);
        assert(last_dot_before(s, k as int) == j);
        assert(token_last_dot(s) == j);
    }

    // Non-empty expiry (so a second dot exists) and non-empty signature.
    if j <= i + 1 || j + 1 >= n {
        return Err(Error::AuthFailTokenWrongFormat);
    }
    if over {
        return Err(Error::AuthFailTokenWrongFormat);
    }

    let exp = token.substring_char(i + 1, j).to_owned();
    let sign = token.substring_char(j + 1, n).to_owned();
    Ok((uid, exp, sign))
}

} // verus!
