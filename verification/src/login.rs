//! The mock login check: a hardcoded credential pair that mints the demo
//! token. The HTTP handler around it parses the request body and sets the
//! credential cookie; the decision and the minted token live here.

use vstd::prelude::*;

use crate::error::Error;
use crate::token::{
    digit_run_end, digits_value, last_dot_before, token_exp, token_parses, token_sign,
    token_user_id,
};

verus! {

/// Compare two strings by value.
fn str_eq(a: &str, b: &str) -> (r: bool)
    ensures
        r == (a@ == b@),
{
    let n = a.unicode_len();
    if n != b.unicode_len() {
        return false;
    }
    let mut i: usize = 0;
    while i < n
        invariant
            i <= n,
            n == a@.len(),
            a@.len() == b@.len(),
            forall|k: int| 0 <= k < i ==> a@[k] == b@[k],
        decreases n - i,
    {
        if a.get_char(i) != b.get_char(i) {
            return false;
        }
        i += 1;
    }
    proof {
        assert(a@ =~= b@);
    }
    true
}

/// Validate the mock credentials and mint the credential token.
///
/// Succeeds exactly for the hardcoded demo pair, returning the token that
/// the credential cookie is then set to; any other pair is a login failure.
pub fn check_login(username: &str, pwd: &str) -> (r: Result<String, Error>)
    ensures
        r is Ok <==> (username@ == "demo1"@ && pwd@ == "welcome"@),
        r matches Ok(tok) ==> tok@ == "user-1.exp.sign"@,
        r matches Err(e) ==> e == Error::LoginFail,
{
    if str_eq(username, "demo1") && str_eq(pwd, "welcome") {
        Ok("user-1.exp.sign".to_owned())
    } else {
        Err(Error::LoginFail)
    }
}

/// Law: the minted login token round-trips through the token codec — it is
/// structurally well formed, parses, and carries user id 1 with expiry
/// `exp` and signature `sign`.
pub proof fn lemma_login_token_parses()
    ensures
        token_parses("user-1.exp.sign"@),
        token_user_id("user-1.exp.sign"@) == 1,
        token_exp("user-1.exp.sign"@) == "exp"@,
        token_sign("user-1.exp.sign"@) == "sign"@,
{
    reveal_strlit("user-1.exp.sign");
    reveal_strlit("user-");
    reveal_strlit("exp");
    reveal_strlit("sign");
    let s = "user-1.exp.sign"@;
    assert(s.subrange(0, 5) =~= "user-"@);
    assert(digit_run_end(s, 6) == 6);
    assert(digit_run_end(s, 5) == 6);
    assert(last_dot_before(s, 11) == 10);
    assert(last_dot_before(s, 12) == 10);
    assert(last_dot_before(s, 13) == 10);
    assert(last_dot_before(s, 14) == 10);
    assert(last_dot_before(s, 15) == 10);
    assert(digits_value(Seq::<char>::empty()) == 0);
    assert(s.subrange(5, 6).drop_last() =~= Seq::<char>::empty());
    assert(s.subrange(5, 6).last() == '1');
    assert(digits_value(s.subrange(5, 6)) == 1);
    assert(s.subrange(7, 10) =~= "exp"@);
    assert(s.subrange(11, 15) =~= "sign"@);
}

} // verus!
