//! Authentication of the operator's sweep endpoint by a shared secret.
use vstd::prelude::*;
use vstd::string::StringSliceAdditionalSpecFns;
use crate::errors::{refusal, refused, AppError, ErrorKind, Refusal};

verus! {

/// The byte of `a` at `k`, or 0 past its end.
pub open spec fn byte_or_zero(a: Seq<u8>, k: int) -> u8 {
    if k < a.len() {
        a[k]
    } else {
        0
    }
}

/// Compares a presented byte string `a` with the secret `b`. Every byte of
/// the secret is compared, whatever the length of `a`, so the time taken
/// depends on the secret's length alone and does not reveal how much of a
/// guess was right, nor how long the secret is relative to the guess.
pub fn constant_time_eq(a: &[u8], b: &[u8]) -> (r: bool)
    ensures
        r == (a@ == b@),
{
    let same_len = a.len() == b.len();
    let mut acc: u8 = 0;
    let mut i: usize = 0;
    while i < b.len()
        invariant
            i <= b@.len(),
            (acc == 0) <==> (forall|k: int| 0 <= k < i ==> #[trigger] byte_or_zero(a@, k) == b@[k]),
        decreases b@.len() - i,
    {
        let x: u8 = if i < a.len() {
            a[i]
        } else {
            0
        };
        let y = b[i];
        let next = acc | (x ^ y);
        assert((next == 0) <==> (acc == 0 && x == y)) by (bit_vector)
            requires
                next == acc | (x ^ y),
        ;
        assert(x == byte_or_zero(a@, i as int));
        acc = next;
        i = i + 1;
    }
    if same_len && acc == 0 {
        assert forall|k: int| 0 <= k < a@.len() implies a@[k] == b@[k] by {
            assert(byte_or_zero(a@, k) == b@[k]);
        }
        assert(a@ =~= b@);
        true
    } else {
        false
    }
}

/// What the sweep endpoint owes: refused as a server fault while no secret
/// is configured (an empty secret would let anyone in), refused as
/// unauthorized unless the presented token (empty when absent) matches.
pub open spec fn sweep_token_decision(provided: Option<Seq<u8>>, expected: Seq<u8>) -> Result<(), Refusal> {
    let p = match provided {
        Some(p) => p,
        None => Seq::empty(),
    };
    if expected.len() == 0 {
        Err(refusal(ErrorKind::Internal, "SWEEP_TOKEN が設定されていません"@))
    } else if p != expected {
        Err(refusal(ErrorKind::Unauthorized, "sweep トークンが不正です"@))
    } else {
        Ok(())
    }
}

/// Checks the sweep token header (its text, `None` when absent or not text)
/// against the configured secret.
pub fn verify_sweep_token(provided: Option<&str>, expected: &str) -> (r: Result<(), AppError>)
    ensures
        match sweep_token_decision(
            match provided {
                Some(p) => Some(p.spec_bytes()),
                None => None,
            },
            expected.spec_bytes(),
        ) {
            Ok(()) => r is Ok,
            Err(d) => refused(r, d),
        },
{
    let e = expected.as_bytes();
    if e.len() == 0 {
        return Err(AppError::Internal("SWEEP_TOKEN が設定されていません".to_owned()));
    }
    let p: &[u8] = match provided {
        Some(p) => p.as_bytes(),
        None => "".as_bytes(),
    };
    proof {
        reveal_strlit("");
    }
    if !constant_time_eq(p, e) {
        return Err(AppError::Unauthorized("sweep トークンが不正です".to_owned()));
    }
    Ok(())
}

} // verus!
