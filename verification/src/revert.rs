//! Classification of revert reasons. A failed simulation carries an opaque
//! error rendering; submission reports it under one of a small closed set of
//! human-readable reasons by matching known substrings, and passes an
//! unmatched rendering through verbatim.

use vstd::prelude::*;
use vstd::string::StringSliceAdditionalSpecFns;

verus! {

/// The closed set of recognized revert reasons, plus a marker for a revert
/// whose rendering matched none of them.
#[derive(Clone, Copy, Debug, PartialEq, Eq, Structural)]
pub enum ReasonKind {
    OwnershipRestricted,
    Paused,
    TooEarly,
    InsufficientBalance,
    NotActive,
    Unclassified,
}

/// `pat` occurs in `text` starting at offset `i`.
pub open spec fn is_match_at(text: Seq<u8>, pat: Seq<u8>, i: int) -> bool {
    &&& 0 <= i
    &&& i + pat.len() <= text.len()
    &&& forall|j: int| 0 <= j < pat.len() ==> text[i + j] == pat[j]
}

/// `pat` occurs somewhere in `text`.
pub open spec fn contains_seq(text: Seq<u8>, pat: Seq<u8>) -> bool {
    exists|i: int| is_match_at(text, pat, i)
}

/// True exactly when `pat` occurs as a contiguous run of bytes in `text`.
pub fn contains_bytes(text: &[u8], pat: &[u8]) -> (r: bool)
    ensures
        r == contains_seq(text@, pat@),
{
    if pat.len() == 0 {
        proof {
            assert(is_match_at(text@, pat@, 0));
        }
        return true;
    }
    if pat.len() > text.len() {
        return false;
    }
    let last_start: usize = text.len() - pat.len();
    let mut i: usize = 0;
    loop
        invariant
            pat.len() >= 1,
            pat.len() <= text.len(),
            last_start == text.len() - pat.len(),
            i <= last_start + 1,
            forall|k: int| 0 <= k < i ==> !is_match_at(text@, pat@, k),
        decreases last_start + 1 - i,
    {
        if i > last_start {
            proof {
                assert forall|k: int| !is_match_at(text@, pat@, k) by {
                    if 0 <= k < i {
                    } else if k >= i {
                        assert(k + pat@.len() > text@.len());
                    }
                }
            }
            return false;
        }
        let mut j: usize = 0;
        let mut mismatch: bool = false;
        while j < pat.len() && !mismatch
            invariant
                pat.len() >= 1,
                i + pat.len() <= text.len(),
                j <= pat.len(),
                !mismatch ==> forall|k: int| 0 <= k < j ==> text@[i + k] == pat@[k],
                mismatch ==> !is_match_at(text@, pat@, i as int),
            decreases pat.len() - j, (if mismatch { 0int } else { 1int }),
        {
            if text[i + j] != pat[j] {
                proof {
                    assert(text@[i + j] != pat@[j as int]);
                }
                mismatch = true;
            } else {
                j += 1;
            }
        }
        if !mismatch {
            proof {
                assert(is_match_at(text@, pat@, i as int));
            }
            return true;
        }
        i += 1;
    }
}

/// The substring that marks an ownership-restricted revert.
pub open spec fn spec_owner_pat() -> Seq<u8> {
    "Ownable: caller is not the owner".spec_bytes()
}

/// The substring that marks a paused-contract revert.
pub open spec fn spec_paused_pat() -> Seq<u8> {
    "Pausable: paused".spec_bytes()
}

/// The substring that marks a time-gated revert.
pub open spec fn spec_too_early_pat() -> Seq<u8> {
    "Too early".spec_bytes()
}

/// The substring that marks an insufficient-balance revert.
pub open spec fn spec_insufficient_pat() -> Seq<u8> {
    "Insufficient balance".spec_bytes()
}

/// The substring that marks a not-active revert.
pub open spec fn spec_not_active_pat() -> Seq<u8> {
    "not active".spec_bytes()
}

/// The reason assigned to a revert rendering, by first matching known
/// substring in the order below.
pub open spec fn spec_classify(text: Seq<u8>) -> ReasonKind {
    if contains_seq(text, spec_owner_pat()) {
        ReasonKind::OwnershipRestricted
    } else if contains_seq(text, spec_paused_pat()) {
        ReasonKind::Paused
    } else if contains_seq(text, spec_too_early_pat()) {
        ReasonKind::TooEarly
    } else if contains_seq(text, spec_insufficient_pat()) {
        ReasonKind::InsufficientBalance
    } else if contains_seq(text, spec_not_active_pat()) {
        ReasonKind::NotActive
    } else {
        ReasonKind::Unclassified
    }
}

/// The reason assigned to a revert rendering given as text, through its
/// UTF-8 encoding.
pub open spec fn spec_classify_chars(text: Seq<char>) -> ReasonKind {
    spec_classify(vstd::utf8::encode_utf8(text))
}

/// Classifies a revert rendering into the closed reason set by substring
/// matching; a rendering that matches no known substring is left
/// unclassified, so the caller reports it verbatim.
pub fn classify_revert(message: &str) -> (r: ReasonKind)
    ensures
        r == spec_classify(message.spec_bytes()),
{
    let text = message.as_bytes();
    if contains_bytes(text, "Ownable: caller is not the owner".as_bytes()) {
        ReasonKind::OwnershipRestricted
    } else if contains_bytes(text, "Pausable: paused".as_bytes()) {
        ReasonKind::Paused
    } else if contains_bytes(text, "Too early".as_bytes()) {
        ReasonKind::TooEarly
    } else if contains_bytes(text, "Insufficient balance".as_bytes()) {
        ReasonKind::InsufficientBalance
    } else if contains_bytes(text, "not active".as_bytes()) {
        ReasonKind::NotActive
    } else {
        ReasonKind::Unclassified
    }
}

} // verus!
