//! Email address validation.
//!
//! An address is accepted exactly when it has the shape
//! `local@domain.tld`: a non-empty local part of letters, digits and
//! `. _ % + -`, one `@`, a non-empty domain of letters, digits, dots and
//! hyphens, and, after the last dot, at least two letters.

use vstd::prelude::*;
use vstd::string::StrSliceExecFns;
use crate::text::{is_digit, spec_index_of_char, spec_last_index_of_char, find_char, rfind_char};

verus! {

/// An ASCII letter.
pub open spec fn is_alpha(c: char) -> bool {
    ('a' <= c && c <= 'z') || ('A' <= c && c <= 'Z')
}

/// A character allowed before the `@`.
pub open spec fn is_local_char(c: char) -> bool {
    is_alpha(c) || is_digit(c) || c == '.' || c == '_' || c == '%' || c == '+' || c == '-'
}

/// A character allowed in the domain before its last dot.
pub open spec fn is_domain_char(c: char) -> bool {
    is_alpha(c) || is_digit(c) || c == '.' || c == '-'
}

pub open spec fn all_local(s: Seq<char>) -> bool {
    forall|i: int| 0 <= i < s.len() ==> is_local_char(s[i])
}

pub open spec fn all_domain(s: Seq<char>) -> bool {
    forall|i: int| 0 <= i < s.len() ==> is_domain_char(s[i])
}

pub open spec fn all_alpha(s: Seq<char>) -> bool {
    forall|i: int| 0 <= i < s.len() ==> is_alpha(s[i])
}

/// The shape `local@domain.tld` described at the top of this module,
/// anchored at both ends.
pub open spec fn spec_valid_email(s: Seq<char>) -> bool {
    match spec_index_of_char(s, '@', 0) {
        None => false,
        Some(a) => {
            let local = s.subrange(0, a);
            let domain = s.subrange(a + 1, s.len() as int);
            &&& local.len() >= 1
            &&& all_local(local)
            &&& match spec_last_index_of_char(domain, '.') {
                None => false,
                Some(dot) => {
                    &&& dot >= 1
                    &&& all_domain(domain.subrange(0, dot))
                    &&& domain.len() - dot - 1 >= 2
                    &&& all_alpha(domain.subrange(dot + 1, domain.len() as int))
                },
            }
        },
    }
}

fn ch_is_alpha(c: char) -> (r: bool)
    ensures
        r == is_alpha(c),
{
    ('a' <= c && c <= 'z') || ('A' <= c && c <= 'Z')
}

fn ch_is_local(c: char) -> (r: bool)
    ensures
        r == is_local_char(c),
{
    ch_is_alpha(c) || ('0' <= c && c <= '9') || c == '.' || c == '_' || c == '%' || c == '+'
        || c == '-'
}

fn ch_is_domain(c: char) -> (r: bool)
    ensures
        r == is_domain_char(c),
{
    ch_is_alpha(c) || ('0' <= c && c <= '9') || c == '.' || c == '-'
}

/// Whether the text is a well-formed email address.
#[verifier::loop_isolation(false)]
pub fn is_valid_email(email: &str) -> (r: bool)
    ensures
        r == spec_valid_email(email@),
{
    let n = email.unicode_len();
    let a = match find_char(email, '@') {
        Some(a) => a,
        None => {
            return false;
        },
    };
    if a < 1 {
        return false;
    }
    let ghost local = email@.subrange(0, a as int);
    let mut i: usize = 0;
    while i < a
        invariant
            i <= a,
            a < n,
            n == email@.len(),
            local == email@.subrange(0, a as int),
            forall|k: int| 0 <= k < i ==> is_local_char(local[k]),
        decreases a - i,
    {
        if !ch_is_local(email.get_char(i)) {
            proof {
                assert(local[i as int] == email@[i as int]);
                assert(!all_local(local));
            }
            return false;
        }
        i = i + 1;
    }
    let domain = email.substring_char(a + 1, n);
    let dn = email.unicode_len() - a - 1;
    proof {
        assert(domain@.len() == dn);
    }
    let dot = match rfind_char(domain, '.') {
        Some(dot) => dot,
        None => {
            return false;
        },
    };
    if dot < 1 {
        return false;
    }
    let ghost head = domain@.subrange(0, dot as int);
    let mut j: usize = 0;
    while j < dot
        invariant
            j <= dot,
            dot < domain@.len(),
            head == domain@.subrange(0, dot as int),
            forall|k: int| 0 <= k < j ==> is_domain_char(head[k]),
        decreases dot - j,
    {
        if !ch_is_domain(domain.get_char(j)) {
            proof {
                assert(head[j as int] == domain@[j as int]);
                assert(!all_domain(head));
            }
            return false;
        }
        j = j + 1;
    }
    if dn - dot - 1 < 2 {
        return false;
    }
    let ghost tail = domain@.subrange(dot + 1, domain@.len() as int);
    let mut k: usize = dot + 1;
    while k < dn
        invariant
            dot + 1 <= k <= dn,
            dn == domain@.len(),
            tail == domain@.subrange(dot + 1, domain@.len() as int),
            forall|t: int| dot + 1 <= t < k ==> is_alpha(domain@[t]),
        decreases dn - k,
    {
        if !ch_is_alpha(domain.get_char(k)) {
            proof {
                assert(tail[k - dot - 1] == domain@[k as int]);
                assert(!all_alpha(tail));
            }
            return false;
        }
        k = k + 1;
    }
    proof {
        assert(all_alpha(tail)) by {
            assert(forall|t: int| 0 <= t < tail.len() ==> tail[t] == domain@[dot + 1 + t]);
        }
    }
    true
}

} // verus!
