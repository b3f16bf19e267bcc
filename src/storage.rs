//! Naming of stored magazine issues: the object key of an issue, the bucket
//! of a region, and the issue number a stored key carries.
use vstd::prelude::*;
use crate::value::{append_nat, nat_text, same_text};

verus! {

broadcast use vstd::seq::group_seq_axioms;

/// The object key of issue `n`: `nnm_issues/issue_<n>.pdf`.
pub open spec fn issue_key_text(n: nat) -> Seq<char> {
    "nnm_issues/issue_"@ + nat_text(n) + ".pdf"@
}

pub fn issue_key(issue_number: usize) -> (r: String)
    ensures
        r@ == issue_key_text(issue_number as nat),
{
    let mut s = String::from_str("nnm_issues/issue_");
    append_nat(&mut s, issue_number as u64);
    s.append(".pdf");
    s
}

/// The bucket holding the issues in `region`, for the two regions served.
pub open spec fn bucket_of(region: Option<Seq<char>>) -> Option<Seq<char>> {
    match region {
        Some(r) => if r == "us-east-1"@ {
            Some("nonothingissues1"@)
        } else if r == "us-east-2"@ {
            Some("nonothingissues"@)
        } else {
            None
        },
        None => None,
    }
}

pub open spec fn opt_text(s: Option<&str>) -> Option<Seq<char>> {
    match s {
        Some(t) => Some(t@),
        None => None,
    }
}

pub fn bucket_for_region(region: Option<&str>) -> (r: Option<&'static str>)
    ensures
        r matches Some(b) ==> bucket_of(opt_text(region)) == Some(b@),
        r is None <==> bucket_of(opt_text(region)) is None,
{
    match region {
        Some(reg) => {
            if same_text(reg, "us-east-1") {
                Some("nonothingissues1")
            } else if same_text(reg, "us-east-2") {
                Some("nonothingissues")
            } else {
                None
            }
        },
        None => None,
    }
}

// ---------------------------------------------------------------------------
// Reading an issue number out of a key
// ---------------------------------------------------------------------------
pub open spec fn occurs_at(s: Seq<char>, pat: Seq<char>, i: int) -> bool {
    0 <= i && i + pat.len() <= s.len() && s.subrange(i, i + pat.len()) == pat
}

pub open spec fn is_first_occurrence(s: Seq<char>, pat: Seq<char>, i: int) -> bool {
    occurs_at(s, pat, i) && forall|j: int| 0 <= j < i ==> !occurs_at(s, pat, j)
}

/// `s` from the first occurrence of `pat` on, or all of `s` without one.
pub open spec fn from_first(s: Seq<char>, pat: Seq<char>) -> Seq<char> {
    if exists|i: int| is_first_occurrence(s, pat, i) {
        let i = choose|i: int| is_first_occurrence(s, pat, i);
        s.subrange(i, s.len() as int)
    } else {
        s
    }
}

pub open spec fn starts_with(s: Seq<char>, pat: Seq<char>) -> bool {
    pat.len() <= s.len() && s.subrange(0, pat.len() as int) == pat
}

pub open spec fn ends_with(s: Seq<char>, pat: Seq<char>) -> bool {
    pat.len() <= s.len() && s.subrange(s.len() - pat.len(), s.len() as int) == pat
}

/// `s` with every leading repetition of a non-empty `pat` removed.
pub open spec fn trim_start_all(s: Seq<char>, pat: Seq<char>) -> Seq<char>
    decreases s.len(),
{
    if pat.len() > 0 && starts_with(s, pat) {
        trim_start_all(s.subrange(pat.len() as int, s.len() as int), pat)
    } else {
        s
    }
}

/// `s` with every trailing repetition of a non-empty `pat` removed.
pub open spec fn trim_end_all(s: Seq<char>, pat: Seq<char>) -> Seq<char>
    decreases s.len(),
{
    if pat.len() > 0 && ends_with(s, pat) {
        trim_end_all(s.subrange(0, s.len() - pat.len()), pat)
    } else {
        s
    }
}

pub open spec fn is_digit(c: char) -> bool {
    '0' <= c && c <= '9'
}

pub open spec fn digit_of(c: char) -> nat {
    (c as nat - '0' as nat) as nat
}

/// The value of the decimal digits `d`, or `None` when one is not a digit or
/// the value exceeds `usize::MAX`.
pub open spec fn digits_value(d: Seq<char>) -> Option<nat>
    decreases d.len(),
{
    if d.len() == 0 {
        Some(0)
    } else {
        match digits_value(d.drop_last()) {
            Some(v) => if is_digit(d.last()) && v * 10 + digit_of(d.last()) <= usize::MAX {
                Some(v * 10 + digit_of(d.last()))
            } else {
                None
            },
            None => None,
        }
    }
}

/// A `usize` written in decimal, with an optional leading `+`.
pub open spec fn parse_usize(t: Seq<char>) -> Option<nat> {
    let d = if t.len() > 0 && t[0] == '+' {
        t.drop_first()
    } else {
        t
    };
    if d.len() == 0 {
        None
    } else {
        digits_value(d)
    }
}

/// The issue number a stored key names: the text after the first `issue_`,
/// stripped of repeated `issue_` and `.pdf`, read as a number. A key that
/// does not end in `.pdf` counts as issue 0; `None` when the number is not
/// one.
pub open spec fn key_issue_number(key: Seq<char>) -> Option<nat> {
    let k = from_first(key, "issue_"@);
    if !ends_with(k, ".pdf"@) {
        Some(0)
    } else {
        parse_usize(trim_end_all(trim_start_all(k, "issue_"@), ".pdf"@))
    }
}

fn occurs_here(s: &str, pat: &str, i: usize) -> (r: bool)
    requires
        i <= s@.len(),
    ensures
        r == occurs_at(s@, pat@, i as int),
{
    let n = s.unicode_len();
    let m = pat.unicode_len();
    if m > n - i {
        return false;
    }
    let part = s.substring_char(i, i + m);
    same_text(part, pat)
}

fn suffix_from_first<'a>(s: &'a str, pat: &str) -> (r: &'a str)
    ensures
        r@ == from_first(s@, pat@),
{
    let n = s.unicode_len();
    let mut i: usize = 0;
    while i < n
        invariant
            n == s@.len(),
            i <= n,
            forall|j: int| 0 <= j < i ==> !occurs_at(s@, pat@, j),
        decreases n - i,
    {
        if occurs_here(s, pat, i) {
            proof {
                lemma_first_occurrence(s@, pat@, i as int);
            }
            return s.substring_char(i, n);
        }
        i = i + 1;
    }
    if occurs_here(s, pat, n) {
        proof {
            lemma_first_occurrence(s@, pat@, n as int);
        }
        return s.substring_char(n, n);
    }
    proof {
        assert forall|j: int| !is_first_occurrence(s@, pat@, j) by {
            if 0 <= j && j <= n {
                assert(!occurs_at(s@, pat@, j));
            }
        }
    }
    s
}

proof fn lemma_first_occurrence(s: Seq<char>, pat: Seq<char>, i: int)
    requires
        is_first_occurrence(s, pat, i),
    ensures
        from_first(s, pat) == s.subrange(i, s.len() as int),
{
    let c = choose|c: int| is_first_occurrence(s, pat, c);
    if c < i {
        assert(!occurs_at(s, pat, c));
    } else if i < c {
        assert(!occurs_at(s, pat, i));
    }
}

fn trimmed_start<'a>(s: &'a str, pat: &str) -> (r: &'a str)
    ensures
        r@ == trim_start_all(s@, pat@),
{
    let m = pat.unicode_len();
    if m == 0 {
        return s;
    }
    let mut rest = s;
    while rest.unicode_len() >= m && occurs_here(rest, pat, 0)
        invariant
            m == pat@.len(),
            m > 0,
            trim_start_all(rest@, pat@) == trim_start_all(s@, pat@),
        decreases rest@.len(),
    {
        let n = rest.unicode_len();
        rest = rest.substring_char(m, n);
    }
    rest
}

fn trimmed_end<'a>(s: &'a str, pat: &str) -> (r: &'a str)
    ensures
        r@ == trim_end_all(s@, pat@),
{
    let m = pat.unicode_len();
    if m == 0 {
        return s;
    }
    let mut rest = s;
    while rest.unicode_len() >= m && occurs_here(rest, pat, rest.unicode_len() - m)
        invariant
            m == pat@.len(),
            m > 0,
            trim_end_all(rest@, pat@) == trim_end_all(s@, pat@),
        decreases rest@.len(),
    {
        let n = rest.unicode_len();
        rest = rest.substring_char(0, n - m);
    }
    rest
}

/// Reads a `usize` written in decimal, with an optional leading `+`.
pub fn parse_number(t: &str) -> (r: Option<usize>)
    ensures
        r matches Some(v) ==> parse_usize(t@) == Some(v as nat),
        r is None <==> parse_usize(t@) is None,
{
    let n = t.unicode_len();
    let mut i: usize = 0;
    if n > 0 && t.get_char(0) == '+' {
        i = 1;
    }
    let ghost d = if t@.len() > 0 && t@[0] == '+' {
        t@.drop_first()
    } else {
        t@
    };
    assert(d =~= t@.subrange(i as int, n as int));
    if i == n {
        return None;
    }
    let start = i;
    let mut value: usize = 0;
    while i < n
        invariant
            n == t@.len(),
            start <= i <= n,
            d == t@.subrange(start as int, n as int),
            parse_usize(t@) == digits_value(d),
            digits_value(t@.subrange(start as int, i as int)) == Some(value as nat),
        decreases n - i,
    {
        let c = t.get_char(i);
        proof {
            assert(t@.subrange(start as int, i as int + 1).drop_last() =~= t@.subrange(start as int, i as int));
            assert(t@.subrange(start as int, i as int + 1).last() == c);
        }
        if c < '0' || c > '9' {
            proof {
                assert(!is_digit(c));
                assert(digits_value(t@.subrange(start as int, i as int + 1)) is None);
                assert(d.subrange(0, (i - start) as int + 1) =~= t@.subrange(start as int, i as int + 1));
                lemma_digits_none_extends(d, (i - start) as int + 1);
                assert(digits_value(d) is None);
                assert(d.len() > 0);
            }
            return None;
        }
        let digit = (c as u32 - '0' as u32) as usize;
        if value > (usize::MAX - digit) / 10 {
            proof {
                assert(value * 10 + digit > usize::MAX) by (nonlinear_arith)
                    requires value > (usize::MAX - digit) / 10, digit <= 9;
                assert(digit as nat == digit_of(c));
                assert(d.subrange(0, (i - start) as int + 1) =~= t@.subrange(start as int, i as int + 1));
                lemma_digits_none_extends(d, (i - start) as int + 1);
            }
            return None;
        }
        proof {
            assert(value * 10 + digit <= usize::MAX) by (nonlinear_arith)
                requires value <= (usize::MAX - digit) / 10, digit <= 9;
        }
        value = value * 10 + digit;
        i = i + 1;
    }
    assert(t@.subrange(start as int, n as int) =~= d);
    Some(value)
}

/// Once a prefix of `d` is not a number within range, neither is `d`.
proof fn lemma_digits_none_extends(d: Seq<char>, k: int)
    requires
        0 <= k <= d.len(),
        digits_value(d.subrange(0, k)) is None,
    ensures
        digits_value(d) is None,
    decreases d.len() - k,
{
    if k < d.len() {
        assert(d.subrange(0, k + 1).drop_last() =~= d.subrange(0, k));
        lemma_digits_none_extends(d, k + 1);
    } else {
        assert(d.subrange(0, k) =~= d);
    }
}

/// The issue number `key` names (see [`key_issue_number`]).
pub fn issue_number_of_key(key: &str) -> (r: Option<usize>)
    ensures
        r matches Some(v) ==> key_issue_number(key@) == Some(v as nat),
        r is None <==> key_issue_number(key@) is None,
{
    let k = suffix_from_first(key, "issue_");
    let n = k.unicode_len();
    let m = ".pdf".unicode_len();
    let is_pdf = n >= m && occurs_here(k, ".pdf", n - m);
    if !is_pdf {
        return Some(0);
    }
    let t = trimmed_end(trimmed_start(k, "issue_"), ".pdf");
    parse_number(t)
}

/// Why no latest issue could be named.
#[derive(Debug)]
pub enum IssueListError {
    /// The bucket holds no objects.
    NoIssues,
    /// A key ends in `.pdf` without a readable issue number.
    MalformedKey(String),
}

/// Every key names an issue number.
pub open spec fn all_numbered(keys: Seq<String>) -> bool {
    forall|i: int| 0 <= i < keys.len() ==> (#[trigger] key_issue_number(keys[i]@)) is Some
}

/// The largest issue number the keys name (0 for none).
pub open spec fn max_issue(keys: Seq<String>) -> nat
    decreases keys.len(),
{
    if keys.len() == 0 {
        0
    } else {
        let m = max_issue(keys.drop_last());
        let v = key_issue_number(keys.last()@).unwrap_or(0);
        if v > m {
            v
        } else {
            m
        }
    }
}

/// The number of the latest issue among the stored `keys`.
pub fn latest_issue_number(keys: &Vec<String>) -> (r: Result<usize, IssueListError>)
    ensures
        r is Ok <==> keys@.len() > 0 && all_numbered(keys@),
        r matches Ok(m) ==> m as nat == max_issue(keys@),
        r matches Err(IssueListError::NoIssues) <==> keys@.len() == 0,
        r matches Err(IssueListError::MalformedKey(k)) ==> exists|i: int|
            0 <= i < keys@.len() && keys@[i]@ == k@ && key_issue_number(k@) is None,
{
    if keys.len() == 0 {
        return Err(IssueListError::NoIssues);
    }
    let mut best: usize = 0;
    let mut i: usize = 0;
    while i < keys.len()
        invariant
            i <= keys@.len(),
            all_numbered(keys@.subrange(0, i as int)),
            best as nat == max_issue(keys@.subrange(0, i as int)),
        decreases keys.len() - i,
    {
        let ghost p = keys@.subrange(0, i as int + 1);
        proof {
            assert(p.drop_last() =~= keys@.subrange(0, i as int));
            assert(p.last() == keys@[i as int]);
        }
        match issue_number_of_key(keys[i].as_str()) {
            Some(v) => {
                if v > best {
                    best = v;
                }
            },
            None => {
                let k = keys[i].clone();
                proof {
                    assert(keys@[i as int]@ == k@);
                    assert(!all_numbered(keys@)) by {
                        assert(key_issue_number(keys@[i as int]@) is None);
                    }
                }
                return Err(IssueListError::MalformedKey(k));
            },
        }
        i = i + 1;
        proof {
            assert forall|j: int| 0 <= j < i implies (#[trigger] key_issue_number(
                keys@.subrange(0, i as int)[j]@,
            )) is Some by {
                assert(keys@.subrange(0, i as int)[j] == keys@[j]);
                if j < i - 1 {
                    assert(keys@.subrange(0, i as int - 1)[j] == keys@[j]);
                }
            }
        }
    }
    assert(keys@.subrange(0, keys@.len() as int) =~= keys@);
    Ok(best)
}

} // verus!
