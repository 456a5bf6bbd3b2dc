//! Four-component numeric versions: the dotted-decimal grammar, parsing,
//! and the lexicographic comparison law.
//!
//! A version substring is a maximal digit run followed by exactly three
//! further `.`-separated maximal digit runs, the grammar the vendor uses
//! for its artifact names.  Parsing takes the first such substring of a
//! text; comparison is field-wise, most significant component first.

use vstd::prelude::*;

verus! {

use crate::error::BedrockUpdaterError;

/// An ordered tuple of exactly four non-negative integers, most
/// significant first.
#[derive(Clone, Copy, Debug, PartialEq, Eq, Structural)]
pub struct VersionString {
    pub major: u64,
    pub minor: u64,
    pub patch: u64,
    pub build: u64,
}

/// The outcome of comparing two versions.
#[derive(Clone, Copy, Debug, PartialEq, Eq, Structural)]
pub enum VersionOrder {
    Less,
    Equal,
    Greater,
}

/// Whether `c` is a decimal digit.
pub open spec fn is_digit(c: char) -> bool {
    '0' <= c && c <= '9'
}

/// The numeric value of a decimal digit.
pub open spec fn digit_val(c: char) -> nat {
    (c as int - '0' as int) as nat
}

/// The end of the digit run beginning at `i`: the first index at or
/// after `i` that is past the end of `s` or holds a non-digit.
pub open spec fn run_end(s: Seq<char>, i: int) -> int
    decreases s.len() - i when 0 <= i <= s.len()
{
    if 0 <= i < s.len() && is_digit(s[i]) {
        run_end(s, i + 1)
    } else {
        i
    }
}

/// Whether a version substring (four `.`-separated digit runs) begins at
/// `i`, taking each digit run maximal.
pub open spec fn match_at(s: Seq<char>, i: int) -> bool {
    let e1 = run_end(s, i);
    let e2 = run_end(s, e1 + 1);
    let e3 = run_end(s, e2 + 1);
    &&& 0 <= i < s.len() && is_digit(s[i])
    &&& e1 < s.len() && s[e1] == '.' && e1 + 1 < s.len() && is_digit(s[e1 + 1])
    &&& e2 < s.len() && s[e2] == '.' && e2 + 1 < s.len() && is_digit(s[e2 + 1])
    &&& e3 < s.len() && s[e3] == '.' && e3 + 1 < s.len() && is_digit(s[e3 + 1])
}

/// The end (exclusive) of the version substring beginning at `i`.
pub open spec fn match_end(s: Seq<char>, i: int) -> int {
    let e1 = run_end(s, i);
    let e2 = run_end(s, e1 + 1);
    let e3 = run_end(s, e2 + 1);
    run_end(s, e3 + 1)
}

/// The first index at or after `i` where a version substring begins, if
/// any.
pub open spec fn find_match_from(s: Seq<char>, i: int) -> Option<int>
    decreases s.len() - i when 0 <= i <= s.len()
{
    if i >= s.len() {
        None
    } else if match_at(s, i) {
        Some(i)
    } else {
        find_match_from(s, i + 1)
    }
}

/// The value of a string of decimal digits, most significant first.
pub open spec fn digits_val(s: Seq<char>) -> nat
    decreases s.len(),
{
    if s.len() == 0 {
        0
    } else {
        digits_val(s.drop_last()) * 10 + digit_val(s.last())
    }
}

/// The four component values of the version substring beginning at `i`.
pub open spec fn components_at(s: Seq<char>, i: int) -> (nat, nat, nat, nat) {
    let e1 = run_end(s, i);
    let e2 = run_end(s, e1 + 1);
    let e3 = run_end(s, e2 + 1);
    let e4 = run_end(s, e3 + 1);
    (
        digits_val(s.subrange(i, e1)),
        digits_val(s.subrange(e1 + 1, e2)),
        digits_val(s.subrange(e2 + 1, e3)),
        digits_val(s.subrange(e3 + 1, e4)),
    )
}

/// What parsing a text yields: the components of its first version
/// substring when they all fit `u64`, and the reason it fails otherwise.
pub open spec fn spec_parse(s: Seq<char>) -> Result<VersionString, BedrockUpdaterError> {
    match find_match_from(s, 0) {
        None => Err(BedrockUpdaterError::NoVersionString),
        Some(i) => {
            let (a, b, c, d) = components_at(s, i);
            if a <= u64::MAX && b <= u64::MAX && c <= u64::MAX && d <= u64::MAX {
                Ok(VersionString {
                    major: a as u64,
                    minor: b as u64,
                    patch: c as u64,
                    build: d as u64,
                })
            } else {
                Err(BedrockUpdaterError::UnparseableVersion)
            }
        },
    }
}

/// The text of the first version substring of `s`; meaningful only when
/// `find_match_from(s, 0)` yields an index.
pub open spec fn spec_matched_text(s: Seq<char>) -> Seq<char> {
    let i = find_match_from(s, 0)->Some_0;
    s.subrange(i, match_end(s, i))
}

/// The digit run beginning at `i` ends no earlier than `i`, no later
/// than the text, holds digits only, and ends the run: past its end
/// stands no digit.
pub proof fn lemma_run_end(s: Seq<char>, i: int)
    requires
        0 <= i <= s.len(),
    ensures
        i <= run_end(s, i) <= s.len(),
        forall|j: int| i <= j < run_end(s, i) ==> is_digit(s[j]),
        run_end(s, i) < s.len() ==> !is_digit(s[run_end(s, i)]),
    decreases s.len() - i,
{
    if i < s.len() && is_digit(s[i]) {
        lemma_run_end(s, i + 1);
    }
}

/// What `find_match_from` finds: the first version substring at or
/// after `i`, or the absence of any.
pub proof fn lemma_find_match_from(s: Seq<char>, i: int)
    requires
        0 <= i <= s.len(),
    ensures
        match find_match_from(s, i) {
            Some(j) => i <= j < s.len() && match_at(s, j) && forall|k: int|
                i <= k < j ==> !match_at(s, k),
            None => forall|k: int| i <= k < s.len() ==> !match_at(s, k),
        },
    decreases s.len() - i,
{
    if i < s.len() && !match_at(s, i) {
        lemma_find_match_from(s, i + 1);
    }
}

/// `run_end` looks only at the run itself: within a subrange that
/// contains the whole run, the run ends at the same place.
proof fn lemma_run_end_subrange(s: Seq<char>, lo: int, hi: int, p: int)
    requires
        0 <= lo <= p <= hi <= s.len(),
        run_end(s, p) <= hi,
    ensures
        run_end(s.subrange(lo, hi), p - lo) == run_end(s, p) - lo,
    decreases hi - p,
{
    lemma_run_end(s, p);
    if p < hi && is_digit(s[p]) {
        lemma_run_end_subrange(s, lo, hi, p + 1);
    }
}

/// The version substring found in a text is itself parseable and
/// parses to the same components: the text written to the version
/// record after an update re-reads as the same version.
pub proof fn lemma_matched_text_reparses(s: Seq<char>)
    requires
        find_match_from(s, 0) is Some,
    ensures
        spec_parse(spec_matched_text(s)) == spec_parse(s),
{
    let i = find_match_from(s, 0)->Some_0;
    lemma_find_match_from(s, 0);
    let e1 = run_end(s, i);
    let e2 = run_end(s, e1 + 1);
    let e3 = run_end(s, e2 + 1);
    let e4 = run_end(s, e3 + 1);
    lemma_run_end(s, i);
    lemma_run_end(s, e1 + 1);
    lemma_run_end(s, e2 + 1);
    lemma_run_end(s, e3 + 1);
    let m = s.subrange(i, e4);
    lemma_run_end_subrange(s, i, e4, i);
    lemma_run_end_subrange(s, i, e4, e1 + 1);
    lemma_run_end_subrange(s, i, e4, e2 + 1);
    lemma_run_end_subrange(s, i, e4, e3 + 1);
    assert(run_end(m, 0) == e1 - i);
    assert(run_end(m, e1 - i + 1) == e2 - i);
    assert(run_end(m, e2 - i + 1) == e3 - i);
    assert(run_end(m, e3 - i + 1) == e4 - i);
    assert(match_at(m, 0));
    assert(find_match_from(m, 0) == Some(0int));
    assert(m.subrange(0, e1 - i) =~= s.subrange(i, e1));
    assert(m.subrange(e1 - i + 1, e2 - i) =~= s.subrange(e1 + 1, e2));
    assert(m.subrange(e2 - i + 1, e3 - i) =~= s.subrange(e2 + 1, e3));
    assert(m.subrange(e3 - i + 1, e4 - i) =~= s.subrange(e3 + 1, e4));
    assert(components_at(m, 0) == components_at(s, i));
}

/// Parsing is a function of the text and comparison is reflexive, so
/// two parses of the same valid text compare `Equal`.
pub proof fn lemma_parse_compare_equal(s: Seq<char>, a: VersionString, b: VersionString)
    requires
        spec_parse(s) == Ok::<VersionString, BedrockUpdaterError>(a),
        spec_parse(s) == Ok::<VersionString, BedrockUpdaterError>(b),
    ensures
        spec_compare(a, b) == VersionOrder::Equal,
{
}

/// Reading one more digit multiplies the value so far by ten and adds
/// the digit.
pub proof fn lemma_digits_val_step(s: Seq<char>, from: int, j: int)
    requires
        0 <= from <= j < s.len(),
    ensures
        digits_val(s.subrange(from, j + 1)) == digits_val(s.subrange(from, j)) * 10 + digit_val(
            s[j],
        ),
{
    assert(s.subrange(from, j + 1).drop_last() =~= s.subrange(from, j));
    assert(s.subrange(from, j + 1).last() == s[j]);
}

/// A digit string is worth at least any of its prefixes.
pub proof fn lemma_digits_val_mono(s: Seq<char>, from: int, j: int, to: int)
    requires
        0 <= from <= j <= to <= s.len(),
    ensures
        digits_val(s.subrange(from, to)) >= digits_val(s.subrange(from, j)),
    decreases to - j,
{
    if j < to {
        lemma_digits_val_mono(s, from, j + 1, to);
        lemma_digits_val_step(s, from, j);
    }
}

/// The comparison law: lexicographic over the four components, most
/// significant first.
pub open spec fn spec_compare(a: VersionString, b: VersionString) -> VersionOrder {
    if a.major != b.major {
        if a.major < b.major { VersionOrder::Less } else { VersionOrder::Greater }
    } else if a.minor != b.minor {
        if a.minor < b.minor { VersionOrder::Less } else { VersionOrder::Greater }
    } else if a.patch != b.patch {
        if a.patch < b.patch { VersionOrder::Less } else { VersionOrder::Greater }
    } else if a.build != b.build {
        if a.build < b.build { VersionOrder::Less } else { VersionOrder::Greater }
    } else {
        VersionOrder::Equal
    }
}

/// Whether `c` is a decimal digit.
fn is_digit_exec(c: char) -> (r: bool)
    ensures
        r == is_digit(c),
{
    '0' <= c && c <= '9'
}

/// The characters of `s`, one by one.
fn chars_vec(s: &str) -> (v: Vec<char>)
    ensures
        v@ == s@,
{
    let n = s.unicode_len();
    let mut v: Vec<char> = Vec::new();
    let mut i: usize = 0;
    while i < n
        invariant
            i <= n,
            n == s@.len(),
            v@ == s@.subrange(0, i as int),
        decreases n - i,
    {
        v.push(s.get_char(i));
        i = i + 1;
        assert(v@ =~= s@.subrange(0, i as int));
    }
    assert(v@ =~= s@);
    v
}

/// The end of the digit run beginning at `i`.
fn run_end_exec(v: &Vec<char>, i: usize) -> (e: usize)
    requires
        i <= v.len(),
    ensures
        e as int == run_end(v@, i as int),
        i <= e <= v.len(),
{
    let mut e = i;
    while e < v.len() && is_digit_exec(v[e])
        invariant
            i <= e <= v.len(),
            run_end(v@, i as int) == run_end(v@, e as int),
        decreases v.len() - e,
    {
        e = e + 1;
    }
    e
}

/// The four run ends of the version substring beginning at `i`, when
/// one begins there.
fn match_at_exec(v: &Vec<char>, i: usize) -> (r: Option<(usize, usize, usize, usize)>)
    requires
        i <= v.len(),
    ensures
        r is Some <==> match_at(v@, i as int),
        r matches Some((e1, e2, e3, e4)) ==> {
            &&& e1 as int == run_end(v@, i as int)
            &&& e2 as int == run_end(v@, e1 as int + 1)
            &&& e3 as int == run_end(v@, e2 as int + 1)
            &&& e4 as int == run_end(v@, e3 as int + 1)
            &&& i < e1 < v.len() && e1 + 1 < v.len()
            &&& e1 + 1 <= e2 < v.len() && e2 + 1 < v.len()
            &&& e2 + 1 <= e3 < v.len() && e3 + 1 < v.len()
            &&& e3 + 1 <= e4 <= v.len()
        },
{
    if i >= v.len() || !is_digit_exec(v[i]) {
        return None;
    }
    let e1 = run_end_exec(v, i);
    if e1 >= v.len() || v[e1] != '.' || e1 + 1 >= v.len() || !is_digit_exec(v[e1 + 1]) {
        return None;
    }
    let e2 = run_end_exec(v, e1 + 1);
    if e2 >= v.len() || v[e2] != '.' || e2 + 1 >= v.len() || !is_digit_exec(v[e2 + 1]) {
        return None;
    }
    let e3 = run_end_exec(v, e2 + 1);
    if e3 >= v.len() || v[e3] != '.' || e3 + 1 >= v.len() || !is_digit_exec(v[e3 + 1]) {
        return None;
    }
    let e4 = run_end_exec(v, e3 + 1);
    proof {
        lemma_run_end(v@, i as int);
        lemma_run_end(v@, e1 as int + 1);
        lemma_run_end(v@, e2 as int + 1);
        lemma_run_end(v@, e3 as int + 1);
    }
    Some((e1, e2, e3, e4))
}

/// The start and the four run ends of the first version substring.
fn find_first_match(v: &Vec<char>) -> (r: Option<(usize, usize, usize, usize, usize)>)
    ensures
        r is None <==> find_match_from(v@, 0) is None,
        r matches Some((i, e1, e2, e3, e4)) ==> {
            &&& find_match_from(v@, 0) == Some(i as int)
            &&& e1 as int == run_end(v@, i as int)
            &&& e2 as int == run_end(v@, e1 as int + 1)
            &&& e3 as int == run_end(v@, e2 as int + 1)
            &&& e4 as int == run_end(v@, e3 as int + 1)
            &&& i < e1 < v.len() && e1 + 1 < v.len()
            &&& e1 + 1 <= e2 < v.len() && e2 + 1 < v.len()
            &&& e2 + 1 <= e3 < v.len() && e3 + 1 < v.len()
            &&& e3 + 1 <= e4 <= v.len()
        },
{
    let mut i: usize = 0;
    while i < v.len()
        invariant
            i <= v.len(),
            find_match_from(v@, 0) == find_match_from(v@, i as int),
        decreases v.len() - i,
    {
        match match_at_exec(v, i) {
            Some((e1, e2, e3, e4)) => {
                return Some((i, e1, e2, e3, e4));
            },
            None => {
                i = i + 1;
            },
        }
    }
    None
}

/// The value of the digits of `v` between `from` and `to`, when it fits
/// an unsigned 64-bit integer.
fn digits_to_u64(v: &Vec<char>, from: usize, to: usize) -> (r: Option<u64>)
    requires
        from <= to <= v.len(),
        forall|j: int| from <= j < to ==> is_digit(v@[j]),
    ensures
        match r {
            Some(n) => n == digits_val(v@.subrange(from as int, to as int)),
            None => digits_val(v@.subrange(from as int, to as int)) > u64::MAX,
        },
{
    let mut acc: u64 = 0;
    let mut j = from;
    assert(v@.subrange(from as int, from as int) =~= Seq::<char>::empty());
    while j < to
        invariant
            from <= j <= to <= v.len(),
            forall|k: int| from <= k < to ==> is_digit(v@[k]),
            acc == digits_val(v@.subrange(from as int, j as int)),
        decreases to - j,
    {
        let c = v[j];
        let d: u64 = (c as u32 as u64) - ('0' as u32 as u64);
        let wide: u128 = acc as u128 * 10 + d as u128;
        proof {
            lemma_digits_val_step(v@, from as int, j as int);
        }
        if wide > u64::MAX as u128 {
            proof {
                lemma_digits_val_mono(v@, from as int, j as int + 1, to as int);
            }
            return None;
        }
        acc = wide as u64;
        j = j + 1;
    }
    Some(acc)
}

impl VersionString {
    /// Field-wise integer comparison, first field highest precedence.
    pub fn compare(&self, other: &VersionString) -> (r: VersionOrder)
        ensures
            r == spec_compare(*self, *other),
    {
        if self.major != other.major {
            if self.major < other.major { VersionOrder::Less } else { VersionOrder::Greater }
        } else if self.minor != other.minor {
            if self.minor < other.minor { VersionOrder::Less } else { VersionOrder::Greater }
        } else if self.patch != other.patch {
            if self.patch < other.patch { VersionOrder::Less } else { VersionOrder::Greater }
        } else if self.build != other.build {
            if self.build < other.build { VersionOrder::Less } else { VersionOrder::Greater }
        } else {
            VersionOrder::Equal
        }
    }

    /// Extracts the first substring of `text` matching the
    /// four-dot-separated integer pattern and decomposes it into its
    /// components.
    pub fn parse(text: &str) -> (r: Result<VersionString, BedrockUpdaterError>)
        ensures
            r == spec_parse(text@),
    {
        let v = chars_vec(text);
        match find_first_match(&v) {
            None => Err(BedrockUpdaterError::NoVersionString),
            Some((i, e1, e2, e3, e4)) => {
                proof {
                    lemma_run_end(v@, i as int);
                    lemma_run_end(v@, e1 as int + 1);
                    lemma_run_end(v@, e2 as int + 1);
                    lemma_run_end(v@, e3 as int + 1);
                }
                let a = digits_to_u64(&v, i, e1);
                let b = digits_to_u64(&v, e1 + 1, e2);
                let c = digits_to_u64(&v, e2 + 1, e3);
                let d = digits_to_u64(&v, e3 + 1, e4);
                match (a, b, c, d) {
                    (Some(major), Some(minor), Some(patch), Some(build)) => Ok(
                        VersionString { major, minor, patch, build },
                    ),
                    _ => Err(BedrockUpdaterError::UnparseableVersion),
                }
            },
        }
    }
}

/// The bounds of the first version substring of `text`, as character
/// indices.
pub fn find_version_span(text: &str) -> (r: Option<(usize, usize)>)
    ensures
        r is None <==> find_match_from(text@, 0) is None,
        r matches Some((i, e)) ==> find_match_from(text@, 0) == Some(i as int) && e as int
            == match_end(text@, i as int) && i < e <= text@.len(),
{
    let v = chars_vec(text);
    match find_first_match(&v) {
        None => None,
        Some((i, _e1, _e2, _e3, e4)) => Some((i, e4)),
    }
}

/// The first version substring of `text` itself.
pub fn version_text(text: &str) -> (r: Option<String>)
    ensures
        r is Some <==> find_match_from(text@, 0) is Some,
        r matches Some(t) ==> t@ == spec_matched_text(text@),
{
    match find_version_span(text) {
        None => None,
        Some((i, e)) => {
            let sub = text.substring_char(i, e);
            Some(sub.to_owned())
        },
    }
}

/// Comparing a version with itself yields `Equal`; together with the
/// exact contract of `parse`, parsing the same valid text twice yields
/// versions that compare `Equal`.
pub proof fn lemma_compare_reflexive(a: VersionString)
    ensures
        spec_compare(a, a) == VersionOrder::Equal,
{
}

/// Comparison is antisymmetric: it yields `Equal` exactly on equal
/// tuples, and `Less` one way round exactly when it yields `Greater`
/// the other way round.
pub proof fn lemma_compare_antisymmetric(a: VersionString, b: VersionString)
    ensures
        spec_compare(a, b) == VersionOrder::Equal <==> a == b,
        spec_compare(a, b) == VersionOrder::Less <==> spec_compare(b, a) == VersionOrder::Greater,
{
}

/// Comparison is transitive: versions below `b` stay below anything `b`
/// is below.
pub proof fn lemma_compare_transitive(a: VersionString, b: VersionString, c: VersionString)
    requires
        spec_compare(a, b) == VersionOrder::Less,
        spec_compare(b, c) == VersionOrder::Less,
    ensures
        spec_compare(a, c) == VersionOrder::Less,
{
}

/// Comparison is total: every pair of versions is ordered one of the
/// three ways.
pub proof fn lemma_compare_total(a: VersionString, b: VersionString)
    ensures
        spec_compare(a, b) == VersionOrder::Less || spec_compare(a, b) == VersionOrder::Equal
            || spec_compare(a, b) == VersionOrder::Greater,
{
}

} // verus!
