//! Token patterns: a case-insensitive literal prefix (one of several
//! alternatives) followed by a version number of a given shape.
use vstd::prelude::*;
use vstd::string::*;
use regex::Regex;

verus! {

#[verifier::external_type_specification]
#[verifier::external_body]
pub struct ExRegex(regex::Regex);

/// Whether `c` is a decimal digit, Unicode general category Nd, as the regex
/// crate's `\d` class reads it.
pub uninterp spec fn is_decimal_digit(c: char) -> bool;

/// The decimal digits, held as a compiled `\d` class; made once and shared by
/// every match. Its field is private and only `new` builds one, so the regex
/// inside is always that of `new`.
pub struct DigitClass {
    re: Regex,
}

impl DigitClass {
    /// Relies on regex::Regex::new: `\A\d\z` is a valid pattern, so it
    /// compiles without error.
    #[verifier::external_body]
    pub(crate) fn new() -> (r: DigitClass) {
        DigitClass { re: Regex::new(r"\A\d\z").unwrap() }
    }

    /// Relies on regex::Regex::is_match: with the pattern `\A\d\z` that `new`
    /// compiled, a one-character string matches exactly when its character is
    /// in `\d`, documented as `\p{Nd}`.
    #[verifier::external_body]
    fn contains(&self, c: char) -> (r: bool)
        ensures
            r == is_decimal_digit(c),
    {
        let mut buf = [0u8; 4];
        self.re.is_match(c.encode_utf8(&mut buf))
    }
}

/// The shape of the version number that follows a token.
#[derive(Clone, Copy, Debug, PartialEq, Eq, Structural)]
pub enum VersionShape {
    /// One or more characters, each a digit or a dot.
    DigitsAndDots,
    /// Exactly two digits, a dot, then one or more digits.
    TwoDigitsDotDigits,
}

/// Mathematical model of a pattern.
pub ghost struct PatternModel {
    pub prefixes: Seq<Seq<char>>,
    pub shape: VersionShape,
}

/// A pattern: the first of `prefixes` that matches (ignoring ASCII case),
/// directly followed by a version of the given shape.
pub struct Pattern {
    pub prefixes: Vec<String>,
    pub shape: VersionShape,
}

impl View for Pattern {
    type V = PatternModel;

    open spec fn view(&self) -> PatternModel {
        PatternModel { prefixes: self.prefixes@.map_values(|p: String| p@), shape: self.shape }
    }
}

/// A decimal digit: among ASCII characters exactly `0` to `9`, beyond ASCII
/// whatever the Unicode class Nd holds.
pub open spec fn is_digit(c: char) -> bool {
    ('0' <= c && c <= '9') || (c as u32 >= 128 && is_decimal_digit(c))
}

pub open spec fn is_version_char(c: char) -> bool {
    is_digit(c) || c == '.'
}

/// The character's code with ASCII upper-case letters mapped to lower case.
pub open spec fn folded(c: char) -> int {
    if 'A' <= c && c <= 'Z' {
        c as int + 32
    } else {
        c as int
    }
}

/// `lit` occurs in `s` at position `i`, ignoring ASCII case.
pub open spec fn literal_at(s: Seq<char>, i: int, lit: Seq<char>) -> bool {
    &&& 0 <= i
    &&& i + lit.len() <= s.len()
    &&& forall|j: int| 0 <= j < lit.len() ==> folded(s[i + j]) == folded(#[trigger] lit[j])
}

/// The end of the longest run, from `p`, of digits (and of dots where `dots`).
pub open spec fn run_end(s: Seq<char>, p: int, dots: bool) -> int
    decreases s.len() - p,
{
    if 0 <= p < s.len() && (is_digit(s[p]) || (dots && s[p] == '.')) {
        run_end(s, p + 1, dots)
    } else {
        p
    }
}

/// A version of the given shape starts at `p`.
pub open spec fn shape_at(shape: VersionShape, s: Seq<char>, p: int) -> bool {
    match shape {
        VersionShape::DigitsAndDots => 0 <= p < s.len() && is_version_char(s[p]),
        VersionShape::TwoDigitsDotDigits => {
            &&& 0 <= p
            &&& p + 3 < s.len()
            &&& is_digit(s[p])
            &&& is_digit(s[p + 1])
            &&& s[p + 2] == '.'
            &&& is_digit(s[p + 3])
        },
    }
}

/// Where the (longest) version of the given shape that starts at `p` ends.
pub open spec fn shape_end(shape: VersionShape, s: Seq<char>, p: int) -> int {
    match shape {
        VersionShape::DigitsAndDots => run_end(s, p, true),
        VersionShape::TwoDigitsDotDigits => run_end(s, p + 3, false),
    }
}

/// Alternative `k` of the pattern matches at `i`.
pub open spec fn alt_at(pat: PatternModel, s: Seq<char>, i: int, k: int) -> bool {
    literal_at(s, i, pat.prefixes[k]) && shape_at(pat.shape, s, i + pat.prefixes[k].len())
}

/// The version range captured at `i` by the first alternative, from `k` on, that matches.
pub open spec fn capture_from_alt(pat: PatternModel, s: Seq<char>, i: int, k: int) -> Option<(int, int)>
    decreases pat.prefixes.len() - k,
{
    if 0 <= k < pat.prefixes.len() {
        if alt_at(pat, s, i, k) {
            let p = i + pat.prefixes[k].len();
            Some((p, shape_end(pat.shape, s, p)))
        } else {
            capture_from_alt(pat, s, i, k + 1)
        }
    } else {
        None
    }
}

/// The version range captured by a match that starts exactly at `i`.
pub open spec fn capture_at(pat: PatternModel, s: Seq<char>, i: int) -> Option<(int, int)> {
    capture_from_alt(pat, s, i, 0)
}

/// The version range of the leftmost match that starts at `i` or later.
pub open spec fn find_from(pat: PatternModel, s: Seq<char>, i: int) -> Option<(int, int)>
    decreases s.len() - i,
{
    if 0 <= i < s.len() {
        match capture_at(pat, s, i) {
            Some(c) => Some(c),
            None => find_from(pat, s, i + 1),
        }
    } else {
        None
    }
}

/// The version range of the leftmost match of the pattern in `s`.
pub open spec fn find(pat: PatternModel, s: Seq<char>) -> Option<(int, int)> {
    find_from(pat, s, 0)
}


/// The run from `p` stays within `s` and holds only run characters.
pub proof fn lemma_run_end_bounds(s: Seq<char>, p: int, dots: bool)
    requires
        0 <= p <= s.len(),
    ensures
        p <= run_end(s, p, dots) <= s.len(),
        forall|j: int|
            p <= j < run_end(s, p, dots) ==> is_digit(#[trigger] s[j]) || (dots && s[j] == '.'),
    decreases s.len() - p,
{
    if p < s.len() && (is_digit(s[p]) || (dots && s[p] == '.')) {
        lemma_run_end_bounds(s, p + 1, dots);
    }
}

/// A run of run characters from `p` to `e`, not followed by one, ends at `e`.
pub proof fn lemma_run_end_exact(s: Seq<char>, p: int, e: int, dots: bool)
    requires
        0 <= p <= e <= s.len(),
        forall|j: int| p <= j < e ==> is_digit(#[trigger] s[j]) || (dots && s[j] == '.'),
        e == s.len() || !(is_digit(s[e]) || (dots && s[e] == '.')),
    ensures
        run_end(s, p, dots) == e,
    decreases e - p,
{
    if p < e {
        lemma_run_end_exact(s, p + 1, e, dots);
    }
}

/// With no match at `i` or later, nothing is found from `i`.
pub proof fn lemma_find_from_none(pat: PatternModel, s: Seq<char>, i: int)
    requires
        0 <= i,
        forall|j: int| i <= j < s.len() ==> (#[trigger] capture_at(pat, s, j)) is None,
    ensures
        find_from(pat, s, i) is None,
    decreases s.len() - i,
{
    if i < s.len() {
        lemma_find_from_none(pat, s, i + 1);
    }
}

/// The first position from `i` with a match gives what is found from `i`.
pub proof fn lemma_find_from_first(pat: PatternModel, s: Seq<char>, i: int, m: int)
    requires
        0 <= i <= m < s.len(),
        capture_at(pat, s, m) is Some,
        forall|j: int| i <= j < m ==> (#[trigger] capture_at(pat, s, j)) is None,
    ensures
        find_from(pat, s, i) == capture_at(pat, s, m),
    decreases m - i,
{
    if i < m {
        lemma_find_from_first(pat, s, i + 1, m);
    }
}

/// A captured range lies within `s` and holds only digits and dots.
pub proof fn lemma_capture_from_alt_range(pat: PatternModel, s: Seq<char>, i: int, k: int)
    requires
        0 <= i,
        0 <= k,
    ensures
        capture_from_alt(pat, s, i, k) matches Some((a, b)) ==> {
            &&& 0 <= a <= b <= s.len()
            &&& forall|j: int| a <= j < b ==> is_version_char(#[trigger] s[j])
        },
    decreases pat.prefixes.len() - k,
{
    if 0 <= k < pat.prefixes.len() {
        if alt_at(pat, s, i, k) {
            let p = i + pat.prefixes[k].len();
            match pat.shape {
                VersionShape::DigitsAndDots => lemma_run_end_bounds(s, p, true),
                VersionShape::TwoDigitsDotDigits => lemma_run_end_bounds(s, p + 3, false),
            }
        } else {
            lemma_capture_from_alt_range(pat, s, i, k + 1);
        }
    }
}

/// A found range lies within `s` and holds only digits and dots.
pub proof fn lemma_find_from_range(pat: PatternModel, s: Seq<char>, i: int)
    requires
        0 <= i,
    ensures
        find_from(pat, s, i) matches Some((a, b)) ==> {
            &&& 0 <= a <= b <= s.len()
            &&& forall|j: int| a <= j < b ==> is_version_char(#[trigger] s[j])
        },
    decreases s.len() - i,
{
    if i < s.len() {
        lemma_capture_from_alt_range(pat, s, i, 0);
        lemma_find_from_range(pat, s, i + 1);
    }
}

/// `s1` and `s2` differ at most in the ASCII case of their letters.
pub open spec fn same_but_case(s1: Seq<char>, s2: Seq<char>) -> bool {
    &&& s1.len() == s2.len()
    &&& forall|j: int|
        #![trigger s1[j]]
        #![trigger s2[j]]
        0 <= j < s1.len() ==> folded(s1[j]) == folded(s2[j])
}

/// Digits and dots have no other case: case only changes ASCII letters.
pub proof fn lemma_fold_version_char(c1: char, c2: char)
    requires
        folded(c1) == folded(c2),
    ensures
        is_digit(c1) == is_digit(c2),
        is_version_char(c1) == is_version_char(c2),
        is_version_char(c1) ==> c1 == c2,
{
}

pub proof fn lemma_run_end_fold(s1: Seq<char>, s2: Seq<char>, p: int, dots: bool)
    requires
        same_but_case(s1, s2),
    ensures
        run_end(s1, p, dots) == run_end(s2, p, dots),
    decreases s1.len() - p,
{
    if 0 <= p < s1.len() {
        lemma_fold_version_char(s1[p], s2[p]);
        lemma_run_end_fold(s1, s2, p + 1, dots);
    }
}

pub proof fn lemma_capture_from_alt_fold(
    pat: PatternModel,
    s1: Seq<char>,
    s2: Seq<char>,
    i: int,
    k: int,
)
    requires
        same_but_case(s1, s2),
    ensures
        capture_from_alt(pat, s1, i, k) == capture_from_alt(pat, s2, i, k),
    decreases pat.prefixes.len() - k,
{
    if 0 <= k < pat.prefixes.len() {
        let lit = pat.prefixes[k];
        assert(literal_at(s1, i, lit) == literal_at(s2, i, lit));
        let p = i + lit.len();
        if 0 <= p && p < s1.len() {
            lemma_fold_version_char(s1[p], s2[p]);
        }
        if 0 <= p && p + 3 < s1.len() {
            lemma_fold_version_char(s1[p], s2[p]);
            lemma_fold_version_char(s1[p + 1], s2[p + 1]);
            lemma_fold_version_char(s1[p + 2], s2[p + 2]);
            lemma_fold_version_char(s1[p + 3], s2[p + 3]);
            assert((s1[p + 2] == '.') == (s2[p + 2] == '.'));
        }
        assert(shape_at(pat.shape, s1, p) == shape_at(pat.shape, s2, p));
        lemma_run_end_fold(s1, s2, p, true);
        lemma_run_end_fold(s1, s2, p + 3, false);
        lemma_capture_from_alt_fold(pat, s1, s2, i, k + 1);
    }
}

/// Ignoring ASCII case, a pattern finds the same range in both strings.
pub proof fn lemma_find_from_fold(pat: PatternModel, s1: Seq<char>, s2: Seq<char>, i: int)
    requires
        same_but_case(s1, s2),
    ensures
        find_from(pat, s1, i) == find_from(pat, s2, i),
    decreases s1.len() - i,
{
    if 0 <= i < s1.len() {
        lemma_capture_from_alt_fold(pat, s1, s2, i, 0);
        lemma_find_from_fold(pat, s1, s2, i + 1);
    }
}

fn is_digit_exec(c: char, digits: &DigitClass) -> (r: bool)
    ensures
        r == is_digit(c),
{
    if '0' <= c && c <= '9' {
        true
    } else if (c as u32) < 128 {
        false
    } else {
        digits.contains(c)
    }
}

fn same_folded(a: char, b: char) -> (r: bool)
    ensures
        r == (folded(a) == folded(b)),
{
    let x: u32 = if 'A' <= a && a <= 'Z' { a as u32 + 32 } else { a as u32 };
    let y: u32 = if 'A' <= b && b <= 'Z' { b as u32 + 32 } else { b as u32 };
    x == y
}

/// Whether `lit` occurs in `s` at `i`, ignoring ASCII case.
pub fn literal_matches(s: &Vec<char>, i: usize, lit: &str) -> (r: bool)
    ensures
        r == literal_at(s@, i as int, lit@),
{
    let n = lit.unicode_len();
    if i > s.len() || n > s.len() - i {
        return false;
    }
    let mut j: usize = 0;
    while j < n
        invariant
            j <= n,
            n == lit@.len(),
            i + n <= s.len(),
            forall|t: int| 0 <= t < j ==> folded(s@[i + t]) == folded(#[trigger] lit@[t]),
        decreases n - j,
    {
        if !same_folded(s[i + j], lit.get_char(j)) {
            return false;
        }
        j += 1;
    }
    true
}

/// The end of the longest run from `p` of digits (and of dots where `dots`).
pub(crate) fn run_end_exec(s: &Vec<char>, p: usize, dots: bool, digits: &DigitClass) -> (r: usize)
    requires
        p <= s.len(),
    ensures
        r == run_end(s@, p as int, dots),
        p <= r <= s.len(),
{
    let mut q = p;
    while q < s.len() && (is_digit_exec(s[q], digits) || (dots && s[q] == '.'))
        invariant
            p <= q <= s.len(),
            run_end(s@, q as int, dots) == run_end(s@, p as int, dots),
        decreases s.len() - q,
    {
        q += 1;
    }
    q
}

fn shape_matches(shape: VersionShape, s: &Vec<char>, p: usize, digits: &DigitClass) -> (r: bool)
    ensures
        r == shape_at(shape, s@, p as int),
{
    match shape {
        VersionShape::DigitsAndDots => p < s.len() && (is_digit_exec(s[p], digits) || s[p] == '.'),
        VersionShape::TwoDigitsDotDigits => {
            p < s.len() && s.len() - p > 3 && is_digit_exec(s[p], digits) && is_digit_exec(s[p + 1], digits)
                && s[p + 2] == '.' && is_digit_exec(s[p + 3], digits)
        },
    }
}

impl Pattern {
    /// The version range captured by a match that starts exactly at `i`.
    pub(crate) fn capture_at(&self, s: &Vec<char>, i: usize, digits: &DigitClass) -> (r: Option<(usize, usize)>)
        requires
            i <= s.len(),
        ensures
            match r {
                Some((a, b)) => {
                    &&& capture_at(self@, s@, i as int) == Some((a as int, b as int))
                    &&& a <= b <= s.len()
                },
                None => capture_at(self@, s@, i as int) is None,
            },
    {
        let mut k: usize = 0;
        while k < self.prefixes.len()
            invariant
                k <= self.prefixes.len(),
                i <= s.len(),
                capture_from_alt(self@, s@, i as int, 0) == capture_from_alt(
                    self@,
                    s@,
                    i as int,
                    k as int,
                ),
            decreases self.prefixes.len() - k,
        {
            let lit = self.prefixes[k].as_str();
            assert(self@.prefixes[k as int] == lit@);
            if literal_matches(s, i, lit) {
                let p = i + lit.unicode_len();
                if shape_matches(self.shape, s, p, digits) {
                    let end = match self.shape {
                        VersionShape::DigitsAndDots => run_end_exec(s, p, true, digits),
                        VersionShape::TwoDigitsDotDigits => run_end_exec(s, p + 3, false, digits),
                    };
                    return Some((p, end));
                }
            }
            k += 1;
        }
        None
    }

    /// The version range of the leftmost match in `s`.
    pub(crate) fn find(&self, s: &Vec<char>, digits: &DigitClass) -> (r: Option<(usize, usize)>)
        ensures
            match r {
                Some((a, b)) => find(self@, s@) == Some((a as int, b as int)) && a <= b <= s.len(),
                None => find(self@, s@) is None,
            },
    {
        let mut i: usize = 0;
        while i < s.len()
            invariant
                i <= s.len(),
                find_from(self@, s@, 0) == find_from(self@, s@, i as int),
            decreases s.len() - i,
        {
            match self.capture_at(s, i, digits) {
                Some(c) => {
                    return Some(c);
                },
                None => {},
            }
            i += 1;
        }
        None
    }
}

} // verus!
