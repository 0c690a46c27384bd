//! Properties of detection with the standard registry.
use vstd::prelude::*;
use crate::pattern::{
    alt_at, capture_at, capture_from_alt, find, folded, is_digit, is_version_char, lemma_find_from_none, lemma_find_from_first, lemma_find_from_fold,
    lemma_find_from_range, lemma_fold_version_char, lemma_run_end_exact, literal_at,
    same_but_case,
};
use crate::registry::{
    RuleModel, browser_of, detect_from, chrome_pattern, edge_pattern, firefox_pattern,
    standard_rules,
};

verus! {

/// Detection with any rules gives the same result on two strings that differ
/// only in the ASCII case of their letters.
pub proof fn lemma_detect_from_fold(rules: Seq<RuleModel>, s1: Seq<char>, s2: Seq<char>, r: int)
    requires
        same_but_case(s1, s2),
    ensures
        detect_from(rules, s1, r) == detect_from(rules, s2, r),
    decreases rules.len() - r,
{
    if 0 <= r < rules.len() {
        let pat = rules[r].pattern;
        lemma_find_from_fold(pat, s1, s2, 0);
        lemma_find_from_range(pat, s1, 0);
        if let Some((a, b)) = find(pat, s1) {
            assert forall|j: int| a <= j < b implies s1[j] == s2[j] by {
                lemma_fold_version_char(s1[j], s2[j]);
            }
            assert(s1.subrange(a, b) =~= s2.subrange(a, b));
        }
        lemma_detect_from_fold(rules, s1, s2, r + 1);
    }
}

/// Detection ignores case: two User-Agent strings that differ only in the
/// ASCII case of their letters give the same browser and the same version.
pub proof fn law_case_insensitive(s1: Seq<char>, s2: Seq<char>)
    requires
        same_but_case(s1, s2),
    ensures
        browser_of(s1) == browser_of(s2),
{
    lemma_detect_from_fold(standard_rules(), s1, s2, 0);
}

/// A token written at `pre.len()` in `pre + token + version + post` matches
/// the literal there, and the version's characters follow it.
proof fn lemma_token_in_context(
    pre: Seq<char>,
    token: Seq<char>,
    version: Seq<char>,
    post: Seq<char>,
    lit: Seq<char>,
)
    requires
        token.len() == lit.len(),
        literal_at(token, 0, lit),
    ensures
        ({
            let s = pre + token + version + post;
            let p = pre.len() + lit.len() as int;
            &&& literal_at(s, pre.len() as int, lit)
            &&& forall|j: int| 0 <= j < version.len() ==> s[p + j] == #[trigger] version[j]
            &&& post.len() > 0 ==> s[p + version.len()] == post[0]
            &&& s.len() == p + version.len() + post.len()
            &&& (pre + token + version + post).subrange(p, p + version.len()) == version
        }),
{
    let s = pre + token + version + post;
    let m = pre.len() as int;
    let p = m + lit.len();
    assert forall|j: int| 0 <= j < lit.len() implies folded(s[m + j]) == folded(#[trigger] lit[j]) by {
        assert(s[m + j] == token[j]);
    }
    assert forall|j: int| 0 <= j < version.len() implies s[p + j] == #[trigger] version[j] by {}
    if post.len() > 0 {
        assert(s[p + version.len()] == post[0]);
    }
    assert(s.subrange(p, p + version.len()) =~= version);
}

/// A Firefox token (`firefox/` in any ASCII case) followed by a version of
/// digits and dots gives Firefox with that version, unless a Firefox token
/// matched earlier in the string or the version runs on into more digits or dots.
pub proof fn law_firefox_token(pre: Seq<char>, token: Seq<char>, version: Seq<char>, post: Seq<char>)
    requires
        token.len() == "firefox/"@.len(),
        literal_at(token, 0, "firefox/"@),
        version.len() > 0,
        forall|j: int| 0 <= j < version.len() ==> is_version_char(#[trigger] version[j]),
        post.len() == 0 || !is_version_char(post[0]),
        forall|i: int|
            0 <= i < pre.len() ==> (#[trigger] capture_at(
                firefox_pattern(),
                pre + token + version + post,
                i,
            )) is None,
    ensures
        browser_of(pre + token + version + post) == Some(("Firefox"@, version)),
{
    reveal_strlit("firefox/");
    let s = pre + token + version + post;
    let m = pre.len() as int;
    let p = m + 8;
    lemma_token_in_context(pre, token, version, post, "firefox/"@);
    assert(s[p] == version[0]);
    assert forall|j: int| p <= j < p + version.len() implies is_version_char(#[trigger] s[j]) by {
        assert(s[p + (j - p)] == version[j - p]);
    }
    lemma_run_end_exact(s, p, p + version.len(), true);
    assert(capture_at(firefox_pattern(), s, m) == Some((p, p + version.len())));
    lemma_find_from_first(firefox_pattern(), s, 0, m);
}

/// An Edge token (`edge/` in any ASCII case) followed by two digits, a dot and
/// more digits gives Edge with that version, unless a Firefox token matches
/// anywhere in the string (that rule is tried first), an Edge token matched
/// earlier, or the version runs on into more digits.
pub proof fn law_edge_token(pre: Seq<char>, token: Seq<char>, version: Seq<char>, post: Seq<char>)
    requires
        token.len() == "edge/"@.len(),
        literal_at(token, 0, "edge/"@),
        version.len() >= 4,
        is_digit(version[0]),
        is_digit(version[1]),
        version[2] == '.',
        forall|j: int| 3 <= j < version.len() ==> is_digit(#[trigger] version[j]),
        post.len() == 0 || !is_digit(post[0]),
        find(firefox_pattern(), pre + token + version + post) is None,
        forall|i: int|
            0 <= i < pre.len() ==> (#[trigger] capture_at(
                edge_pattern(),
                pre + token + version + post,
                i,
            )) is None,
    ensures
        browser_of(pre + token + version + post) == Some(("Edge"@, version)),
{
    reveal_strlit("edge/");
    let s = pre + token + version + post;
    let m = pre.len() as int;
    let p = m + 5;
    lemma_token_in_context(pre, token, version, post, "edge/"@);
    assert(s[p] == version[0] && s[p + 1] == version[1]);
    assert(s[p + 2] == version[2] && s[p + 3] == version[3]);
    assert forall|j: int| p + 3 <= j < p + version.len() implies is_digit(#[trigger] s[j]) by {
        assert(s[p + (j - p)] == version[j - p]);
    }
    lemma_run_end_exact(s, p + 3, p + version.len(), false);
    assert(capture_at(edge_pattern(), s, m) == Some((p, p + version.len())));
    lemma_find_from_first(edge_pattern(), s, 0, m);
    let rules = standard_rules();
    assert(rules[1].pattern == edge_pattern() && rules[1].label == "Edge"@);
    assert(detect_from(rules, s, 1) == Some(("Edge"@, version)));
    assert(rules[0].pattern == firefox_pattern());
    assert(detect_from(rules, s, 0) == detect_from(rules, s, 1));
}

/// An Edge token followed by a single digit and a dot does not match the Edge
/// rule at that place.
pub proof fn law_edge_needs_two_digits(s: Seq<char>, i: int)
    requires
        literal_at(s, i, "edge/"@),
        i + 6 < s.len(),
        is_digit(s[i + 5]),
        s[i + 6] == '.',
    ensures
        capture_at(edge_pattern(), s, i) is None,
{
    reveal_strlit("edge/");
    assert(capture_from_alt(edge_pattern(), s, i, 1) is None);
}

/// A Chrome token (`chrome/` or `chromium/` in any ASCII case) followed by a
/// version of digits and dots gives Chrome with that version, unless a Firefox
/// or an Edge token matches anywhere in the string (those rules are tried
/// first), a Chrome token matched earlier, or the version runs on into more
/// digits or dots.
pub proof fn law_chrome_token(pre: Seq<char>, token: Seq<char>, version: Seq<char>, post: Seq<char>)
    requires
        (token.len() == "chrome/"@.len() && literal_at(token, 0, "chrome/"@)) || (token.len()
            == "chromium/"@.len() && literal_at(token, 0, "chromium/"@)),
        version.len() > 0,
        forall|j: int| 0 <= j < version.len() ==> is_version_char(#[trigger] version[j]),
        post.len() == 0 || !is_version_char(post[0]),
        find(firefox_pattern(), pre + token + version + post) is None,
        find(edge_pattern(), pre + token + version + post) is None,
        forall|i: int|
            0 <= i < pre.len() ==> (#[trigger] capture_at(
                chrome_pattern(),
                pre + token + version + post,
                i,
            )) is None,
    ensures
        browser_of(pre + token + version + post) == Some(("Chrome"@, version)),
{
    reveal_strlit("chrome/");
    reveal_strlit("chromium/");
    let s = pre + token + version + post;
    let m = pre.len() as int;
    let p = m + token.len();
    let pat = chrome_pattern();
    assert(pat.prefixes[0] == "chromium/"@ && pat.prefixes[1] == "chrome/"@);
    if token.len() == 9 {
        lemma_token_in_context(pre, token, version, post, "chromium/"@);
    } else {
        lemma_token_in_context(pre, token, version, post, "chrome/"@);
        assert(folded(s[m + 6]) == folded("chrome/"@[6]));
        assert(!literal_at(s, m, "chromium/"@)) by {
            assert(folded(s[m + 6]) != folded("chromium/"@[6]));
        }
    }
    assert(s[p] == version[0]);
    assert forall|j: int| p <= j < p + version.len() implies is_version_char(#[trigger] s[j]) by {
        assert(s[p + (j - p)] == version[j - p]);
    }
    lemma_run_end_exact(s, p, p + version.len(), true);
    if token.len() == 9 {
        assert(alt_at(pat, s, m, 0));
    } else {
        assert(!alt_at(pat, s, m, 0));
        assert(alt_at(pat, s, m, 1));
        assert(capture_from_alt(pat, s, m, 1) == Some((p, p + version.len())));
    }
    assert(capture_at(pat, s, m) == Some((p, p + version.len())));
    lemma_find_from_first(chrome_pattern(), s, 0, m);
    let rules = standard_rules();
    assert(rules[2].pattern == chrome_pattern() && rules[2].label == "Chrome"@);
    assert(detect_from(rules, s, 2) == Some(("Chrome"@, version)));
    assert(rules[1].pattern == edge_pattern());
    assert(detect_from(rules, s, 1) == detect_from(rules, s, 2));
    assert(rules[0].pattern == firefox_pattern());
    assert(detect_from(rules, s, 0) == detect_from(rules, s, 1));
}

/// A string with no `firefox/`, `edge/`, `chrome/` or `chromium/` token, in any
/// ASCII case, gives no browser.
pub proof fn law_no_token(s: Seq<char>)
    requires
        forall|i: int|
            0 <= i < s.len() ==> {
                &&& !literal_at(s, i, "firefox/"@)
                &&& !literal_at(s, i, "edge/"@)
                &&& !literal_at(s, i, "chrome/"@)
                &&& !literal_at(s, i, "chromium/"@)
            },
    ensures
        browser_of(s) is None,
{
    assert forall|i: int| 0 <= i < s.len() implies (#[trigger] capture_at(
        firefox_pattern(),
        s,
        i,
    )) is None by {
        assert(capture_from_alt(firefox_pattern(), s, i, 1) is None);
    }
    assert forall|i: int| 0 <= i < s.len() implies (#[trigger] capture_at(edge_pattern(), s, i))
        is None by {
        assert(capture_from_alt(edge_pattern(), s, i, 1) is None);
    }
    assert forall|i: int| 0 <= i < s.len() implies (#[trigger] capture_at(chrome_pattern(), s, i))
        is None by {
        assert(capture_from_alt(chrome_pattern(), s, i, 2) is None);
        assert(capture_from_alt(chrome_pattern(), s, i, 1) is None);
    }
    lemma_find_from_none(firefox_pattern(), s, 0);
    lemma_find_from_none(edge_pattern(), s, 0);
    lemma_find_from_none(chrome_pattern(), s, 0);
    let rules = standard_rules();
    assert(rules[0].pattern == firefox_pattern());
    assert(rules[1].pattern == edge_pattern());
    assert(rules[2].pattern == chrome_pattern());
    assert(detect_from(rules, s, 3) is None);
    assert(detect_from(rules, s, 2) is None);
    assert(detect_from(rules, s, 1) is None);
}

} // verus!
