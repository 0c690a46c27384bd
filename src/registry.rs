//! The registry of browser rules and the detection that runs it.
use vstd::prelude::*;
use vstd::string::*;
use crate::browser::{Browser, browser_view};
use crate::pattern::{DigitClass, Pattern, PatternModel, VersionShape, find};

verus! {

/// Mathematical model of a rule.
pub ghost struct RuleModel {
    pub label: Seq<char>,
    pub pattern: PatternModel,
}

/// A registry entry: a browser label and the pattern that detects it.
pub struct Rule {
    pub label: String,
    pub pattern: Pattern,
}

impl View for Rule {
    type V = RuleModel;

    open spec fn view(&self) -> RuleModel {
        RuleModel { label: self.label@, pattern: self.pattern@ }
    }
}

/// The rules, tried in order; the registry is immutable once built.
pub struct Registry {
    rules: Vec<Rule>,
    digits: DigitClass,
}

impl View for Registry {
    type V = Seq<RuleModel>;

    closed spec fn view(&self) -> Seq<RuleModel> {
        self.rules@.map_values(|r: Rule| r@)
    }
}

/// `firefox/` and a version of digits and dots.
pub open spec fn firefox_pattern() -> PatternModel {
    PatternModel { prefixes: seq!["firefox/"@], shape: VersionShape::DigitsAndDots }
}

/// `edge/`, two digits, a dot and more digits.
pub open spec fn edge_pattern() -> PatternModel {
    PatternModel { prefixes: seq!["edge/"@], shape: VersionShape::TwoDigitsDotDigits }
}

/// `chromium/` or `chrome/` and a version of digits and dots.
pub open spec fn chrome_pattern() -> PatternModel {
    PatternModel { prefixes: seq!["chromium/"@, "chrome/"@], shape: VersionShape::DigitsAndDots }
}

/// The rules this library knows, in the order in which they are tried.
pub open spec fn standard_rules() -> Seq<RuleModel> {
    seq![
        RuleModel { label: "Firefox"@, pattern: firefox_pattern() },
        RuleModel { label: "Edge"@, pattern: edge_pattern() },
        RuleModel { label: "Chrome"@, pattern: chrome_pattern() },
    ]
}

/// No two rules share a label.
pub open spec fn labels_distinct(rules: Seq<RuleModel>) -> bool {
    forall|i: int, j: int|
        0 <= i < rules.len() && 0 <= j < rules.len() && i != j ==> rules[i].label != rules[j].label
}

/// The label and version given by the first rule, from `r` on, whose pattern
/// matches `s`.
pub open spec fn detect_from(rules: Seq<RuleModel>, s: Seq<char>, r: int) -> Option<
    (Seq<char>, Seq<char>),
>
    decreases rules.len() - r,
{
    if 0 <= r < rules.len() {
        match find(rules[r].pattern, s) {
            Some((a, b)) => Some((rules[r].label, s.subrange(a, b))),
            None => detect_from(rules, s, r + 1),
        }
    } else {
        None
    }
}

/// The label and version given by the first rule whose pattern matches `s`.
pub open spec fn detect_in(rules: Seq<RuleModel>, s: Seq<char>) -> Option<(Seq<char>, Seq<char>)> {
    detect_from(rules, s, 0)
}

/// What the standard registry detects in the User-Agent string `s`.
pub open spec fn browser_of(s: Seq<char>) -> Option<(Seq<char>, Seq<char>)> {
    detect_in(standard_rules(), s)
}

fn chars_of(s: &str) -> (r: Vec<char>)
    ensures
        r@ == s@,
{
    let mut r: Vec<char> = Vec::new();
    for c in it: s.chars()
        invariant
            r@ == it.seq().subrange(0, it.index() as int),
    {
        r.push(c);
    }
    assert(r@ =~= s@);
    r
}

fn pattern_of(prefixes: Vec<String>, shape: VersionShape) -> (r: Pattern)
    ensures
        r.prefixes@ == prefixes@,
        r.shape == shape,
{
    Pattern { prefixes, shape }
}

impl Registry {
    /// Builds the standard registry: Firefox, Edge, then Chrome.
    pub fn build() -> (r: Registry)
        ensures
            r@ == standard_rules(),
            labels_distinct(r@),
    {
        let firefox = Rule {
            label: String::from_str("Firefox"),
            pattern: pattern_of(vec![String::from_str("firefox/")], VersionShape::DigitsAndDots),
        };
        let edge = Rule {
            label: String::from_str("Edge"),
            pattern: pattern_of(vec![String::from_str("edge/")], VersionShape::TwoDigitsDotDigits),
        };
        let chrome = Rule {
            label: String::from_str("Chrome"),
            pattern: pattern_of(
                vec![String::from_str("chromium/"), String::from_str("chrome/")],
                VersionShape::DigitsAndDots,
            ),
        };
        assert(firefox.pattern@.prefixes =~= seq!["firefox/"@]);
        assert(edge.pattern@.prefixes =~= seq!["edge/"@]);
        assert(chrome.pattern@.prefixes =~= seq!["chromium/"@, "chrome/"@]);
        let r = Registry { rules: vec![firefox, edge, chrome], digits: DigitClass::new() };
        assert(r@ =~= standard_rules());
        proof {
            reveal_strlit("Firefox");
            reveal_strlit("Edge");
            reveal_strlit("Chrome");
            assert("Firefox"@.len() == 7 && "Edge"@.len() == 4 && "Chrome"@.len() == 6);
        }
        r
    }

    /// The rules, in the order in which `detect` tries them.
    pub fn entries(&self) -> (r: &Vec<Rule>)
        ensures
            r@.map_values(|x: Rule| x@) == self@,
    {
        &self.rules
    }

    /// Tries the rules in order and returns the first that matches anywhere
    /// in `user_agent`, with the version that its pattern captured.
    pub fn detect(&self, user_agent: &str) -> (r: Option<Browser>)
        ensures
            browser_view(r) == detect_in(self@, user_agent@),
    {
        let chars = chars_of(user_agent);
        let mut k: usize = 0;
        while k < self.rules.len()
            invariant
                k <= self.rules.len(),
                chars@ == user_agent@,
                detect_from(self@, user_agent@, 0) == detect_from(self@, user_agent@, k as int),
            decreases self.rules.len() - k,
        {
            let rule = &self.rules[k];
            assert(self@[k as int] == rule@);
            match rule.pattern.find(&chars, &self.digits) {
                Some((a, b)) => {
                    let version = String::from_str(user_agent.substring_char(a, b));
                    return Some(Browser { display_name: rule.label.clone(), version });
                },
                None => {},
            }
            k += 1;
        }
        None
    }
}

/// Detects the browser named in `user_agent` with the standard registry.
/// The registry is built for this call; to detect many strings, build it once
/// with `Registry::build` and call `Registry::detect`.
pub fn get_browser(user_agent: &str) -> (r: Option<Browser>)
    ensures
        browser_view(r) == browser_of(user_agent@),
{
    Registry::build().detect(user_agent)
}

} // verus!
