use vstd::prelude::*;

use crate::error::ProvisionError;
use crate::platform::{OptLevel, Platform};
use crate::rules::{rewrite_rules, rule_table, text_of, texts_view, DestinationSet, RuleText};

verus! {

#[verifier::external_type_specification]
#[verifier::external_body]
pub struct ExRegex(regex::Regex);

#[verifier::external_type_specification]
#[verifier::external_body]
pub struct ExRegexError(regex::Error);

/// Whether the regular expression `pattern` matches somewhere in `haystack`.
pub uninterp spec fn regex_is_match(pattern: Seq<char>, haystack: Seq<char>) -> bool;

/// Whether the regular expression engine accepts `pattern`.
pub uninterp spec fn regex_compiles(pattern: Seq<char>) -> bool;

/// `haystack` with the leftmost-first match of `pattern` replaced by
/// `replacement`, in which `$` group references are expanded.
pub uninterp spec fn regex_replaced(
    pattern: Seq<char>,
    haystack: Seq<char>,
    replacement: Seq<char>,
) -> Seq<char>;

/// A rewrite rule whose pattern has been compiled. Its matcher is only ever
/// set by `compile`, from the rule's own pattern, and no field changes
/// afterwards: `is_match` and `replace` rest on that.
pub struct RewriteRule {
    pattern: String,
    template: String,
    regex: regex::Regex,
}

impl View for RewriteRule {
    type V = (Seq<char>, Seq<char>);

    /// The pattern and the destination template the rule was compiled from.
    closed spec fn view(&self) -> (Seq<char>, Seq<char>) {
        (self.pattern@, self.template@)
    }
}

impl RewriteRule {
    /// Relies on regex::Regex::new: whether it accepts a pattern depends on
    /// the pattern alone; one that it accepts is compiled and kept, with its
    /// template, in the returned rule, whose matcher is that compiled pattern
    /// and nothing else.
    #[verifier::external_body]
    fn compile(pattern: String, template: String) -> (r: Result<RewriteRule, regex::Error>)
        ensures
            r is Ok <==> regex_compiles(pattern@),
            r matches Ok(rule) ==> rule@ == (pattern@, template@),
    {
        match regex::Regex::new(&pattern) {
            Ok(regex) => Ok(RewriteRule { pattern, template, regex }),
            Err(e) => Err(e),
        }
    }

    /// Relies on regex::Regex::is_match: whether the compiled pattern matches
    /// somewhere in `haystack`.
    #[verifier::external_body]
    fn is_match(&self, haystack: &str) -> (r: bool)
        ensures
            r == regex_is_match(self@.0, haystack@),
    {
        self.regex.is_match(haystack)
    }

    /// Relies on regex::Regex::replace: the leftmost-first match of the
    /// compiled pattern in `haystack` is replaced by the template, with `$`
    /// group references expanded.
    #[verifier::external_body]
    fn replace(&self, haystack: &str) -> (r: String)
        ensures
            r@ == regex_replaced(self@.0, haystack@, self@.1),
    {
        self.regex.replace(haystack, self.template.as_str()).into_owned()
    }

    pub fn pattern(&self) -> (r: &str)
        ensures
            r@ == self@.0,
    {
        self.pattern.as_str()
    }

    pub fn template(&self) -> (r: &str)
        ensures
            r@ == self@.1,
    {
        self.template.as_str()
    }
}

pub open spec fn rules_view(rules: Seq<RewriteRule>) -> Seq<(Seq<char>, Seq<char>)> {
    rules.map_values(|r: RewriteRule| r@)
}

/// Where an entry at `path` goes: the first rule, in order, whose pattern
/// matches decides, and its template is substituted; `None` when no rule
/// matches.
pub open spec fn destination(rules: Seq<(Seq<char>, Seq<char>)>, path: Seq<char>) -> Option<
    Seq<char>,
>
    decreases rules.len(),
{
    if rules.len() == 0 {
        None
    } else if regex_is_match(rules[0].0, path) {
        Some(regex_replaced(rules[0].0, path, rules[0].1))
    } else {
        destination(rules.drop_first(), path)
    }
}

/// Whether every pattern of `rules` is accepted by the engine.
pub open spec fn all_compile(rules: Seq<(Seq<char>, Seq<char>)>) -> bool {
    forall|i: int| 0 <= i < rules.len() ==> regex_compiles(#[trigger] rules[i].0)
}

/// Compiles each rule of `texts`, keeping their order; fails exactly when a
/// pattern is refused.
pub fn compile_rules(texts: &Vec<RuleText>) -> (r: Result<Vec<RewriteRule>, ProvisionError>)
    ensures
        r is Ok <==> all_compile(texts_view(texts@)),
        r matches Ok(rules) ==> rules_view(rules@) == texts_view(texts@),
        r is Err ==> r == Err::<Vec<RewriteRule>, ProvisionError>(ProvisionError::InvalidPattern),
{
    let mut rules: Vec<RewriteRule> = Vec::new();
    let mut i: usize = 0;
    while i < texts.len()
        invariant
            i <= texts@.len(),
            rules_view(rules@) =~= texts_view(texts@.take(i as int)),
            forall|k: int| 0 <= k < i ==> regex_compiles(#[trigger] texts@[k]@.0),
        decreases texts@.len() - i,
    {
        let text = &texts[i];
        match RewriteRule::compile(text.pattern.clone(), text.template.clone()) {
            Ok(rule) => {
                let ghost before = rules@;
                let ghost added = rule@;
                rules.push(rule);
                assert(rules_view(rules@) =~= rules_view(before).push(added));
            },
            Err(_) => {
                assert(!regex_compiles(texts_view(texts@)[i as int].0));
                return Err(ProvisionError::InvalidPattern);
            },
        }
        i = i + 1;
        assert(texts@.take(i as int) =~= texts@.take(i - 1).push(texts@[i - 1]));
        assert(rules_view(rules@) =~= texts_view(texts@.take(i as int)));
    }
    assert(texts@.take(i as int) =~= texts@);
    assert forall|k: int| 0 <= k < texts_view(texts@).len() implies regex_compiles(
        #[trigger] texts_view(texts@)[k].0,
    ) by {
        assert(texts_view(texts@)[k] == texts@[k]@);
    }
    Ok(rules)
}

/// The compiled rewrite rules for an archive of `platform` and `opt`
/// unpacked into `dests`.
pub fn build_rules(platform: Platform, opt: OptLevel, dests: &DestinationSet) -> (r: Result<
    Vec<RewriteRule>,
    ProvisionError,
>)
    ensures
        r is Ok <==> all_compile(rule_table(platform, opt, *dests)),
        r matches Ok(rules) ==> rules_view(rules@) == rule_table(platform, opt, *dests),
        r is Err ==> r == Err::<Vec<RewriteRule>, ProvisionError>(ProvisionError::InvalidPattern),
{
    compile_rules(&rewrite_rules(platform, opt, dests))
}

/// The position of the first `true` in `matched`, if there is one.
pub fn first_match(matched: &Vec<bool>) -> (r: Option<usize>)
    ensures
        match r {
            Some(i) => i < matched@.len() && matched@[i as int] && forall|j: int|
                0 <= j < i ==> !#[trigger] matched@[j],
            None => forall|j: int| 0 <= j < matched@.len() ==> !#[trigger] matched@[j],
        },
{
    let mut i: usize = 0;
    while i < matched.len()
        invariant
            i <= matched@.len(),
            forall|j: int| 0 <= j < i ==> !#[trigger] matched@[j],
        decreases matched@.len() - i,
    {
        if matched[i] {
            return Some(i);
        }
        i = i + 1;
    }
    None
}

/// The destination of the archive entry at `path`, or `None` when the entry
/// is to be left out.
pub fn destination_for(rules: &Vec<RewriteRule>, path: &str) -> (r: Option<String>)
    ensures
        text_of(r) == destination(rules_view(rules@), path@),
{
    let ghost all = rules_view(rules@);
    let mut matched: Vec<bool> = Vec::new();
    let mut i: usize = 0;
    while i < rules.len()
        invariant
            i <= rules@.len(),
            all == rules_view(rules@),
            matched@.len() == i,
            forall|j: int| 0 <= j < i ==> #[trigger] matched@[j] == regex_is_match(all[j].0, path@),
        decreases rules@.len() - i,
    {
        matched.push(rules[i].is_match(path));
        i = i + 1;
    }
    match first_match(&matched) {
        Some(k) => {
            proof {
                assert forall|j: int| 0 <= j < k implies !regex_is_match(#[trigger] all[j].0, path@) by {
                    assert(!matched@[j]);
                }
                lemma_first_matching_rule_decides(all, path@, k as int);
            }
            Some(rules[k].replace(path))
        },
        None => {
            proof {
                assert forall|j: int| 0 <= j < all.len() implies !regex_is_match(#[trigger] all[j].0, path@) by {
                    assert(!matched@[j]);
                }
                lemma_unmatched_has_no_destination(all, path@);
            }
            None
        },
    }
}

/// The earliest rule that matches decides where an entry goes, however many
/// later rules would match it too.
pub proof fn lemma_first_matching_rule_decides(
    rules: Seq<(Seq<char>, Seq<char>)>,
    path: Seq<char>,
    i: int,
)
    requires
        0 <= i < rules.len(),
        regex_is_match(rules[i].0, path),
        forall|j: int| 0 <= j < i ==> !regex_is_match(#[trigger] rules[j].0, path),
    ensures
        destination(rules, path) == Some(regex_replaced(rules[i].0, path, rules[i].1)),
    decreases i,
{
    if i > 0 {
        assert(!regex_is_match(rules[0].0, path));
        let rest = rules.drop_first();
        assert forall|j: int| 0 <= j < i - 1 implies !regex_is_match(#[trigger] rest[j].0, path) by {
            assert(rest[j] == rules[j + 1]);
        }
        lemma_first_matching_rule_decides(rest, path, i - 1);
    }
}

/// Rules appended after one that places an entry never change where it goes.
pub proof fn lemma_later_rules_never_override(
    rules: Seq<(Seq<char>, Seq<char>)>,
    more: Seq<(Seq<char>, Seq<char>)>,
    path: Seq<char>,
)
    requires
        destination(rules, path) is Some,
    ensures
        destination(rules + more, path) == destination(rules, path),
    decreases rules.len(),
{
    assert((rules + more)[0] == rules[0]);
    if !regex_is_match(rules[0].0, path) {
        assert((rules + more).drop_first() =~= rules.drop_first() + more);
        lemma_later_rules_never_override(rules.drop_first(), more, path);
    }
}

/// An entry gets no destination exactly when no rule matches its path.
pub proof fn lemma_unmatched_has_no_destination(
    rules: Seq<(Seq<char>, Seq<char>)>,
    path: Seq<char>,
)
    ensures
        destination(rules, path) is None <==> forall|j: int|
            0 <= j < rules.len() ==> !regex_is_match(#[trigger] rules[j].0, path),
    decreases rules.len(),
{
    if rules.len() > 0 {
        let rest = rules.drop_first();
        lemma_unmatched_has_no_destination(rest, path);
        if destination(rules, path) is None {
            assert forall|j: int| 0 <= j < rules.len() implies !regex_is_match(
                #[trigger] rules[j].0,
                path,
            ) by {
                if j > 0 {
                    assert(rules[j] == rest[j - 1]);
                }
            }
        } else if !regex_is_match(rules[0].0, path) {
            let j = choose|j: int| 0 <= j < rest.len() && regex_is_match(#[trigger] rest[j].0, path);
            assert(rules[j + 1] == rest[j]);
        }
    }
}

} // verus!
