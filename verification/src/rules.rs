use vstd::prelude::*;

use crate::window::WindowContext;

verus! {

/// One entry of the ordered rule list. A pattern matches a context field by
/// case-sensitive substring containment; an empty (or absent) pattern is a
/// wildcard. `switch_to` is the profile the rule selects.
pub struct Rules {
    pub app_name: String,
    pub process_name: Option<String>,
    pub window_title: String,
    pub enabled: bool,
    pub switch_to: u32,
}

/// The in-memory configuration: a global switch and the ordered rule list
/// (list order is priority, first match wins).
pub struct Config {
    pub autoswitch_enabled: Option<bool>,
    pub rules_list: Vec<Rules>,
}

/// `needle` occurs somewhere in `hay` as a contiguous run of characters.
pub open spec fn is_substring(needle: Seq<char>, hay: Seq<char>) -> bool {
    exists|i: int| 0 <= i && i + needle.len() <= hay.len() && #[trigger] hay.subrange(i, i + needle.len()) == needle
}

/// A pattern admits a field when it is empty (wildcard) or occurs in the
/// field as a substring.
pub open spec fn pattern_admits(pattern: Seq<char>, field: Seq<char>) -> bool {
    pattern.len() == 0 || is_substring(pattern, field)
}

/// An enabled rule matches a context when all three of its patterns admit
/// the corresponding context fields; an absent process-name pattern is a
/// wildcard.
pub open spec fn spec_rule_matches(rule: Rules, ctx: WindowContext) -> bool {
    &&& rule.enabled
    &&& pattern_admits(rule.app_name@, ctx.app_name@)
    &&& pattern_admits(rule.window_title@, ctx.title@)
    &&& (match rule.process_name {
        Some(p) => pattern_admits(p@, ctx.process_name@),
        None => true,
    })
}

/// The target profile of the first matching rule, in list order, if any.
pub open spec fn spec_next_profile(rules: Seq<Rules>, ctx: WindowContext) -> Option<u32>
    decreases rules.len(),
{
    if rules.len() == 0 {
        None
    } else if spec_rule_matches(rules[0], ctx) {
        Some(rules[0].switch_to)
    } else {
        spec_next_profile(rules.drop_first(), ctx)
    }
}

/// The position of the first matching rule; the list length when none
/// matches.
pub open spec fn spec_first_match(rules: Seq<Rules>, ctx: WindowContext) -> int
    decreases rules.len(),
{
    if rules.len() == 0 {
        0
    } else if spec_rule_matches(rules[0], ctx) {
        0
    } else {
        1 + spec_first_match(rules.drop_first(), ctx)
    }
}

/// The empty pattern admits every field.
pub proof fn lemma_empty_pattern_admits(pattern: Seq<char>, field: Seq<char>)
    requires
        pattern.len() == 0,
    ensures
        is_substring(pattern, field),
        pattern_admits(pattern, field),
{
    assert(field.subrange(0, 0 + pattern.len() as int) =~= pattern);
}

/// Relies on str::contains: it returns true exactly when the pattern occurs
/// as a contiguous substring of the string slice.
#[verifier::external_body]
fn str_contains(hay: &str, needle: &str) -> (r: bool)
    ensures
        r == is_substring(needle@, hay@),
{
    hay.contains(needle)
}

/// Whether `rule` matches `ctx`: the rule is enabled and each of its
/// patterns is empty or contained in the corresponding field of `ctx`.
pub fn rule_matches(rule: &Rules, ctx: &WindowContext) -> (b: bool)
    ensures
        b == spec_rule_matches(*rule, *ctx),
{
    if !rule.enabled {
        return false;
    }
    let app_ok = str_contains(ctx.app_name.as_str(), rule.app_name.as_str());
    proof {
        if rule.app_name@.len() == 0 {
            lemma_empty_pattern_admits(rule.app_name@, ctx.app_name@);
        }
    }
    let title_ok = str_contains(ctx.title.as_str(), rule.window_title.as_str());
    proof {
        if rule.window_title@.len() == 0 {
            lemma_empty_pattern_admits(rule.window_title@, ctx.title@);
        }
    }
    let process_ok = match &rule.process_name {
        Some(p) => {
            let ok = str_contains(ctx.process_name.as_str(), p.as_str());
            proof {
                if p@.len() == 0 {
                    lemma_empty_pattern_admits(p@, ctx.process_name@);
                }
            }
            ok
        },
        None => true,
    };
    app_ok && title_ok && process_ok
}

/// The profile to switch to for the current context: the target of the
/// first enabled rule whose patterns all match, or nothing.
pub fn next_profile(config: &Config, ctx: &WindowContext) -> (r: Option<u32>)
    ensures
        r == spec_next_profile(config.rules_list@, *ctx),
{
    let rules = &config.rules_list;
    let n = rules.len();
    let mut i: usize = 0;
    proof {
        assert(rules@.skip(0) =~= rules@);
    }
    while i < n
        invariant
            i <= n,
            n == rules@.len(),
            rules@ == config.rules_list@,
            spec_next_profile(rules@, *ctx) == spec_next_profile(rules@.skip(i as int), *ctx),
        decreases n - i,
    {
        let rule = &rules[i];
        proof {
            assert(rules@.skip(i as int)[0] == rules@[i as int]);
        }
        if rule_matches(rule, ctx) {
            return Some(rule.switch_to);
        }
        proof {
            assert(rules@.skip(i as int).drop_first() =~= rules@.skip(i as int + 1));
        }
        i = i + 1;
    }
    proof {
        assert(rules@.skip(n as int) =~= Seq::<Rules>::empty());
    }
    None
}

/// When no rule in the list matches the context, no profile is selected.
pub proof fn lemma_no_match_yields_none(rules: Seq<Rules>, ctx: WindowContext)
    requires
        forall|i: int| 0 <= i < rules.len() ==> !spec_rule_matches(#[trigger] rules[i], ctx),
    ensures
        spec_next_profile(rules, ctx) is None,
    decreases rules.len(),
{
    if rules.len() > 0 {
        assert(forall|i: int| 0 <= i < rules.drop_first().len()
            ==> #[trigger] rules.drop_first()[i] == rules[i + 1]);
        lemma_no_match_yields_none(rules.drop_first(), ctx);
    }
}

/// The selected profile is always the target of the earliest matching rule:
/// the first match is at a well-defined position, no rule before it matches,
/// and its target is the result.
pub proof fn lemma_next_profile_is_first_match(rules: Seq<Rules>, ctx: WindowContext, i: int)
    requires
        0 <= i < rules.len(),
        spec_rule_matches(rules[i], ctx),
    ensures
        0 <= spec_first_match(rules, ctx) <= i,
        spec_rule_matches(rules[spec_first_match(rules, ctx)], ctx),
        forall|m: int| 0 <= m < spec_first_match(rules, ctx) ==> !spec_rule_matches(#[trigger] rules[m], ctx),
        spec_next_profile(rules, ctx) == Some(rules[spec_first_match(rules, ctx)].switch_to),
    decreases rules.len(),
{
    if !spec_rule_matches(rules[0], ctx) {
        let sub = rules.drop_first();
        assert(forall|m: int| 0 <= m < sub.len() ==> #[trigger] sub[m] == rules[m + 1]);
        lemma_next_profile_is_first_match(sub, ctx, i - 1);
        let fm = spec_first_match(sub, ctx);
        assert(spec_first_match(rules, ctx) == 1 + fm);
        assert(rules[1 + fm] == sub[fm]);
        assert forall|m: int| 0 <= m < 1 + fm implies !spec_rule_matches(#[trigger] rules[m], ctx) by {
            if m > 0 {
                assert(rules[m] == sub[m - 1]);
            }
        }
    }
}

/// First match wins: when two enabled rules both match the context, the
/// result is decided at or before the earlier of the two positions, however
/// specific the later rule's patterns are.
pub proof fn lemma_first_match_wins(rules: Seq<Rules>, ctx: WindowContext, i: int, j: int)
    requires
        0 <= i < j < rules.len(),
        spec_rule_matches(rules[i], ctx),
        spec_rule_matches(rules[j], ctx),
    ensures
        spec_first_match(rules, ctx) <= i,
        spec_next_profile(rules, ctx) == Some(rules[spec_first_match(rules, ctx)].switch_to),
{
    lemma_next_profile_is_first_match(rules, ctx, i);
}

/// A rule whose three patterns are all empty (or absent) is a wildcard: if
/// it is enabled, it matches every context.
pub proof fn lemma_all_empty_patterns_match(rule: Rules, ctx: WindowContext)
    requires
        rule.enabled,
        rule.app_name@.len() == 0,
        rule.window_title@.len() == 0,
        (rule.process_name matches Some(p) ==> p@.len() == 0),
    ensures
        spec_rule_matches(rule, ctx),
{
    lemma_empty_pattern_admits(rule.app_name@, ctx.app_name@);
    lemma_empty_pattern_admits(rule.window_title@, ctx.title@);
    match rule.process_name {
        Some(p) => lemma_empty_pattern_admits(p@, ctx.process_name@),
        None => (),
    }
}

} // verus!
