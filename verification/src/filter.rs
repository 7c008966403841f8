//! Severity filter: a default threshold and per-target thresholds, looked up
//! by the longest rule that is a prefix of an event's target.

use vstd::prelude::*;

use crate::level::{lemma_names_parse, Level};
use crate::text::{chars_of, find, find_from, lemma_find, lemma_find_unique, starts_with};

verus! {

/// One rule of a directive string, as mathematics: a threshold for the
/// targets that begin with `target`, or for every target where it is `None`.
pub struct DirectiveModel {
    pub target: Option<Seq<char>>,
    pub level: Level,
}

impl DirectiveModel {
    /// Reads one piece of a directive string. `LEVEL` alone sets the default
    /// threshold; `target=LEVEL`, with a target that is not empty, sets the
    /// threshold of that target. The split is at the first `=`. Every other
    /// piece means nothing.
    pub open spec fn parse(piece: Seq<char>) -> Option<DirectiveModel> {
        let eq = find(piece, '=');
        if eq >= piece.len() {
            match Level::spec_parse(piece) {
                Some(level) => Some(DirectiveModel { target: None, level }),
                None => None,
            }
        } else if eq == 0 {
            None
        } else {
            match Level::spec_parse(piece.skip(eq + 1)) {
                Some(level) => Some(DirectiveModel { target: Some(piece.take(eq)), level }),
                None => None,
            }
        }
    }
}

/// One rule of a directive string.
#[derive(Clone, Debug, PartialEq, Eq)]
pub struct Directive {
    pub target: Option<String>,
    pub level: Level,
}

impl View for Directive {
    type V = DirectiveModel;

    open spec fn view(&self) -> DirectiveModel {
        DirectiveModel {
            target: match self.target {
                Some(t) => Some(t@),
                None => None,
            },
            level: self.level,
        }
    }
}

/// The view of an optional directive.
pub open spec fn directive_view(d: Option<Directive>) -> Option<DirectiveModel> {
    match d {
        Some(d) => Some(d@),
        None => None,
    }
}

impl Directive {
    /// Reads one piece of a directive string; `None` where the piece is not
    /// a directive.
    pub fn parse(piece: &str) -> (r: Option<Directive>)
        ensures
            directive_view(r) == DirectiveModel::parse(piece@),
    {
        let chars = chars_of(piece);
        let n = chars.len();
        let eq = find_from(&chars, 0, '=');
        assert(chars@.skip(0) =~= chars@);
        if eq >= n {
            assert(chars@.subrange(0, n as int) =~= chars@);
            match Level::parse(&chars, 0, n) {
                Some(level) => Some(Directive { target: None, level }),
                None => None,
            }
        } else if eq == 0 {
            None
        } else {
            assert(chars@.subrange(eq + 1, n as int) =~= chars@.skip(eq + 1));
            match Level::parse(&chars, eq + 1, n) {
                Some(level) => {
                    let target = piece.substring_char(0, eq).to_owned();
                    assert(target@ =~= piece@.take(eq as int));
                    Some(Directive { target: Some(target), level })
                },
                None => None,
            }
        }
    }
}

/// A severity filter, as mathematics.
pub struct FilterModel {
    /// Threshold of each target prefix that has a rule.
    pub rules: Map<Seq<char>, Level>,
    /// Threshold of the targets that no rule matches.
    pub default_level: Level,
}

impl FilterModel {
    pub open spec fn new(default_level: Level) -> FilterModel {
        FilterModel { rules: Map::empty(), default_level }
    }

    /// The filter with the threshold of `target` set to `level`.
    pub open spec fn with_rule(self, target: Seq<char>, level: Level) -> FilterModel {
        FilterModel { rules: self.rules.insert(target, level), ..self }
    }

    /// The filter with its default threshold set to `level`.
    pub open spec fn with_default(self, level: Level) -> FilterModel {
        FilterModel { default_level: level, ..self }
    }

    /// The filter after one directive.
    pub open spec fn with_directive(self, d: DirectiveModel) -> FilterModel {
        match d.target {
            Some(target) => self.with_rule(target, d.level),
            None => self.with_default(d.level),
        }
    }

    /// The filter after one piece of a directive string; a piece that is no
    /// directive changes nothing.
    pub open spec fn with_piece(self, piece: Seq<char>) -> FilterModel {
        match DirectiveModel::parse(piece) {
            Some(d) => self.with_directive(d),
            None => self,
        }
    }

    /// The filter after a directive string: its pieces, separated by commas,
    /// applied from left to right.
    pub open spec fn with_directives(self, s: Seq<char>) -> FilterModel
        decreases s.len(),
    {
        let n = find(s, ',');
        if 0 <= n < s.len() {
            self.with_piece(s.take(n)).with_directives(s.skip(n + 1))
        } else {
            self.with_piece(s)
        }
    }

    /// The filter after an optional directive string.
    pub open spec fn with_override(self, env: Option<Seq<char>>) -> FilterModel {
        match env {
            Some(s) => self.with_directives(s),
            None => self,
        }
    }

    /// The filter with the fixed rules for the chatty dependencies: each of
    /// them is held to `Warn`.
    pub open spec fn quieted(self) -> FilterModel {
        self.with_rule(noisy_target(0), Level::Warn).with_rule(noisy_target(1), Level::Warn)
            .with_rule(noisy_target(2), Level::Warn)
    }

    /// The filter with its default threshold raised to what `verbosity` asks
    /// for, where that is more verbose. The rules stay as they are.
    pub open spec fn raised(self, verbosity: usize) -> FilterModel {
        match Level::spec_from_verbosity(verbosity) {
            Some(level) => self.with_default(self.default_level.spec_loosest(level)),
            None => self,
        }
    }

    /// The filter that `base` becomes: the override's directives first, then
    /// the fixed rules, then the verbosity.
    pub open spec fn compose(base: FilterModel, verbosity: usize, env: Option<Seq<char>>)
        -> FilterModel {
        base.with_override(env).quieted().raised(verbosity)
    }

    /// The filter of a sink whose default threshold is `default_level`.
    pub open spec fn build(default_level: Level, verbosity: usize, env: Option<Seq<char>>)
        -> FilterModel {
        FilterModel::compose(FilterModel::new(default_level), verbosity, env)
    }

    /// `key` has a rule, is a prefix of `target`, and no rule that is a
    /// prefix of `target` is longer.
    pub open spec fn is_best_match(self, target: Seq<char>, key: Seq<char>) -> bool {
        &&& self.rules.dom().contains(key)
        &&& key.is_prefix_of(target)
        &&& forall|other: Seq<char>|
            #[trigger] self.rules.dom().contains(other) && other.is_prefix_of(target)
                ==> other.len() <= key.len()
    }

    /// The threshold of `target`: that of the longest rule that is a prefix
    /// of it, or the default where there is none.
    pub open spec fn threshold(self, target: Seq<char>) -> Level {
        if exists|key: Seq<char>| self.is_best_match(target, key) {
            self.rules[choose|key: Seq<char>| self.is_best_match(target, key)]
        } else {
            self.default_level
        }
    }

    /// Whether an event of `level` from `target` passes.
    pub open spec fn admits(self, level: Level, target: Seq<char>) -> bool {
        self.threshold(target).admits(level)
    }
}

/// One stored rule: a target prefix and its threshold.
struct Rule {
    target: Vec<char>,
    level: Level,
}

/// The rules of a list as a map; of two rules for one target the later one
/// counts.
spec fn rules_map(rules: Seq<Rule>) -> Map<Seq<char>, Level>
    decreases rules.len(),
{
    if rules.len() == 0 {
        Map::empty()
    } else {
        rules_map(rules.drop_last()).insert(rules.last().target@, rules.last().level)
    }
}

/// Some rule of the list is for `key`.
spec fn has_rule_for(rules: Seq<Rule>, key: Seq<char>) -> bool {
    exists|i: int| 0 <= i < rules.len() && (#[trigger] rules[i]).target@ == key
}

/// No rule after the one at `j` is for the same target.
spec fn is_last_for_its_target(rules: Seq<Rule>, j: int) -> bool {
    &&& 0 <= j < rules.len()
    &&& forall|i: int| j < i < rules.len() ==> (#[trigger] rules[i]).target@ != rules[j].target@
}

proof fn lemma_rules_map_dom(rules: Seq<Rule>, key: Seq<char>)
    ensures
        rules_map(rules).dom().contains(key) <==> has_rule_for(rules, key),
    decreases rules.len(),
{
    if rules.len() > 0 {
        let front = rules.drop_last();
        lemma_rules_map_dom(front, key);
        if has_rule_for(rules, key) {
            let i = choose|i: int| 0 <= i < rules.len() && (#[trigger] rules[i]).target@ == key;
            if i < front.len() {
                assert(front[i].target@ == key);
            }
        }
        if has_rule_for(front, key) {
            let i = choose|i: int| 0 <= i < front.len() && (#[trigger] front[i]).target@ == key;
            assert(rules[i].target@ == key);
        }
        if rules.last().target@ == key {
            assert(rules[rules.len() - 1].target@ == key);
        }
    }
}

proof fn lemma_rules_map_value(rules: Seq<Rule>, j: int)
    requires
        is_last_for_its_target(rules, j),
    ensures
        rules_map(rules).dom().contains(rules[j].target@),
        rules_map(rules)[rules[j].target@] == rules[j].level,
    decreases rules.len(),
{
    let front = rules.drop_last();
    if j < rules.len() - 1 {
        assert(rules[rules.len() - 1].target@ != rules[j].target@);
        assert forall|i: int| j < i < front.len() implies (#[trigger] front[i]).target@
            != front[j].target@ by {
            assert(front[i] == rules[i]);
        }
        lemma_rules_map_value(front, j);
    }
}

/// A severity filter. It never changes what an event is; it only says
/// whether a sink gets to see it.
pub struct SeverityFilter {
    rules: Vec<Rule>,
    default_level: Level,
}

impl View for SeverityFilter {
    type V = FilterModel;

    closed spec fn view(&self) -> FilterModel {
        FilterModel { rules: rules_map(self.rules@), default_level: self.default_level }
    }
}

impl SeverityFilter {
    /// A filter without rules.
    pub fn new(default_level: Level) -> (r: SeverityFilter)
        ensures
            r@ == FilterModel::new(default_level),
    {
        SeverityFilter { rules: Vec::new(), default_level }
    }

    /// The filter of a sink whose default threshold is `default_level`: the
    /// directives of `env` first, then the fixed rules for the chatty
    /// dependencies, then the verbosity.
    pub fn build(default_level: Level, verbosity: usize, env: Option<&str>) -> (r: SeverityFilter)
        ensures
            r@ == FilterModel::build(default_level, verbosity, option_str_view(env)),
    {
        SeverityFilter::compose(SeverityFilter::new(default_level), verbosity, env)
    }

    /// As `build`, starting from the rules of `base`.
    pub fn compose(base: SeverityFilter, verbosity: usize, env: Option<&str>) -> (r:
        SeverityFilter)
        ensures
            r@ == FilterModel::compose(base@, verbosity, option_str_view(env)),
    {
        let mut filter = base;
        match env {
            Some(s) => {
                filter.apply_directives(s);
            },
            None => {},
        }
        filter.quiet_noisy_targets();
        filter.raise_default(verbosity);
        filter
    }

    pub fn default_level(&self) -> (r: Level)
        ensures
            r == self@.default_level,
    {
        self.default_level
    }

    /// Sets the threshold of the targets that begin with `target`.
    pub fn set_rule(&mut self, target: &str, level: Level)
        ensures
            final(self)@ == old(self)@.with_rule(target@, level),
    {
        let rule = Rule { target: chars_of(target), level };
        proof {
            assert(self.rules@.push(rule).drop_last() =~= self.rules@);
        }
        self.rules.push(rule);
    }

    /// Sets the threshold of the targets that no rule matches.
    pub fn set_default(&mut self, level: Level)
        ensures
            final(self)@ == old(self)@.with_default(level),
    {
        self.default_level = level;
    }

    /// Applies one directive.
    pub fn add_directive(&mut self, directive: &Directive)
        ensures
            final(self)@ == old(self)@.with_directive(directive@),
    {
        match &directive.target {
            Some(target) => self.set_rule(target.as_str(), directive.level),
            None => self.set_default(directive.level),
        }
    }

    /// Applies a directive string: pieces separated by commas, from left to
    /// right. Pieces that are no directive are passed over.
    pub fn apply_directives(&mut self, directives: &str)
        ensures
            final(self)@ == old(self)@.with_directives(directives@),
    {
        let chars = chars_of(directives);
        let n = chars.len();
        let mut start: usize = 0;
        assert(chars@.skip(0) =~= chars@);
        loop
            invariant_except_break
                old(self)@.with_directives(directives@) == self@.with_directives(
                    chars@.skip(start as int),
                ),
            invariant
                start <= n,
                n == chars.len(),
                chars@ == directives@,
            ensures
                self@ == old(self)@.with_directives(directives@),
            decreases n - start,
        {
            let end = find_from(&chars, start, ',');
            let ghost rest = chars@.skip(start as int);
            let piece = directives.substring_char(start, end);
            assert(piece@ =~= rest.take(end - start));
            match Directive::parse(piece) {
                Some(d) => self.add_directive(&d),
                None => {},
            }
            if end < n {
                assert(rest.skip(end - start + 1) =~= chars@.skip(end + 1));
                start = end + 1;
            } else {
                assert(rest.take(end - start) =~= rest);
                break ;
            }
        }
    }

    /// Holds the chatty dependencies to `Warn`.
    pub fn quiet_noisy_targets(&mut self)
        ensures
            final(self)@ == old(self)@.quieted(),
    {
        self.set_rule("reqwest", Level::Warn);
        self.set_rule("hyper", Level::Warn);
        self.set_rule("h2", Level::Warn);
    }

    /// Raises the default threshold to what `verbosity` asks for.
    pub fn raise_default(&mut self, verbosity: usize)
        ensures
            final(self)@ == old(self)@.raised(verbosity),
    {
        match Level::from_verbosity(verbosity) {
            Some(level) => {
                let raised = self.default_level.loosest(level);
                self.set_default(raised);
            },
            None => {},
        }
    }

    /// The threshold that applies to `target`.
    pub fn threshold(&self, target: &str) -> (r: Level)
        ensures
            r == self@.threshold(target@),
    {
        let t = chars_of(target);
        let mut best: Option<usize> = None;
        let mut i: usize = 0;
        while i < self.rules.len()
            invariant
                i <= self.rules.len(),
                t@ == target@,
                match best {
                    Some(j) => {
                        &&& j < i
                        &&& self.rules@[j as int].target@.is_prefix_of(t@)
                        &&& forall|k: int|
                            0 <= k < i && (#[trigger] self.rules@[k]).target@.is_prefix_of(t@) ==> {
                                &&& self.rules@[k].target@.len() <= self.rules@[j as int].target@.len()
                                &&& k > j ==> self.rules@[k].target@.len()
                                    < self.rules@[j as int].target@.len()
                            }
                    },
                    None => forall|k: int|
                        0 <= k < i ==> !(#[trigger] self.rules@[k]).target@.is_prefix_of(t@),
                },
            decreases self.rules.len() - i,
        {
            if starts_with(&t, &self.rules[i].target) {
                let better = match best {
                    Some(j) => self.rules[i].target.len() >= self.rules[j].target.len(),
                    None => true,
                };
                if better {
                    best = Some(i);
                }
            }
            i += 1;
        }
        let ghost rules = self.rules@;
        let ghost model = self@;
        match best {
            Some(j) => {
                proof {
                    let key = rules[j as int].target@;
                    assert forall|k: int| j < k < rules.len() implies (#[trigger] rules[k]).target@
                        != key by {
                        if rules[k].target@ == key {
                            assert(rules[k].target@.is_prefix_of(t@));
                        }
                    }
                    lemma_rules_map_value(rules, j as int);
                    assert forall|other: Seq<char>| #[trigger]
                        model.rules.dom().contains(other) && other.is_prefix_of(
                            t@,
                        ) implies other.len() <= key.len() by {
                        lemma_rules_map_dom(rules, other);
                        let k = choose|k: int|
                            0 <= k < rules.len() && (#[trigger] rules[k]).target@ == other;
                        assert(rules[k].target@.is_prefix_of(t@));
                    }
                    assert(model.is_best_match(t@, key));
                    lemma_threshold_of_best_match(model, t@, key);
                }
                self.rules[j].level
            },
            None => {
                proof {
                    assert forall|key: Seq<char>| !model.is_best_match(t@, key) by {
                        if model.is_best_match(t@, key) {
                            lemma_rules_map_dom(rules, key);
                            let k = choose|k: int|
                                0 <= k < rules.len() && (#[trigger] rules[k]).target@ == key;
                            assert(rules[k].target@.is_prefix_of(t@));
                        }
                    }
                }
                self.default_level
            },
        }
    }

    /// Whether an event of `level` from `target` passes.
    pub fn allows(&self, level: Level, target: &str) -> (r: bool)
        ensures
            r == self@.admits(level, target@),
    {
        self.threshold(target).allows(level)
    }
}

/// The view of an optional string.
pub open spec fn option_str_view(s: Option<&str>) -> Option<Seq<char>> {
    match s {
        Some(s) => Some(s@),
        None => None,
    }
}

/// Names of the dependencies whose events are held to `Warn`.
pub open spec fn noisy_target(i: int) -> Seq<char> {
    if i == 0 {
        "reqwest"@
    } else if i == 1 {
        "hyper"@
    } else {
        "h2"@
    }
}

/// Two prefixes of one sequence that have the same length are equal.
pub proof fn lemma_prefixes_of_equal_length(a: Seq<char>, b: Seq<char>, s: Seq<char>)
    requires
        a.is_prefix_of(s),
        b.is_prefix_of(s),
        a.len() == b.len(),
    ensures
        a == b,
{
    assert(a =~= b);
}

/// There is at most one best match.
pub proof fn lemma_best_match_unique(m: FilterModel, target: Seq<char>, a: Seq<char>, b: Seq<char>)
    requires
        m.is_best_match(target, a),
        m.is_best_match(target, b),
    ensures
        a == b,
{
    lemma_prefixes_of_equal_length(a, b, target);
}

/// Where there is a best match, the threshold is its rule.
pub proof fn lemma_threshold_of_best_match(m: FilterModel, target: Seq<char>, key: Seq<char>)
    requires
        m.is_best_match(target, key),
    ensures
        m.threshold(target) == m.rules[key],
{
    let chosen = choose|k: Seq<char>| m.is_best_match(target, k);
    lemma_best_match_unique(m, target, key, chosen);
}

/// A target that has a rule of its own gets that rule's threshold, whatever
/// other rules there are.
pub proof fn lemma_own_rule_wins(m: FilterModel, target: Seq<char>)
    requires
        m.rules.dom().contains(target),
    ensures
        m.threshold(target) == m.rules[target],
{
    assert(target.is_prefix_of(target)) by {
        assert(target =~= target.subrange(0, target.len() as int));
    }
    lemma_threshold_of_best_match(m, target, target);
}

/// A threshold is the default or the threshold of some rule.
pub proof fn lemma_threshold_source(m: FilterModel, target: Seq<char>)
    ensures
        m.threshold(target) == m.default_level || exists|key: Seq<char>|
            #[trigger] m.rules.dom().contains(key) && key.is_prefix_of(target) && m.rules[key]
                == m.threshold(target),
{
    if exists|key: Seq<char>| m.is_best_match(target, key) {
        let key = choose|key: Seq<char>| m.is_best_match(target, key);
        assert(m.rules.dom().contains(key) && key.is_prefix_of(target) && m.rules[key]
            == m.threshold(target));
    }
}

/// The fixed rules are a ceiling: whatever the starting rules, the override
/// and the verbosity, a chatty dependency's own target has the threshold
/// `Warn`, so its events pass exactly when they are errors or warnings.
pub proof fn lemma_noisy_targets_are_capped(
    base: FilterModel,
    verbosity: usize,
    env: Option<Seq<char>>,
    i: int,
    level: Level,
)
    requires
        0 <= i < 3,
    ensures
        FilterModel::compose(base, verbosity, env).threshold(noisy_target(i)) == Level::Warn,
        FilterModel::compose(base, verbosity, env).admits(level, noisy_target(i)) <==> (level
            == Level::Error || level == Level::Warn),
{
    let filter = FilterModel::compose(base, verbosity, env);
    let quieted = base.with_override(env).quieted();
    assert(filter.rules == quieted.rules);
    assert(quieted.rules.dom().contains(noisy_target(i)));
    assert(quieted.rules[noisy_target(i)] == Level::Warn);
    lemma_own_rule_wins(filter, noisy_target(i));
}

/// The ceiling covers what lies below a chatty dependency's target as well:
/// a target that begins with its name has the threshold `Warn`, unless a
/// longer rule matches the target too.
pub proof fn lemma_noisy_descendants_are_capped(
    base: FilterModel,
    verbosity: usize,
    env: Option<Seq<char>>,
    i: int,
    target: Seq<char>,
)
    requires
        0 <= i < 3,
        noisy_target(i).is_prefix_of(target),
        forall|key: Seq<char>|
            #[trigger] FilterModel::compose(base, verbosity, env).rules.dom().contains(key)
                && key.is_prefix_of(target) ==> key.len() <= noisy_target(i).len(),
    ensures
        FilterModel::compose(base, verbosity, env).threshold(target) == Level::Warn,
{
    let filter = FilterModel::compose(base, verbosity, env);
    let quieted = base.with_override(env).quieted();
    assert(filter.rules == quieted.rules);
    assert(quieted.rules.dom().contains(noisy_target(i)));
    assert(quieted.rules[noisy_target(i)] == Level::Warn);
    lemma_threshold_of_best_match(filter, target, noisy_target(i));
}

/// Without an override, a sink whose default threshold admits warnings
/// admits errors and warnings from every target, at every verbosity.
pub proof fn lemma_warnings_pass_by_default(
    default_level: Level,
    verbosity: usize,
    target: Seq<char>,
    level: Level,
)
    requires
        default_level.admits(Level::Warn),
        level == Level::Error || level == Level::Warn,
    ensures
        FilterModel::build(default_level, verbosity, None).admits(level, target),
{
    let filter = FilterModel::build(default_level, verbosity, None);
    lemma_threshold_source(filter, target);
}

/// The verbosity moves the default threshold only: the rules are those of
/// verbosity 0, and so is the threshold of every target that a rule matches.
pub proof fn lemma_verbosity_keeps_rules(
    base: FilterModel,
    verbosity: usize,
    env: Option<Seq<char>>,
    target: Seq<char>,
)
    ensures
        FilterModel::compose(base, verbosity, env).rules == FilterModel::compose(
            base,
            0,
            env,
        ).rules,
        (exists|key: Seq<char>| FilterModel::compose(base, 0, env).is_best_match(target, key))
            ==> FilterModel::compose(base, verbosity, env).threshold(target)
            == FilterModel::compose(base, 0, env).threshold(target),
        FilterModel::compose(base, verbosity, env).default_level.admits(
            FilterModel::compose(base, 0, env).default_level,
        ),
{
    let quiet = FilterModel::compose(base, 0, env);
    let loud = FilterModel::compose(base, verbosity, env);
    if exists|key: Seq<char>| quiet.is_best_match(target, key) {
        let key = choose|key: Seq<char>| quiet.is_best_match(target, key);
        assert(loud.is_best_match(target, key));
        lemma_threshold_of_best_match(loud, target, key);
        lemma_threshold_of_best_match(quiet, target, key);
    }
}

/// An error passes every filter.
pub proof fn lemma_errors_always_pass(m: FilterModel, target: Seq<char>)
    ensures
        m.admits(Level::Error, target),
{
}

/// A level name alone is a directive for the default threshold.
pub proof fn lemma_level_alone_is_a_directive(level: Level)
    ensures
        DirectiveModel::parse(level.spec_name()) == Some(
            DirectiveModel { target: None, level },
        ),
        DirectiveModel::parse(level.spec_lower_name()) == Some(
            DirectiveModel { target: None, level },
        ),
{
    lemma_names_parse(level);
    lemma_find(level.spec_name(), '=');
    lemma_find(level.spec_lower_name(), '=');
}

/// A target, an equals sign and a level name are a directive for that
/// target, whatever the target holds, as long as it is not empty and holds
/// no equals sign itself.
pub proof fn lemma_target_and_level_are_a_directive(target: Seq<char>, level: Level)
    requires
        target.len() > 0,
        !target.contains('='),
    ensures
        DirectiveModel::parse(target + seq!['='] + level.spec_name()) == Some(
            DirectiveModel { target: Some(target), level },
        ),
        DirectiveModel::parse(target + seq!['='] + level.spec_lower_name()) == Some(
            DirectiveModel { target: Some(target), level },
        ),
{
    lemma_names_parse(level);
    let upper = target + seq!['='] + level.spec_name();
    let lower = target + seq!['='] + level.spec_lower_name();
    let n = target.len() as int;
    assert forall|i: int| 0 <= i < n implies upper[i] != '=' && lower[i] != '=' by {
        assert(upper[i] == target[i]);
        assert(lower[i] == target[i]);
    }
    lemma_find_unique(upper, '=', n);
    lemma_find_unique(lower, '=', n);
    assert(upper.skip(n + 1) =~= level.spec_name());
    assert(lower.skip(n + 1) =~= level.spec_lower_name());
    assert(upper.take(n) =~= target);
    assert(lower.take(n) =~= target);
}

/// Two directive strings joined by a comma do what the first does and then
/// the second.
pub proof fn lemma_directives_compose(m: FilterModel, first: Seq<char>, second: Seq<char>)
    ensures
        m.with_directives(first + seq![','] + second) == m.with_directives(first).with_directives(
            second,
        ),
    decreases first.len(),
{
    let joined = first + seq![','] + second;
    let n = find(first, ',');
    lemma_find(first, ',');
    assert forall|i: int| 0 <= i < n implies joined[i] != ',' by {
        assert(joined[i] == first[i]);
    }
    assert(joined[n] == ',');
    lemma_find_unique(joined, ',', n);
    assert(joined.take(n) =~= first.take(n));
    if n < first.len() {
        assert(joined.skip(n + 1) =~= first.skip(n + 1) + seq![','] + second);
        lemma_directives_compose(m.with_piece(first.take(n)), first.skip(n + 1), second);
    } else {
        assert(first.take(n) =~= first);
        assert(joined.skip(n + 1) =~= second);
    }
}

} // verus!
