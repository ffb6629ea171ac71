//! Query text with its bind parameters, and the optimizer-rule filter.

use vstd::prelude::*;
use vstd::string::*;
use crate::json::{get, lookup, lookup_from, Json};

verus! {

/// A query string and its named bind parameters.
#[derive(Debug, PartialEq)]
pub struct Query {
    pub string: String,
    /// The bind parameters, each name at most once.
    pub params: Vec<(String, Json)>,
}

/// The first index in `m` holding the name `key`, searching from `i`.
pub open spec fn first_index_from(m: Seq<(String, Json)>, key: Seq<char>, i: int) -> bool {
    &&& 0 <= i < m.len()
    &&& m[i].0@ == key
    &&& forall|j: int| 0 <= j < i ==> m[j].0@ != key
}

proof fn lemma_lookup_update_from(
    m: Seq<(String, Json)>,
    k: int,
    name: String,
    value: Json,
    key: Seq<char>,
    i: int,
)
    requires
        first_index_from(m, name@, k),
        0 <= i <= k,
    ensures
        lookup_from(m.update(k, (name, value)), key, i) == if key == name@ {
            Some(value)
        } else {
            lookup_from(m, key, i)
        },
    decreases m.len() - i,
{
    let u = m.update(k, (name, value));
    if i < k {
        assert(u[i] == m[i]);
        lemma_lookup_update_from(m, k, name, value, key, i + 1);
    } else {
        assert(u[i] == (name, value));
        if key != name@ {
            lemma_lookup_update_tail(m, k, name, value, key, k + 1);
        }
    }
}

proof fn lemma_lookup_update_tail(
    m: Seq<(String, Json)>,
    k: int,
    name: String,
    value: Json,
    key: Seq<char>,
    i: int,
)
    requires
        0 <= k < m.len(),
        k < i,
    ensures
        lookup_from(m.update(k, (name, value)), key, i) == lookup_from(m, key, i),
    decreases m.len() - i,
{
    let u = m.update(k, (name, value));
    if i < m.len() {
        assert(u[i] == m[i]);
        lemma_lookup_update_tail(m, k, name, value, key, i + 1);
    }
}

impl Query {
    /// A query with the given text and no bind parameters.
    pub fn new(query_string: String) -> (r: Query)
        ensures
            r.string == query_string,
            r.params@.len() == 0,
    {
        Query { string: query_string, params: Vec::new() }
    }

    /// The query text.
    pub fn str(&self) -> (r: &str)
        ensures
            r@ == self.string@,
    {
        self.string.as_str()
    }

    /// Sets the bind parameter `name`, replacing an earlier value of it.
    pub fn set_parameter(&mut self, name: String, value: Json)
        ensures
            final(self).string == old(self).string,
            lookup(final(self).params@, name@) == Some(value),
            forall|other: Seq<char>|
                other != name@ ==> lookup(final(self).params@, other) == lookup(
                    old(self).params@,
                    other,
                ),
    {
        let mut i: usize = 0;
        while i < self.params.len()
            invariant
                i <= self.params.len(),
                self.params@ == old(self).params@,
                self.string == old(self).string,
                forall|j: int| 0 <= j < i ==> self.params@[j].0@ != name@,
            decreases self.params.len() - i,
        {
            if self.params[i].0 == name {
                let ghost before = self.params@;
                proof {
                    assert(first_index_from(before, name@, i as int));
                    assert forall|other: Seq<char>| lookup(before.update(i as int, (name, value)), other)
                        == if other == name@ {
                        Some(value)
                    } else {
                        lookup(before, other)
                    } by {
                        lemma_lookup_update_from(before, i as int, name, value, other, 0);
                    }
                }
                self.params.set(i, (name, value));
                return;
            }
            i = i + 1;
        }
        let ghost before = self.params@;
        proof {
            assert forall|j: int| 0 <= j < before.len() implies before[j].0@ != name@ by {}
            lemma_lookup_absent(before, name@, 0);
            assert forall|other: Seq<char>| lookup(before.push((name, value)), other) == if lookup(
                before,
                other,
            ) is Some {
                lookup(before, other)
            } else if name@ == other {
                Some(value)
            } else {
                None
            } by {
                crate::json::lemma_lookup_push(before, name, value, other);
            }
        }
        self.params.push((name, value));
    }

    /// The bind parameter `name`, if it is set.
    pub fn parameter(&self, name: &str) -> (r: Option<&Json>)
        ensures
            match r {
                Some(v) => lookup(self.params@, name@) == Some(*v),
                None => lookup(self.params@, name@) is None,
            },
    {
        get(&self.params, name)
    }
}

proof fn lemma_lookup_absent(m: Seq<(String, Json)>, key: Seq<char>, i: int)
    requires
        0 <= i,
        forall|j: int| 0 <= j < m.len() ==> m[j].0@ != key,
    ensures
        lookup_from(m, key, i) is None,
    decreases m.len() - i,
{
    if i < m.len() {
        lemma_lookup_absent(m, key, i + 1);
    }
}

/// An optimizer rule of the remote planner: all of them, or one by name.
#[derive(Debug, PartialEq)]
pub enum OptimizerRule {
    All,
    Named(String),
}

/// The name by which the remote side knows `rule`.
pub open spec fn rule_name(rule: OptimizerRule) -> Seq<char> {
    match rule {
        OptimizerRule::All => "all"@,
        OptimizerRule::Named(s) => s@,
    }
}

/// `j` is the wire entry of `rule` with the given sign.
pub open spec fn is_rule_entry(sign: char, rule: OptimizerRule, j: Json) -> bool {
    j matches Json::Str(s) && s@ == seq![sign] + rule_name(rule)
}

/// Which optimizer rules to switch on and off, each list in the order given.
#[derive(Debug, PartialEq)]
pub struct OptimizerRuleSet {
    pub enabled: Vec<OptimizerRule>,
    pub disabled: Vec<OptimizerRule>,
}

/// `wire` lists the rules that `rules` switches off, each as `-name`,
/// followed by those it switches on, each as `+name`.
pub open spec fn is_rules_wire(rules: OptimizerRuleSet, wire: Seq<Json>) -> bool {
    let ex = rules.disabled@;
    let inc = rules.enabled@;
    &&& wire.len() == ex.len() + inc.len()
    &&& forall|i: int| 0 <= i < ex.len() ==> is_rule_entry('-', ex[i], #[trigger] wire[i])
    &&& forall|i: int|
        0 <= i < inc.len() ==> is_rule_entry('+', inc[i], #[trigger] wire[ex.len() + i])
}

fn rule_entry(sign: &str, rule: &OptimizerRule) -> (r: Json)
    requires
        sign@.len() == 1,
    ensures
        is_rule_entry(sign@[0], *rule, r),
{
    let mut s = String::from_str(sign);
    match rule {
        OptimizerRule::All => s.append("all"),
        OptimizerRule::Named(n) => s.append(n.as_str()),
    }
    proof {
        assert(sign@ =~= seq![sign@[0]]);
    }
    Json::Str(s)
}

impl OptimizerRuleSet {
    /// No rule switched on or off.
    pub fn new() -> (r: OptimizerRuleSet)
        ensures
            r.enabled@.len() == 0,
            r.disabled@.len() == 0,
    {
        OptimizerRuleSet { enabled: Vec::new(), disabled: Vec::new() }
    }

    /// Switches `rule` on, after the rules already listed.
    pub fn enable(&mut self, rule: OptimizerRule)
        ensures
            final(self).enabled@ == old(self).enabled@.push(rule),
            final(self).disabled@ == old(self).disabled@,
    {
        self.enabled.push(rule);
    }

    /// Switches `rule` off, after the rules already listed.
    pub fn disable(&mut self, rule: OptimizerRule)
        ensures
            final(self).disabled@ == old(self).disabled@.push(rule),
            final(self).enabled@ == old(self).enabled@,
    {
        self.disabled.push(rule);
    }

    /// The rule list as the remote side reads it.
    pub fn to_wire(&self) -> (r: Vec<Json>)
        ensures
            is_rules_wire(*self, r@),
    {
        let mut out: Vec<Json> = Vec::new();
        let mut i: usize = 0;
        proof {
            reveal_strlit("-");
            reveal_strlit("+");
        }
        while i < self.disabled.len()
            invariant
                i <= self.disabled.len(),
                out@.len() == i,
                "-"@ == seq!['-'],
                forall|j: int| 0 <= j < i ==> is_rule_entry('-', self.disabled@[j], #[trigger] out@[j]),
            decreases self.disabled.len() - i,
        {
            out.push(rule_entry("-", &self.disabled[i]));
            i = i + 1;
        }
        let mut k: usize = 0;
        while k < self.enabled.len()
            invariant
                k <= self.enabled.len(),
                out@.len() == self.disabled@.len() + k,
                "+"@ == seq!['+'],
                forall|j: int|
                    0 <= j < self.disabled@.len() ==> is_rule_entry('-', self.disabled@[j], #[trigger] out@[j]),
                forall|j: int|
                    0 <= j < k ==> is_rule_entry(
                        '+',
                        self.enabled@[j],
                        #[trigger] out@[self.disabled@.len() + j],
                    ),
            decreases self.enabled.len() - k,
        {
            out.push(rule_entry("+", &self.enabled[k]));
            k = k + 1;
        }
        out
    }
}

/// The names of `rules`, in order.
pub open spec fn rule_names(rules: Seq<OptimizerRule>) -> Seq<Seq<char>> {
    rules.map_values(|r: OptimizerRule| rule_name(r))
}

/// The names that the entries of `items` marked with `sign` carry, in order.
pub open spec fn signed_names(items: Seq<Json>, sign: char) -> Seq<Seq<char>>
    decreases items.len(),
{
    if items.len() == 0 {
        Seq::empty()
    } else {
        let rest = signed_names(items.drop_last(), sign);
        match items.last() {
            Json::Str(s) => if s@.len() > 0 && s@[0] == sign {
                rest.push(s@.drop_first())
            } else {
                rest
            },
            _ => rest,
        }
    }
}

proof fn lemma_signed_names_prefix(rules: OptimizerRuleSet, wire: Seq<Json>, k: int)
    requires
        is_rules_wire(rules, wire),
        0 <= k <= wire.len(),
    ensures
        k <= rules.disabled@.len() ==> signed_names(wire.subrange(0, k), '-') == rule_names(
            rules.disabled@.subrange(0, k),
        ) && signed_names(wire.subrange(0, k), '+') == Seq::<Seq<char>>::empty(),
        k >= rules.disabled@.len() ==> signed_names(wire.subrange(0, k), '-') == rule_names(
            rules.disabled@,
        ) && signed_names(wire.subrange(0, k), '+') == rule_names(
            rules.enabled@.subrange(0, k - rules.disabled@.len()),
        ),
    decreases k,
{
    let d = rules.disabled@.len() as int;
    let pre = wire.subrange(0, k);
    if k == 0 {
        assert(rules.disabled@.subrange(0, 0) =~= Seq::<OptimizerRule>::empty());
        assert(rule_names(rules.disabled@.subrange(0, 0)) =~= Seq::<Seq<char>>::empty());
        if d == 0 {
            assert(rules.disabled@ =~= Seq::<OptimizerRule>::empty());
            assert(rule_names(rules.disabled@) =~= Seq::<Seq<char>>::empty());
            assert(rules.enabled@.subrange(0, 0) =~= Seq::<OptimizerRule>::empty());
            assert(rule_names(rules.enabled@.subrange(0, 0)) =~= Seq::<Seq<char>>::empty());
        }
    } else {
        lemma_signed_names_prefix(rules, wire, k - 1);
        assert(pre.drop_last() =~= wire.subrange(0, k - 1));
        assert(pre.last() == wire[k - 1]);
        if k <= d {
            assert(is_rule_entry('-', rules.disabled@[k - 1], wire[k - 1]));
            let s = wire[k - 1]->Str_0;
            assert(s@ == seq!['-'] + rule_name(rules.disabled@[k - 1]));
            assert(s@.drop_first() =~= rule_name(rules.disabled@[k - 1]));
            assert(rules.disabled@.subrange(0, k) =~= rules.disabled@.subrange(0, k - 1).push(
                rules.disabled@[k - 1],
            ));
            assert(rule_names(rules.disabled@.subrange(0, k)) =~= rule_names(
                rules.disabled@.subrange(0, k - 1),
            ).push(rule_name(rules.disabled@[k - 1])));
            if k == d {
                assert(rules.disabled@.subrange(0, k) =~= rules.disabled@);
                assert(rules.enabled@.subrange(0, 0) =~= Seq::<OptimizerRule>::empty());
                assert(rule_names(rules.enabled@.subrange(0, 0)) =~= Seq::<Seq<char>>::empty());
            }
        } else {
            let j = k - 1 - d;
            assert(wire[d + j] == wire[k - 1]);
            assert(is_rule_entry('+', rules.enabled@[j], wire[k - 1]));
            let s = wire[k - 1]->Str_0;
            assert(s@ == seq!['+'] + rule_name(rules.enabled@[j]));
            assert(s@.drop_first() =~= rule_name(rules.enabled@[j]));
            assert(rules.enabled@.subrange(0, j + 1) =~= rules.enabled@.subrange(0, j).push(
                rules.enabled@[j],
            ));
            assert(rule_names(rules.enabled@.subrange(0, j + 1)) =~= rule_names(
                rules.enabled@.subrange(0, j),
            ).push(rule_name(rules.enabled@[j])));
        }
    }
}

/// The rule list on the wire gives back both lists: its entries marked `-`
/// name the rules switched off, those marked `+` the rules switched on, each
/// in the order given.
pub proof fn lemma_rules_wire_round_trip(rules: OptimizerRuleSet, wire: Seq<Json>)
    requires
        is_rules_wire(rules, wire),
    ensures
        signed_names(wire, '-') == rule_names(rules.disabled@),
        signed_names(wire, '+') == rule_names(rules.enabled@),
{
    lemma_signed_names_prefix(rules, wire, wire.len() as int);
    assert(wire.subrange(0, wire.len() as int) =~= wire);
    assert(rules.enabled@.subrange(0, rules.enabled@.len() as int) =~= rules.enabled@);
}

} // verus!
