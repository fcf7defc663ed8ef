//! Value substitution: expanding components and templates against a store
//! of named values, following the per-operator rules.
//!
//! For each variable of an expression, the store's strings are truncated per
//! the prefix modifier, escaped per the operator's mode, and joined; a
//! variable that resolves to no strings is dropped entirely.  Surviving
//! contributions are joined with the operator's separator and, when any
//! survive, the operator's prefix character is prepended.
//!
//! RFC 6570 leaves the combination of a prefix modifier with an exploded
//! list undefined; as an extension, the prefix here truncates each element
//! before the explode join.

use vstd::prelude::*;
use vstd::string::StrSliceExecFns;
use vstd::string::StringExecFns;

use crate::escaping::{escape_string, spec_escape, UriTemplateEscaping};
use crate::template::{
    join_strings,
    spec_escaping,
    spec_expansion_prefix,
    spec_include_equals_when_empty,
    spec_include_name,
    spec_join,
    spec_separator,
    views_of_strings,
    UriTemplate,
    UriTemplateComponent,
    UriTemplateComponentView,
    UriTemplateOperator,
    UriTemplateVariableView,
};
use crate::values::{spec_resolved, UriTemplateValueView, UriTemplateValues};

verus! {

/// A value truncated to its first `prefix` characters, when a prefix
/// modifier is present; a prefix no shorter than the value leaves it whole.
pub open spec fn spec_truncated(prefix: Option<u32>, s: Seq<char>) -> Seq<char> {
    match prefix {
        Some(k) => if s.len() <= k {
            s
        } else {
            s.take(k as int)
        },
        None => s,
    }
}

/// The escaped texts a variable contributes before joining: its resolved
/// strings, truncated per the prefix modifier, escaped per the given mode.
pub open spec fn spec_var_values(
    m: Map<Seq<char>, UriTemplateValueView>,
    v: UriTemplateVariableView,
    method: UriTemplateEscaping,
) -> Seq<Seq<char>> {
    spec_resolved(m, v.name).map_values(
        |s: Seq<char>| spec_escape(method, spec_truncated(v.prefix, s)),
    )
}

/// The text one variable contributes, given its escaped values; meaningful
/// when at least one value is present.
pub open spec fn spec_var_contribution(
    v: UriTemplateVariableView,
    op: Option<UriTemplateOperator>,
    vals: Seq<Seq<char>>,
) -> Seq<char> {
    if !v.explode {
        let joined = spec_join(vals, seq![',']);
        if spec_include_name(op) {
            if joined.len() != 0 || spec_include_equals_when_empty(op) {
                v.name + seq!['='] + joined
            } else {
                v.name
            }
        } else {
            joined
        }
    } else {
        if spec_include_name(op) {
            spec_join(
                vals.map_values(|s: Seq<char>| v.name + seq!['='] + s),
                seq![spec_separator(op)],
            )
        } else {
            spec_join(vals, seq![spec_separator(op)])
        }
    }
}

/// The surviving variable contributions of an expression, in order; a
/// variable that resolves to no strings is dropped.
pub open spec fn spec_contributions(
    m: Map<Seq<char>, UriTemplateValueView>,
    op: Option<UriTemplateOperator>,
    vars: Seq<UriTemplateVariableView>,
) -> Seq<Seq<char>>
    decreases vars.len(),
{
    if vars.len() == 0 {
        Seq::empty()
    } else {
        let init = spec_contributions(m, op, vars.drop_last());
        let vals = spec_var_values(m, vars.last(), spec_escaping(op));
        if vals.len() == 0 {
            init
        } else {
            init.push(spec_var_contribution(vars.last(), op, vals))
        }
    }
}

/// The expansion of an expression: empty when every variable dropped (the
/// operator prefix is suppressed too), else the prefix followed by the
/// separator-joined contributions.
pub open spec fn spec_expression_expansion(
    m: Map<Seq<char>, UriTemplateValueView>,
    op: Option<UriTemplateOperator>,
    vars: Seq<UriTemplateVariableView>,
) -> Seq<char> {
    let cs = spec_contributions(m, op, vars);
    if cs.len() == 0 {
        Seq::empty()
    } else {
        spec_expansion_prefix(op) + spec_join(cs, seq![spec_separator(op)])
    }
}

/// The expansion of one component: a literal is escaped keeping reserved
/// characters; an expression expands per its operator.
pub open spec fn spec_component_expansion(
    m: Map<Seq<char>, UriTemplateValueView>,
    c: UriTemplateComponentView,
) -> Seq<char> {
    match c {
        UriTemplateComponentView::Literal(t) => spec_escape(UriTemplateEscaping::UR, t),
        UriTemplateComponentView::Variable(op, vars) => spec_expression_expansion(m, op, vars),
    }
}

/// The expansion of a whole template: its components' expansions
/// concatenated in order, with nothing between them.
pub open spec fn spec_template_expansion(
    m: Map<Seq<char>, UriTemplateValueView>,
    cs: Seq<UriTemplateComponentView>,
) -> Seq<char>
    decreases cs.len(),
{
    if cs.len() == 0 {
        Seq::empty()
    } else {
        spec_template_expansion(m, cs.drop_last()) + spec_component_expansion(m, cs.last())
    }
}

fn escaping_mode(op: Option<UriTemplateOperator>) -> (r: UriTemplateEscaping)
    ensures
        r == spec_escaping(op),
{
    match op {
        Some(UriTemplateOperator::ReservedCharacter) => UriTemplateEscaping::UR,
        Some(UriTemplateOperator::Fragment) => UriTemplateEscaping::UR,
        _ => UriTemplateEscaping::U,
    }
}

fn include_name_flag(op: Option<UriTemplateOperator>) -> (r: bool)
    ensures
        r == spec_include_name(op),
{
    match op {
        Some(UriTemplateOperator::PathParameter) => true,
        Some(UriTemplateOperator::QueryParameter) => true,
        Some(UriTemplateOperator::QueryContinuation) => true,
        _ => false,
    }
}

fn include_equals_flag(op: Option<UriTemplateOperator>) -> (r: bool)
    ensures
        r == spec_include_equals_when_empty(op),
{
    match op {
        Some(UriTemplateOperator::QueryParameter) => true,
        Some(UriTemplateOperator::QueryContinuation) => true,
        _ => false,
    }
}

fn expansion_prefix_str(op: Option<UriTemplateOperator>) -> (r: &'static str)
    ensures
        r@ == spec_expansion_prefix(op),
{
    proof {
        reveal_strlit("");
        reveal_strlit("#");
        reveal_strlit(".");
        reveal_strlit("/");
        reveal_strlit(";");
        reveal_strlit("?");
        reveal_strlit("&");
        assert(""@ =~= Seq::<char>::empty());
        assert("#"@ =~= seq!['#']);
        assert("."@ =~= seq!['.']);
        assert("/"@ =~= seq!['/']);
        assert(";"@ =~= seq![';']);
        assert("?"@ =~= seq!['?']);
        assert("&"@ =~= seq!['&']);
    }
    match op {
        None => "",
        Some(UriTemplateOperator::ReservedCharacter) => "",
        Some(UriTemplateOperator::Fragment) => "#",
        Some(UriTemplateOperator::PathExtension) => ".",
        Some(UriTemplateOperator::PathComponent) => "/",
        Some(UriTemplateOperator::PathParameter) => ";",
        Some(UriTemplateOperator::QueryParameter) => "?",
        Some(UriTemplateOperator::QueryContinuation) => "&",
    }
}

fn separator_str(op: Option<UriTemplateOperator>) -> (r: &'static str)
    ensures
        r@ == seq![spec_separator(op)],
{
    proof {
        reveal_strlit(",");
        reveal_strlit(".");
        reveal_strlit("/");
        reveal_strlit(";");
        reveal_strlit("&");
        assert(","@ =~= seq![',']);
        assert("."@ =~= seq!['.']);
        assert("/"@ =~= seq!['/']);
        assert(";"@ =~= seq![';']);
        assert("&"@ =~= seq!['&']);
    }
    match op {
        Some(UriTemplateOperator::PathExtension) => ".",
        Some(UriTemplateOperator::PathComponent) => "/",
        Some(UriTemplateOperator::PathParameter) => ";",
        Some(UriTemplateOperator::QueryParameter) => "&",
        Some(UriTemplateOperator::QueryContinuation) => "&",
        _ => ",",
    }
}

/// A string truncated to its first `k` characters; shorter strings are left
/// whole.
fn truncate_chars(s: &String, k: u32) -> (r: String)
    ensures
        r@ == spec_truncated(Some(k), s@),
{
    let n = s.as_str().unicode_len();
    if n <= k as usize {
        s.clone()
    } else {
        let sub = s.as_str().substring_char(0, k as usize);
        String::from_str(sub)
    }
}

fn strings_apply_prefix(strings: Vec<String>, prefix: u32) -> (r: Vec<String>)
    ensures
        views_of_strings(r@) == views_of_strings(strings@).map_values(
            |s: Seq<char>| spec_truncated(Some(prefix), s),
        ),
{
    let ghost target = views_of_strings(strings@).map_values(
        |s: Seq<char>| spec_truncated(Some(prefix), s),
    );
    let mut r: Vec<String> = Vec::new();
    let mut i: usize = 0;
    while i < strings.len()
        invariant
            i <= strings@.len(),
            target == views_of_strings(strings@).map_values(
                |s: Seq<char>| spec_truncated(Some(prefix), s),
            ),
            target.len() == strings@.len(),
            r@.len() == i as int,
            forall|j: int| 0 <= j < i ==> #[trigger] r@[j]@ == target[j],
        decreases strings@.len() - i,
    {
        let t = truncate_chars(&strings[i], prefix);
        r.push(t);
        proof {
            assert(target[i as int] == spec_truncated(Some(prefix), strings@[i as int]@));
        }
        i = i + 1;
    }
    proof {
        assert(views_of_strings(r@) =~= target);
    }
    r
}

fn strings_apply_escaping(strings: Vec<String>, method: UriTemplateEscaping) -> (r: Vec<String>)
    ensures
        views_of_strings(r@) == views_of_strings(strings@).map_values(
            |s: Seq<char>| spec_escape(method, s),
        ),
{
    let ghost target = views_of_strings(strings@).map_values(|s: Seq<char>| spec_escape(method, s));
    let mut r: Vec<String> = Vec::new();
    let mut i: usize = 0;
    while i < strings.len()
        invariant
            i <= strings@.len(),
            target == views_of_strings(strings@).map_values(|s: Seq<char>| spec_escape(method, s)),
            target.len() == strings@.len(),
            r@.len() == i as int,
            forall|j: int| 0 <= j < i ==> #[trigger] r@[j]@ == target[j],
        decreases strings@.len() - i,
    {
        let e = escape_string(method, strings[i].as_str());
        r.push(e);
        proof {
            assert(target[i as int] == spec_escape(method, strings@[i as int]@));
        }
        i = i + 1;
    }
    proof {
        assert(views_of_strings(r@) =~= target);
    }
    r
}

impl UriTemplateComponent {
    /// The expansion of this component against the given values.
    pub fn to_string_with_values(&self, values: &UriTemplateValues) -> (r: String)
        ensures
            r@ == spec_component_expansion(values@, self@),
    {
        match self {
            UriTemplateComponent::Literal(value) => escape_string(
                UriTemplateEscaping::UR,
                value.as_str(),
            ),
            UriTemplateComponent::Variable(operator, variables) => {
                let op = *operator;
                let ghost m = values@;
                let ghost varviews = variables@.map_values(|v: crate::template::UriTemplateVariable| v@);
                let method = escaping_mode(op);
                let include_name = include_name_flag(op);
                let include_equals = include_equals_flag(op);
                let sep = separator_str(op);
                let mut contributions: Vec<String> = Vec::new();
                let mut i: usize = 0;
                while i < variables.len()
                    invariant
                        i <= variables@.len(),
                        m == values@,
                        varviews == variables@.map_values(
                            |v: crate::template::UriTemplateVariable| v@,
                        ),
                        varviews.len() == variables@.len(),
                        method == spec_escaping(op),
                        include_name == spec_include_name(op),
                        include_equals == spec_include_equals_when_empty(op),
                        sep@ == seq![spec_separator(op)],
                        views_of_strings(contributions@) == spec_contributions(
                            m,
                            op,
                            varviews.take(i as int),
                        ),
                    decreases variables@.len() - i,
                {
                    let v = &variables[i];
                    let ghost vv = varviews[i as int];
                    proof {
                        assert(vv == v@);
                    }
                    let strings = values.strings_for_name(&v.name);
                    let truncated = if let Some(p) = v.prefix {
                        strings_apply_prefix(strings, p)
                    } else {
                        proof {
                            assert(views_of_strings(strings@) =~= spec_resolved(
                                m,
                                vv.name,
                            ).map_values(|s: Seq<char>| spec_truncated(vv.prefix, s)));
                        }
                        strings
                    };
                    proof {
                        assert(views_of_strings(truncated@) =~= spec_resolved(m, vv.name).map_values(
                            |s: Seq<char>| spec_truncated(vv.prefix, s),
                        ));
                    }
                    let escaped = strings_apply_escaping(truncated, method);
                    let ghost vals = spec_var_values(m, vv, spec_escaping(op));
                    proof {
                        assert(views_of_strings(escaped@) =~= vals);
                    }
                    if escaped.len() == 0 {
                        proof {
                            assert(vals.len() == 0);
                            assert(varviews.take(i + 1).drop_last() =~= varviews.take(i as int));
                            assert(varviews.take(i + 1).last() == vv);
                        }
                    } else {
                        let contribution: String = if !v.explode {
                            let joined = join_strings(&escaped, ",");
                            proof {
                                reveal_strlit(",");
                                assert(","@ =~= seq![',']);
                            }
                            if include_name {
                                if !joined.as_str().is_empty() || include_equals {
                                    let mut c = v.name.clone();
                                    c.append("=");
                                    c.append(joined.as_str());
                                    proof {
                                        reveal_strlit("=");
                                        assert(c@ =~= vv.name + seq!['='] + spec_join(
                                            vals,
                                            seq![','],
                                        ));
                                    }
                                    c
                                } else {
                                    v.name.clone()
                                }
                            } else {
                                joined
                            }
                        } else {
                            if include_name {
                                let ghost pair_target = vals.map_values(
                                    |s: Seq<char>| vv.name + seq!['='] + s,
                                );
                                let mut pairs: Vec<String> = Vec::new();
                                let mut j: usize = 0;
                                while j < escaped.len()
                                    invariant
                                        j <= escaped@.len(),
                                        vals == views_of_strings(escaped@),
                                        pair_target == vals.map_values(
                                            |s: Seq<char>| vv.name + seq!['='] + s,
                                        ),
                                        pair_target.len() == escaped@.len(),
                                        vv == v@,
                                        pairs@.len() == j as int,
                                        forall|t: int|
                                            0 <= t < j ==> #[trigger] pairs@[t]@ == pair_target[t],
                                    decreases escaped@.len() - j,
                                {
                                    let mut c = v.name.clone();
                                    c.append("=");
                                    c.append(escaped[j].as_str());
                                    pairs.push(c);
                                    proof {
                                        reveal_strlit("=");
                                        assert(pair_target[j as int] == vv.name + seq!['=']
                                            + escaped@[j as int]@);
                                        assert(pairs@[j as int]@ =~= pair_target[j as int]);
                                    }
                                    j = j + 1;
                                }
                                proof {
                                    assert(views_of_strings(pairs@) =~= pair_target);
                                }
                                join_strings(&pairs, sep)
                            } else {
                                join_strings(&escaped, sep)
                            }
                        };
                        let ghost prev = contributions@;
                        contributions.push(contribution);
                        proof {
                            assert(contribution@ == spec_var_contribution(vv, op, vals));
                            assert(varviews.take(i + 1).drop_last() =~= varviews.take(i as int));
                            assert(varviews.take(i + 1).last() == vv);
                            assert(views_of_strings(prev).len() == prev.len());
                            assert forall|t: int|
                                0 <= t < contributions@.len() implies views_of_strings(
                                contributions@,
                            )[t] == spec_contributions(m, op, varviews.take(i + 1))[t] by {
                                if t < prev.len() {
                                    assert(contributions@[t] == prev[t]);
                                    assert(views_of_strings(prev)[t] == spec_contributions(
                                        m,
                                        op,
                                        varviews.take(i as int),
                                    )[t]);
                                }
                            }
                            assert(views_of_strings(contributions@) =~= spec_contributions(
                                m,
                                op,
                                varviews.take(i + 1),
                            ));
                        }
                    }
                    i = i + 1;
                }
                proof {
                    assert(varviews.take(varviews.len() as int) =~= varviews);
                }
                if contributions.len() == 0 {
                    proof {
                        assert(spec_contributions(m, op, varviews).len() == 0);
                    }
                    String::new()
                } else {
                    let prefix = expansion_prefix_str(op);
                    let joined = join_strings(&contributions, sep);
                    let mut r = String::new();
                    r.append(prefix);
                    r.append(joined.as_str());
                    proof {
                        assert(r@ =~= spec_component_expansion(m, self@));
                    }
                    r
                }
            },
        }
    }
}

impl UriTemplate {
    /// The expansion of this template against the given values: the resolved
    /// URI-reference text.
    pub fn to_string_with_values(&self, values: &UriTemplateValues) -> (r: String)
        ensures
            r@ == spec_template_expansion(values@, self@),
    {
        let mut r = String::new();
        let mut i: usize = 0;
        while i < self.components.len()
            invariant
                i <= self.components@.len(),
                self@.len() == self.components@.len(),
                self@ == self.components@.map_values(|c: UriTemplateComponent| c@),
                r@ == spec_template_expansion(values@, self@.take(i as int)),
            decreases self.components@.len() - i,
        {
            let piece = self.components[i].to_string_with_values(values);
            r.append(piece.as_str());
            proof {
                assert(self@.take(i + 1).drop_last() =~= self@.take(i as int));
                assert(self@.take(i + 1).last() == self.components@[i as int]@);
            }
            i = i + 1;
        }
        proof {
            assert(self@.take(self@.len() as int) =~= self@);
        }
        r
    }
}

} // verus!
