//! Laws of escaping and expansion, stated over the specification functions
//! and proved once for all inputs.

use vstd::prelude::*;
use vstd::utf8::{encode_utf8, is_ascii_chars, is_ascii_chars_encode_utf8};

use crate::escaping::{
    chars_of_ascii_bytes,
    escaped_bytes,
    is_unreserved_byte,
    lemma_escaped_bytes_identity,
    passes_unescaped,
    spec_escape,
    UriTemplateEscaping,
};
use crate::expand::{
    spec_contributions,
    spec_expression_expansion,
    spec_truncated,
    spec_var_contribution,
    spec_var_values,
};
use crate::template::{
    spec_escaping,
    spec_expansion_prefix,
    spec_include_name,
    spec_join,
    spec_separator,
    UriTemplateOperator,
    UriTemplateVariableView,
};
use crate::values::{spec_resolved, UriTemplateValueView};

verus! {

/// An ASCII character that both escaping modes pass through unencoded.
pub open spec fn is_unreserved_char(c: char) -> bool {
    '\0' <= c <= '\u{7f}' && is_unreserved_byte(c as u8)
}

/// Escaping never alters text made of unreserved characters, in either mode;
/// in particular such text survives repeated escaping unchanged.  (Text
/// holding `%` has no such guarantee: escaping re-encodes every literal `%`.)
pub proof fn lemma_escape_unreserved_identity(method: UriTemplateEscaping, s: Seq<char>)
    requires
        forall|i: int| 0 <= i < s.len() ==> is_unreserved_char(#[trigger] s[i]),
    ensures
        spec_escape(method, s) == s,
{
    assert forall|i: int| 0 <= i < s.len() implies '\0' <= #[trigger] s[i] <= '\u{7f}' by {
        assert(is_unreserved_char(s[i]));
    }
    assert(is_ascii_chars(s));
    is_ascii_chars_encode_utf8(s);
    let bytes = encode_utf8(s);
    assert(forall|i: int|
        0 <= i < bytes.len() ==> passes_unescaped(method, #[trigger] bytes[i]));
    lemma_escaped_bytes_identity(method, bytes);
    assert(chars_of_ascii_bytes(bytes) =~= s);
}

/// Escaping the empty string yields the empty string.
pub proof fn lemma_escape_empty(method: UriTemplateEscaping)
    ensures
        spec_escape(method, Seq::<char>::empty()) == Seq::<char>::empty(),
{
    assert(encode_utf8(Seq::<char>::empty()) =~= Seq::<u8>::empty());
    assert(escaped_bytes(method, Seq::<u8>::empty()) =~= Seq::<u8>::empty());
    assert(chars_of_ascii_bytes(Seq::<u8>::empty()) =~= Seq::<char>::empty());
}

/// An undefined variable vanishes from an expression entirely: it leaves no
/// contribution and no stray separator, whatever the other variables are.
pub proof fn lemma_undefined_variable_drops(
    m: Map<Seq<char>, UriTemplateValueView>,
    op: Option<UriTemplateOperator>,
    vars: Seq<UriTemplateVariableView>,
    v: UriTemplateVariableView,
)
    requires
        !m.dom().contains(v.name),
    ensures
        spec_contributions(m, op, vars.push(v)) == spec_contributions(m, op, vars),
        spec_expression_expansion(m, op, vars.push(v)) == spec_expression_expansion(m, op, vars),
{
    assert(vars.push(v).drop_last() =~= vars);
    assert(vars.push(v).last() == v);
    assert(spec_resolved(m, v.name) == Seq::<Seq<char>>::empty());
    assert(spec_var_values(m, v, spec_escaping(op)).len() == 0);
}

/// A defined-but-empty scalar is not dropped: under a name-less operator it
/// still contributes (empty) text, so its separator is kept.
pub proof fn lemma_empty_scalar_contributes(
    m: Map<Seq<char>, UriTemplateValueView>,
    op: Option<UriTemplateOperator>,
    vars: Seq<UriTemplateVariableView>,
    v: UriTemplateVariableView,
)
    requires
        m.dom().contains(v.name),
        m[v.name] == UriTemplateValueView::Scalar(Seq::<char>::empty()),
        !v.explode,
        !spec_include_name(op),
    ensures
        spec_contributions(m, op, vars.push(v)) == spec_contributions(m, op, vars).push(
            Seq::<char>::empty(),
        ),
{
    assert(vars.push(v).drop_last() =~= vars);
    assert(vars.push(v).last() == v);
    let resolved = spec_resolved(m, v.name);
    assert(resolved =~= seq![Seq::<char>::empty()]);
    let vals = spec_var_values(m, v, spec_escaping(op));
    assert(spec_truncated(v.prefix, Seq::<char>::empty()) =~= Seq::<char>::empty());
    lemma_escape_empty(spec_escaping(op));
    assert(vals =~= seq![Seq::<char>::empty()]);
    assert(spec_var_contribution(v, op, vals) =~= Seq::<char>::empty());
}

/// Prefix truncation takes exactly the first `k` characters, and a prefix no
/// shorter than the value leaves it whole: no padding, no failure.
pub proof fn lemma_prefix_truncation(k: u32, s: Seq<char>)
    ensures
        spec_truncated(Some(k), s).len() == (if s.len() <= k {
            s.len() as int
        } else {
            k as int
        }),
        spec_truncated(Some(k), s) == s.take(
            if s.len() <= k {
                s.len() as int
            } else {
                k as int
            },
        ),
{
    if s.len() <= k {
        assert(s.take(s.len() as int) =~= s);
    }
}

/// An exploded list variable, alone under a name-less operator, expands to
/// its escaped elements joined with the operator separator, behind the
/// operator prefix.
pub proof fn lemma_explode_join(
    m: Map<Seq<char>, UriTemplateValueView>,
    op: Option<UriTemplateOperator>,
    v: UriTemplateVariableView,
    l: Seq<Seq<char>>,
)
    requires
        m.dom().contains(v.name),
        m[v.name] == UriTemplateValueView::List(l),
        l.len() > 0,
        v.explode,
        v.prefix is None,
        !spec_include_name(op),
    ensures
        spec_expression_expansion(m, op, seq![v]) == spec_expansion_prefix(op) + spec_join(
            l.map_values(|s: Seq<char>| spec_escape(spec_escaping(op), s)),
            seq![spec_separator(op)],
        ),
{
    let vars = seq![v];
    assert(vars.drop_last() =~= Seq::<UriTemplateVariableView>::empty());
    assert(vars.last() == v);
    let vals = spec_var_values(m, v, spec_escaping(op));
    assert(spec_resolved(m, v.name) == l);
    assert(vals =~= l.map_values(|s: Seq<char>| spec_escape(spec_escaping(op), s)));
    let contribution = spec_var_contribution(v, op, vals);
    assert(spec_contributions(m, op, Seq::<UriTemplateVariableView>::empty())
        == Seq::<Seq<char>>::empty());
    assert(spec_var_values(m, vars.last(), spec_escaping(op)) == vals);
    assert(vals.len() > 0);
    assert(spec_contributions(m, op, vars) =~= seq![contribution]);
}

/// `QueryParameter` on a defined-but-empty scalar keeps the equals sign:
/// the expression expands to `?name=`.
pub proof fn lemma_query_parameter_empty_keeps_equals(
    m: Map<Seq<char>, UriTemplateValueView>,
    v: UriTemplateVariableView,
)
    requires
        m.dom().contains(v.name),
        m[v.name] == UriTemplateValueView::Scalar(Seq::<char>::empty()),
        !v.explode,
    ensures
        spec_expression_expansion(m, Some(UriTemplateOperator::QueryParameter), seq![v]) == seq![
            '?',
        ] + v.name + seq!['='],
{
    let op = Some(UriTemplateOperator::QueryParameter);
    let vars = seq![v];
    assert(vars.drop_last() =~= Seq::<UriTemplateVariableView>::empty());
    assert(vars.last() == v);
    let vals = spec_var_values(m, v, spec_escaping(op));
    assert(spec_resolved(m, v.name) =~= seq![Seq::<char>::empty()]);
    assert(spec_truncated(v.prefix, Seq::<char>::empty()) =~= Seq::<char>::empty());
    lemma_escape_empty(spec_escaping(op));
    assert(vals =~= seq![Seq::<char>::empty()]);
    let contribution = spec_var_contribution(v, op, vals);
    assert(spec_join(vals, seq![',']) == Seq::<char>::empty());
    assert(contribution =~= v.name + seq!['=']);
    assert(spec_contributions(m, op, Seq::<UriTemplateVariableView>::empty())
        == Seq::<Seq<char>>::empty());
    assert(spec_var_values(m, vars.last(), spec_escaping(op)) == vals);
    assert(vals.len() > 0);
    assert(spec_contributions(m, op, vars) =~= seq![contribution]);
    assert(spec_expression_expansion(m, op, vars) =~= seq!['?'] + v.name + seq!['=']);
}

/// `PathParameter` on the same defined-but-empty scalar drops the equals
/// sign: the expression expands to `;name`.
pub proof fn lemma_path_parameter_empty_drops_equals(
    m: Map<Seq<char>, UriTemplateValueView>,
    v: UriTemplateVariableView,
)
    requires
        m.dom().contains(v.name),
        m[v.name] == UriTemplateValueView::Scalar(Seq::<char>::empty()),
        !v.explode,
    ensures
        spec_expression_expansion(m, Some(UriTemplateOperator::PathParameter), seq![v]) == seq![
            ';',
        ] + v.name,
{
    let op = Some(UriTemplateOperator::PathParameter);
    let vars = seq![v];
    assert(vars.drop_last() =~= Seq::<UriTemplateVariableView>::empty());
    assert(vars.last() == v);
    let vals = spec_var_values(m, v, spec_escaping(op));
    assert(spec_resolved(m, v.name) =~= seq![Seq::<char>::empty()]);
    assert(spec_truncated(v.prefix, Seq::<char>::empty()) =~= Seq::<char>::empty());
    lemma_escape_empty(spec_escaping(op));
    assert(vals =~= seq![Seq::<char>::empty()]);
    let contribution = spec_var_contribution(v, op, vals);
    assert(spec_join(vals, seq![',']) == Seq::<char>::empty());
    assert(contribution == v.name);
    assert(spec_contributions(m, op, Seq::<UriTemplateVariableView>::empty())
        == Seq::<Seq<char>>::empty());
    assert(spec_var_values(m, vars.last(), spec_escaping(op)) == vals);
    assert(vals.len() > 0);
    assert(spec_contributions(m, op, vars) =~= seq![contribution]);
    assert(spec_expression_expansion(m, op, vars) =~= seq![';'] + v.name);
}

} // verus!
