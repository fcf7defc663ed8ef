//! The template data model: operators, variables, components and templates,
//! with canonical rendering back to template syntax.
//!
//! Each operator fixes five attributes that drive rendering and expansion:
//! a leading prefix, a separator, an escaping mode, whether the variable name
//! is included in the output, and whether an `=` is kept when the value is
//! empty.

use vstd::prelude::*;

use crate::escaping::{
    ascii_bytes_to_string,
    chars_of_ascii_bytes,
    UriTemplateEscaping,
};

verus! {

/// The seven RFC 6570 operators; absence of an operator means simple string
/// expansion.
#[derive(Copy, Clone, PartialEq, Eq, Structural, Debug)]
pub enum UriTemplateOperator {
    ReservedCharacter,
    Fragment,
    PathExtension,
    PathComponent,
    PathParameter,
    QueryParameter,
    QueryContinuation,
}

/// The character that names an operator in template syntax.
pub open spec fn op_render_char(op: UriTemplateOperator) -> char {
    match op {
        UriTemplateOperator::ReservedCharacter => '+',
        UriTemplateOperator::Fragment => '#',
        UriTemplateOperator::PathExtension => '.',
        UriTemplateOperator::PathComponent => '/',
        UriTemplateOperator::PathParameter => ';',
        UriTemplateOperator::QueryParameter => '?',
        UriTemplateOperator::QueryContinuation => '&',
    }
}

/// The tag written after `{` when rendering an expression.
pub open spec fn spec_render_tag(op: Option<UriTemplateOperator>) -> Seq<char> {
    match op {
        Some(o) => seq![op_render_char(o)],
        None => Seq::empty(),
    }
}

/// The text prepended to a non-empty expansion.
pub open spec fn spec_expansion_prefix(op: Option<UriTemplateOperator>) -> Seq<char> {
    match op {
        Some(UriTemplateOperator::ReservedCharacter) => Seq::empty(),
        Some(o) => seq![op_render_char(o)],
        None => Seq::empty(),
    }
}

/// The separator placed between variable contributions and exploded list
/// elements.
pub open spec fn spec_separator(op: Option<UriTemplateOperator>) -> char {
    match op {
        Some(UriTemplateOperator::PathExtension) => '.',
        Some(UriTemplateOperator::PathComponent) => '/',
        Some(UriTemplateOperator::PathParameter) => ';',
        Some(UriTemplateOperator::QueryParameter) => '&',
        Some(UriTemplateOperator::QueryContinuation) => '&',
        _ => ',',
    }
}

/// The escaping mode that the operator applies to expanded values.
pub open spec fn spec_escaping(op: Option<UriTemplateOperator>) -> UriTemplateEscaping {
    match op {
        Some(UriTemplateOperator::ReservedCharacter) => UriTemplateEscaping::UR,
        Some(UriTemplateOperator::Fragment) => UriTemplateEscaping::UR,
        _ => UriTemplateEscaping::U,
    }
}

/// Whether the operator writes `name=value` instead of the bare value.
pub open spec fn spec_include_name(op: Option<UriTemplateOperator>) -> bool {
    match op {
        Some(UriTemplateOperator::PathParameter) => true,
        Some(UriTemplateOperator::QueryParameter) => true,
        Some(UriTemplateOperator::QueryContinuation) => true,
        _ => false,
    }
}

/// Whether `name=` keeps its `=` when the value is empty.
pub open spec fn spec_include_equals_when_empty(op: Option<UriTemplateOperator>) -> bool {
    match op {
        Some(UriTemplateOperator::QueryParameter) => true,
        Some(UriTemplateOperator::QueryContinuation) => true,
        _ => false,
    }
}

/// A variable reference inside an expression: a name with the two orthogonal
/// modifiers, prefix truncation and explode.
#[derive(Clone, PartialEq, Eq)]
pub struct UriTemplateVariable {
    pub name: String,
    pub explode: bool,
    pub prefix: Option<u32>,
}

/// The mathematical content of a [`UriTemplateVariable`].
pub ghost struct UriTemplateVariableView {
    pub name: Seq<char>,
    pub explode: bool,
    pub prefix: Option<u32>,
}

impl View for UriTemplateVariable {
    type V = UriTemplateVariableView;

    open spec fn view(&self) -> UriTemplateVariableView {
        UriTemplateVariableView { name: self.name@, explode: self.explode, prefix: self.prefix }
    }
}

/// The decimal digit for a value below 10, as an ASCII byte.
pub open spec fn dec_digit_byte(n: int) -> u8
    recommends
        0 <= n < 10,
{
    (0x30 + n) as u8
}

/// The decimal digits of a number, most significant first.
pub open spec fn dec_bytes(n: nat) -> Seq<u8>
    decreases n,
{
    if n < 10 {
        seq![dec_digit_byte(n as int)]
    } else {
        dec_bytes(n / 10) + seq![dec_digit_byte((n % 10) as int)]
    }
}

/// The decimal digits of a number, as characters.
pub open spec fn spec_dec(n: nat) -> Seq<char> {
    chars_of_ascii_bytes(dec_bytes(n))
}

proof fn lemma_dec_bytes_ascii(n: nat)
    ensures
        forall|i: int| 0 <= i < dec_bytes(n).len() ==> #[trigger] dec_bytes(n)[i] < 0x80,
    decreases n,
{
    if n >= 10 {
        lemma_dec_bytes_ascii(n / 10);
        let head = dec_bytes(n / 10);
        let tail = seq![dec_digit_byte((n % 10) as int)];
        assert(forall|i: int|
            0 <= i < dec_bytes(n).len() ==> #[trigger] dec_bytes(n)[i] == if i < head.len() {
                head[i]
            } else {
                tail[i - head.len()]
            });
    }
}

fn push_dec_bytes(n: u32, out: &mut Vec<u8>)
    ensures
        final(out)@ == old(out)@ + dec_bytes(n as nat),
    decreases n,
{
    if n < 10 {
        out.push(0x30 + (n as u8));
        proof {
            assert(final(out)@ =~= old(out)@ + dec_bytes(n as nat));
        }
    } else {
        push_dec_bytes(n / 10, out);
        out.push(0x30 + ((n % 10) as u8));
        proof {
            assert(final(out)@ =~= old(out)@ + dec_bytes(n as nat));
        }
    }
}

/// The decimal rendering of a number.
fn u32_dec_string(n: u32) -> (r: String)
    ensures
        r@ == spec_dec(n as nat),
{
    let mut bytes: Vec<u8> = Vec::new();
    push_dec_bytes(n, &mut bytes);
    proof {
        lemma_dec_bytes_ascii(n as nat);
        assert(bytes@ =~= dec_bytes(n as nat));
    }
    ascii_bytes_to_string(bytes)
}

/// The varspec syntax for a variable: `name`, `name*`, `name:p`, `name*:p`.
pub open spec fn spec_varspec(v: UriTemplateVariableView) -> Seq<char> {
    v.name + (if v.explode {
        seq!['*']
    } else {
        Seq::<char>::empty()
    }) + (match v.prefix {
        Some(p) => seq![':'] + spec_dec(p as nat),
        None => Seq::<char>::empty(),
    })
}

impl UriTemplateVariable {
    /// A plain variable reference, without modifiers.
    pub fn new_simple(name: String) -> (r: UriTemplateVariable)
        ensures
            r@ == (UriTemplateVariableView { name: name@, explode: false, prefix: None }),
    {
        UriTemplateVariable { name, prefix: None, explode: false }
    }

    /// A variable reference truncated to its first `prefix` characters.
    pub fn new_prefix(name: String, prefix: u32) -> (r: UriTemplateVariable)
        ensures
            r@ == (UriTemplateVariableView { name: name@, explode: false, prefix: Some(prefix) }),
    {
        UriTemplateVariable { name, prefix: Some(prefix), explode: false }
    }

    /// An exploded variable reference.
    pub fn new_explode(name: String) -> (r: UriTemplateVariable)
        ensures
            r@ == (UriTemplateVariableView { name: name@, explode: true, prefix: None }),
    {
        UriTemplateVariable { name, prefix: None, explode: true }
    }

    /// An exploded variable reference with prefix truncation.
    pub fn new_explode_prefix(name: String, prefix: u32) -> (r: UriTemplateVariable)
        ensures
            r@ == (UriTemplateVariableView { name: name@, explode: true, prefix: Some(prefix) }),
    {
        UriTemplateVariable { name, prefix: Some(prefix), explode: true }
    }

    /// The varspec syntax for this variable.
    pub fn to_template_string(&self) -> (r: String)
        ensures
            r@ == spec_varspec(self@),
    {
        let mut s = self.name.clone();
        if self.explode {
            s.append("*");
            proof {
                reveal_strlit("*");
                assert(s@ =~= self@.name + seq!['*']);
            }
        }
        if let Some(p) = self.prefix {
            s.append(":");
            let digits = u32_dec_string(p);
            s.append(digits.as_str());
            proof {
                reveal_strlit(":");
            }
        }
        proof {
            assert(s@ =~= spec_varspec(self@));
        }
        s
    }

    /// The varspec syntax for this variable, consuming it.
    pub fn into_template_string(self) -> (r: String)
        ensures
            r@ == spec_varspec(self@),
    {
        self.to_template_string()
    }
}

/// The views of a sequence of strings.
pub open spec fn views_of_strings(v: Seq<String>) -> Seq<Seq<char>> {
    v.map_values(|s: String| s@)
}

/// The parts joined with the separator between consecutive parts.
pub open spec fn spec_join(parts: Seq<Seq<char>>, sep: Seq<char>) -> Seq<char>
    decreases parts.len(),
{
    if parts.len() == 0 {
        Seq::empty()
    } else if parts.len() == 1 {
        parts[0]
    } else {
        spec_join(parts.drop_last(), sep) + sep + parts.last()
    }
}

pub(crate) fn join_strings(parts: &Vec<String>, sep: &str) -> (r: String)
    ensures
        r@ == spec_join(views_of_strings(parts@), sep@),
{
    let ghost vs = views_of_strings(parts@);
    let mut r = String::new();
    let mut i: usize = 0;
    while i < parts.len()
        invariant
            i <= parts@.len(),
            vs == views_of_strings(parts@),
            vs.len() == parts@.len(),
            r@ == spec_join(vs.take(i as int), sep@),
        decreases parts@.len() - i,
    {
        if i > 0 {
            r.append(sep);
        }
        r.append(parts[i].as_str());
        proof {
            assert(vs.take(i + 1).drop_last() =~= vs.take(i as int));
            assert(vs.take(i + 1).last() == parts@[i as int]@);
            if i == 0 {
                assert(r@ =~= spec_join(vs.take(1), sep@));
            } else {
                assert(r@ =~= spec_join(vs.take(i + 1), sep@));
            }
        }
        i = i + 1;
    }
    proof {
        assert(vs.take(parts@.len() as int) =~= vs);
    }
    r
}

/// One piece of a template: literal text, or an expression of an optional
/// operator and an ordered list of variables.
#[derive(Clone, PartialEq, Eq)]
pub enum UriTemplateComponent {
    Literal(String),
    Variable(Option<UriTemplateOperator>, Vec<UriTemplateVariable>),
}

/// The mathematical content of a [`UriTemplateComponent`].
pub ghost enum UriTemplateComponentView {
    Literal(Seq<char>),
    Variable(Option<UriTemplateOperator>, Seq<UriTemplateVariableView>),
}

impl View for UriTemplateComponent {
    type V = UriTemplateComponentView;

    open spec fn view(&self) -> UriTemplateComponentView {
        match self {
            UriTemplateComponent::Literal(t) => UriTemplateComponentView::Literal(t@),
            UriTemplateComponent::Variable(op, vars) => UriTemplateComponentView::Variable(
                *op,
                vars@.map_values(|v: UriTemplateVariable| v@),
            ),
        }
    }
}

/// The canonical template syntax of one component: the literal text verbatim,
/// or `{`, the operator tag, the comma-joined varspecs, `}`.
pub open spec fn spec_component_render(c: UriTemplateComponentView) -> Seq<char> {
    match c {
        UriTemplateComponentView::Literal(t) => t,
        UriTemplateComponentView::Variable(op, vars) => seq!['{'] + spec_render_tag(op)
            + spec_join(vars.map_values(|v: UriTemplateVariableView| spec_varspec(v)), seq![','])
            + seq!['}'],
    }
}

fn render_tag_str(op: Option<UriTemplateOperator>) -> (r: &'static str)
    ensures
        r@ == spec_render_tag(op),
{
    proof {
        reveal_strlit("");
        reveal_strlit("+");
        reveal_strlit("#");
        reveal_strlit(".");
        reveal_strlit("/");
        reveal_strlit(";");
        reveal_strlit("?");
        reveal_strlit("&");
        assert(""@ =~= Seq::<char>::empty());
        assert("+"@ =~= seq!['+']);
        assert("#"@ =~= seq!['#']);
        assert("."@ =~= seq!['.']);
        assert("/"@ =~= seq!['/']);
        assert(";"@ =~= seq![';']);
        assert("?"@ =~= seq!['?']);
        assert("&"@ =~= seq!['&']);
    }
    match op {
        None => "",
        Some(UriTemplateOperator::ReservedCharacter) => "+",
        Some(UriTemplateOperator::Fragment) => "#",
        Some(UriTemplateOperator::PathExtension) => ".",
        Some(UriTemplateOperator::PathComponent) => "/",
        Some(UriTemplateOperator::PathParameter) => ";",
        Some(UriTemplateOperator::QueryParameter) => "?",
        Some(UriTemplateOperator::QueryContinuation) => "&",
    }
}

impl UriTemplateComponent {
    /// The canonical template syntax of this component.
    pub fn to_template_string(&self) -> (r: String)
        ensures
            r@ == spec_component_render(self@),
    {
        match self {
            UriTemplateComponent::Literal(value) => value.clone(),
            UriTemplateComponent::Variable(operator, variables) => {
                let ghost specs = self@->Variable_1.map_values(
                    |v: UriTemplateVariableView| spec_varspec(v),
                );
                let mut varspecs: Vec<String> = Vec::new();
                let mut i: usize = 0;
                while i < variables.len()
                    invariant
                        i <= variables@.len(),
                        specs == variables@.map_values(|v: UriTemplateVariable| v@).map_values(
                            |v: UriTemplateVariableView| spec_varspec(v),
                        ),
                        specs.len() == variables@.len(),
                        views_of_strings(varspecs@) == specs.take(i as int),
                    decreases variables@.len() - i,
                {
                    let vs = variables[i].to_template_string();
                    let ghost prev = varspecs@;
                    varspecs.push(vs);
                    proof {
                        assert(views_of_strings(prev).len() == prev.len());
                        assert(prev.len() == i as int);
                        assert forall|j: int| 0 <= j < varspecs@.len() implies views_of_strings(
                            varspecs@,
                        )[j] == specs.take(i + 1)[j] by {
                            if j < i {
                                assert(varspecs@[j] == prev[j]);
                                assert(views_of_strings(prev)[j] == specs.take(i as int)[j]);
                            } else {
                                assert(varspecs@[j] == vs);
                                assert(specs[j] == spec_varspec(
                                    variables@.map_values(|v: UriTemplateVariable| v@)[j],
                                ));
                            }
                        }
                        assert(views_of_strings(varspecs@) =~= specs.take(i + 1));
                    }
                    i = i + 1;
                }
                let tag = render_tag_str(*operator);
                let joined = join_strings(&varspecs, ",");
                let mut r = String::new();
                r.append("{");
                r.append(tag);
                r.append(joined.as_str());
                r.append("}");
                proof {
                    reveal_strlit("{");
                    reveal_strlit("}");
                    reveal_strlit(",");
                    assert("{"@ =~= seq!['{']);
                    assert("}"@ =~= seq!['}']);
                    assert(","@ =~= seq![',']);
                    assert(specs.take(variables@.len() as int) =~= specs);
                    assert(r@ =~= spec_component_render(self@));
                }
                r
            },
        }
    }

    /// The canonical template syntax of this component, consuming it.
    pub fn into_template_string(self) -> (r: String)
        ensures
            r@ == spec_component_render(self@),
    {
        self.to_template_string()
    }
}

/// An ordered sequence of components; the unit that renders to canonical
/// template syntax or expands against a value store.
#[derive(Clone, PartialEq, Eq)]
pub struct UriTemplate {
    pub components: Vec<UriTemplateComponent>,
}

impl View for UriTemplate {
    type V = Seq<UriTemplateComponentView>;

    open spec fn view(&self) -> Seq<UriTemplateComponentView> {
        self.components@.map_values(|c: UriTemplateComponent| c@)
    }
}

/// The canonical template syntax of a whole template: its components'
/// renderings concatenated in order.
pub open spec fn spec_template_render(cs: Seq<UriTemplateComponentView>) -> Seq<char>
    decreases cs.len(),
{
    if cs.len() == 0 {
        Seq::empty()
    } else {
        spec_template_render(cs.drop_last()) + spec_component_render(cs.last())
    }
}

impl UriTemplate {
    /// A template owning the given components, in order.
    pub fn from_components(components: Vec<UriTemplateComponent>) -> (r: UriTemplate)
        ensures
            r@ == components@.map_values(|c: UriTemplateComponent| c@),
    {
        UriTemplate { components }
    }

    /// The canonical template syntax of this template.
    pub fn to_template_string(&self) -> (r: String)
        ensures
            r@ == spec_template_render(self@),
    {
        let mut r = String::new();
        let mut i: usize = 0;
        while i < self.components.len()
            invariant
                i <= self.components@.len(),
                self@.len() == self.components@.len(),
                self@ == self.components@.map_values(|c: UriTemplateComponent| c@),
                r@ == spec_template_render(self@.take(i as int)),
            decreases self.components@.len() - i,
        {
            let piece = self.components[i].to_template_string();
            r.append(piece.as_str());
            proof {
                assert(self@.take(i + 1).drop_last() =~= self@.take(i as int));
                assert(self@.take(i + 1).last() == self.components@[i as int]@);
            }
            i = i + 1;
        }
        proof {
            assert(self@.take(self@.len() as int) =~= self@);
        }
        r
    }

    /// The canonical template syntax of this template, consuming it.
    pub fn into_template_string(self) -> (r: String)
        ensures
            r@ == spec_template_render(self@),
    {
        self.to_template_string()
    }
}

} // verus!
