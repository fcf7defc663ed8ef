//! A fluent construction API: a builder accumulates literal and expression
//! components in call order and finally yields an immutable template.

use vstd::prelude::*;
use vstd::string::StringExecFns;

use crate::template::{
    spec_template_render,
    UriTemplate,
    UriTemplateComponent,
    UriTemplateComponentView,
    UriTemplateOperator,
    UriTemplateVariable,
    UriTemplateVariableView,
};

verus! {

/// The modifier attached to one variable reference in the builder API.
#[derive(Copy, Clone, PartialEq, Eq, Structural)]
pub enum UriTemplateModifier {
    Prefix(u32),
    Explode,
    ExplodePrefix(u32),
}

/// The variable view that a builder call with the given name and modifier
/// appends.
pub open spec fn spec_built_variable(name: Seq<char>, modifier: Option<UriTemplateModifier>) -> UriTemplateVariableView {
    match modifier {
        None => (UriTemplateVariableView { name, explode: false, prefix: None }),
        Some(UriTemplateModifier::Prefix(p)) => (UriTemplateVariableView {
            name,
            explode: false,
            prefix: Some(p),
        }),
        Some(UriTemplateModifier::Explode) => (UriTemplateVariableView {
            name,
            explode: true,
            prefix: None,
        }),
        Some(UriTemplateModifier::ExplodePrefix(p)) => (UriTemplateVariableView {
            name,
            explode: true,
            prefix: Some(p),
        }),
    }
}

/// Accumulates the components of a template, in call order.
pub struct UriTemplateBuilder {
    pub components: Vec<UriTemplateComponent>,
}

impl View for UriTemplateBuilder {
    type V = Seq<UriTemplateComponentView>;

    open spec fn view(&self) -> Seq<UriTemplateComponentView> {
        self.components@.map_values(|c: UriTemplateComponent| c@)
    }
}

/// Accumulates the variable list of one expression component.
pub struct UriTemplateComponentBuilder {
    pub variables: Vec<UriTemplateVariable>,
}

impl View for UriTemplateComponentBuilder {
    type V = Seq<UriTemplateVariableView>;

    open spec fn view(&self) -> Seq<UriTemplateVariableView> {
        self.variables@.map_values(|v: UriTemplateVariable| v@)
    }
}

impl UriTemplateComponentBuilder {
    /// Append one variable reference, with an optional modifier.
    pub fn variable(self, name: &str, modifier: Option<UriTemplateModifier>) -> (r:
        UriTemplateComponentBuilder)
        ensures
            r@ == self@.push(spec_built_variable(name@, modifier)),
    {
        let ghost orig = self@;
        let v = match modifier {
            None => UriTemplateVariable::new_simple(String::from_str(name)),
            Some(UriTemplateModifier::Prefix(prefix)) => UriTemplateVariable::new_prefix(
                String::from_str(name),
                prefix,
            ),
            Some(UriTemplateModifier::Explode) => UriTemplateVariable::new_explode(
                String::from_str(name),
            ),
            Some(UriTemplateModifier::ExplodePrefix(prefix)) => UriTemplateVariable::new_explode_prefix(
                String::from_str(name),
                prefix,
            ),
        };
        let mut variables = self.variables;
        variables.push(v);
        let r = UriTemplateComponentBuilder { variables };
        proof {
            assert(r@ =~= orig.push(spec_built_variable(name@, modifier)));
        }
        r
    }
}

impl UriTemplateBuilder {
    /// An empty builder: no components yet.
    pub fn new() -> (r: UriTemplateBuilder)
        ensures
            r@ == Seq::<UriTemplateComponentView>::empty(),
    {
        let r = UriTemplateBuilder { components: Vec::new() };
        proof {
            assert(r@ =~= Seq::<UriTemplateComponentView>::empty());
        }
        r
    }

    /// Append a literal text component.
    pub fn literal(self, value: &str) -> (r: UriTemplateBuilder)
        ensures
            r@ == self@.push(UriTemplateComponentView::Literal(value@)),
    {
        let ghost orig = self@;
        let mut components = self.components;
        components.push(UriTemplateComponent::Literal(String::from_str(value)));
        let r = UriTemplateBuilder { components };
        proof {
            assert(r@ =~= orig.push(UriTemplateComponentView::Literal(value@)));
        }
        r
    }

    /// Append an expression component whose variable list is produced by the
    /// given closure, starting from an empty component builder.
    pub fn component<F: Fn(UriTemplateComponentBuilder) -> UriTemplateComponentBuilder>(
        self,
        operator: Option<UriTemplateOperator>,
        f: F,
    ) -> (r: UriTemplateBuilder)
        requires
            forall|c: UriTemplateComponentBuilder|
                c@.len() == 0 ==> #[trigger] call_requires(f, (c,)),
        ensures
            exists|c0: UriTemplateComponentBuilder, c1: UriTemplateComponentBuilder|
                c0@.len() == 0 && #[trigger] call_ensures(f, (c0,), c1) && r@ == self@.push(
                    UriTemplateComponentView::Variable(operator, c1@),
                ),
    {
        let ghost orig = self@;
        let c = UriTemplateComponentBuilder { variables: Vec::new() };
        proof {
            assert(c@ =~= Seq::<UriTemplateVariableView>::empty());
        }
        let ghost c0 = c;
        let c = f(c);
        let mut components = self.components;
        components.push(UriTemplateComponent::Variable(operator, c.variables));
        let r = UriTemplateBuilder { components };
        proof {
            assert(r@ =~= orig.push(UriTemplateComponentView::Variable(operator, c@)));
            assert(c0@.len() == 0 && call_ensures(f, (c0,), c) && r@ == orig.push(
                UriTemplateComponentView::Variable(operator, c@),
            ));
        }
        r
    }

    /// The finished template, owning the accumulated components.
    pub fn into_uri_template(self) -> (r: UriTemplate)
        ensures
            r@ == self@,
    {
        UriTemplate::from_components(self.components)
    }

    /// The canonical template syntax of the accumulated components.
    pub fn into_template_string(self) -> (r: String)
        ensures
            r@ == spec_template_render(self@),
    {
        self.into_uri_template().into_template_string()
    }
}

impl UriTemplate {
    /// A fresh, empty builder.
    pub fn builder() -> (r: UriTemplateBuilder)
        ensures
            r@ == Seq::<UriTemplateComponentView>::empty(),
    {
        UriTemplateBuilder::new()
    }
}

} // verus!
