//! RFC 6570 URI Templates: a template is an ordered sequence of literal text
//! and `{operator var-list}` expressions.  It renders back to its canonical
//! template string, and expands against a store of named values into
//! percent-encoded URI text, following the per-operator rules of the RFC.

pub mod building;
pub mod escaping;
pub mod expand;
pub mod laws;
pub mod parsing;
pub mod template;
pub mod values;

pub use building::{UriTemplateBuilder, UriTemplateComponentBuilder, UriTemplateModifier};
pub use escaping::UriTemplateEscaping;
pub use escaping::escape_string;
pub use template::{UriTemplate, UriTemplateOperator};
pub use values::{UriTemplateValue, UriTemplateValues};
