use uritemplates::UriTemplateBuilder;
use uritemplates::{UriTemplateModifier, UriTemplateOperator};

#[test]
fn test_1() {
    let t = UriTemplateBuilder::new()
        .into_uri_template()
        .into_template_string();

    assert_eq!(t, "");
}

#[test]
fn test_2() {
    let t = UriTemplateBuilder::new()
        .literal("http://example.com/")
        .into_uri_template()
        .into_template_string();

    assert_eq!(t, "http://example.com/");
}

#[test]
fn test_3() {
    let t = UriTemplateBuilder::new()
        .literal("http://example.com/")
        .literal("foo")
        .into_uri_template()
        .into_template_string();

    assert_eq!(t, "http://example.com/foo");
}

#[test]
fn test_4() {
    let t = UriTemplateBuilder::new()
        .literal("http://example.com/")
        .component(Some(UriTemplateOperator::PathComponent), |c| {
            c.variable("splat", Some(UriTemplateModifier::Explode))
        })
        .component(Some(UriTemplateOperator::QueryParameter), |c| {
            c.variable("foo", None)
                .variable("bar", None)
                .variable("hash", Some(UriTemplateModifier::Prefix(7)))
        })
        .into_uri_template();
    let s1 = t.to_template_string();
    let s2 = t.into_template_string();

    assert_eq!(s1, "http://example.com/{/splat*}{?foo,bar,hash:7}");
    assert_eq!(s1, s2);
}
