use uritemplates::UriTemplateBuilder;
use uritemplates::UriTemplateValues;

#[test]
fn test_values_1() {
    let mut v = UriTemplateValues::new();
    v.set("foo", "bar");
    v.set("foo", ["bar", "baz"].as_ref());
    v.set("foo", "baz");
}

#[test]
fn test_values_2() {
    let mut v = UriTemplateValues::new();
    v.set("foo", "baz");
}

#[test]
fn test_values_3() {
    let mut v = UriTemplateValues::new();
    v.set("foo", "baz");
}

#[test]
fn test_level_1_1() {
    let t = UriTemplateBuilder::new()
        .literal("http://example.com/")
        .component(None, |c| c.variable("foo", None))
        .into_uri_template();

    let v = UriTemplateValues::new();

    let s = t.to_template_string();
    assert_eq!(s, "http://example.com/{foo}");

    let s = t.to_string_with_values(&v);
    assert_eq!(s, "http://example.com/");
}

#[test]
fn test_level_1_2() {
    let t = UriTemplateBuilder::new()
        .literal("http://example.com/")
        .component(None, |c| c.variable("foo", None))
        .into_uri_template();

    let mut v = UriTemplateValues::new();
    v.set("foo", "bar");

    let s = t.to_template_string();
    assert_eq!(s, "http://example.com/{foo}");

    let s = t.to_string_with_values(&v);
    assert_eq!(s, "http://example.com/bar");
}

#[test]
fn test_level_1_3() {
    let t = UriTemplateBuilder::new()
        .literal("http://example.com/")
        .component(None, |c| {
            c.variable("foo", None)
                .variable("bar", None)
        })
        .into_uri_template();

    let mut v = UriTemplateValues::new();
    v.set("foo", "bar");
    v.set("bar", "baz");

    let s = t.to_template_string();
    assert_eq!(s, "http://example.com/{foo,bar}");

    let s = t.to_string_with_values(&v);
    assert_eq!(s, "http://example.com/bar,baz");
}
