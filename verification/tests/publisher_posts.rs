use pastureen::publisher::{generate_post, PublisherError};
use pastureen::refresh_blog::BlogConfig;
use pastureen::shared::TypedErr;

fn config() -> BlogConfig {
    BlogConfig {
        assets_url: "http://assets".to_string(),
        base_url: "http://base".to_string(),
        htmx_url: "http://htmx".to_string(),
    }
}

const GOOD_POST: &str = "---\ntitle: Hello world\ndate: 2023-10-01\ntags:\n  - faith\n  - tech\nslug: hello-world\n---\n\n# Hello\n\nSome *text* here.\n";

#[test]
fn markdown_with_front_matter_becomes_a_post() {
    let post = generate_post(GOOD_POST, config()).unwrap();
    assert_eq!(post.meta.title, "Hello world");
    assert_eq!(post.meta.date, "2023-10-01");
    assert_eq!(post.meta.tags, vec!["faith", "tech"]);
    assert_eq!(post.meta.slug, "hello-world");
    // The markdown was rendered, not echoed.
    assert!(post.post_html.contains("<h1>Hello</h1>"));
    assert!(post.post_html.contains("<em>text</em>"));
    assert!(!post.post_html.contains("# Hello"));
    // The page carries the escaped title.
    assert!(post.post_html.contains("<h1 class=\"post__title heading heading--lg\">Hello world</h1>"));
}

#[test]
fn missing_front_matter_is_refused() {
    let res = generate_post("# Just a heading\n\nNo front matter.\n", config());
    assert!(matches!(res.unwrap_err(), PublisherError::MissingMetaData));
}

#[test]
fn unusable_front_matter_is_refused() {
    let res = generate_post("---\ntitle: Only a title\n---\n\nBody.\n", config());
    assert!(matches!(res.unwrap_err(), PublisherError::ParseMetadataError(_)));
}

#[test]
fn publisher_errors_are_labelled() {
    assert_eq!(PublisherError::MissingMetaData.error_type(), "MissingMetaData");
    assert_eq!(
        PublisherError::ParseMetadataError("x".to_string()).error_type(),
        "ParseMetadataError"
    );
    assert_eq!(PublisherError::Unauthenticated.error_type(), "Unauthenticated");
    assert_eq!(PublisherError::Forbidden.error_type(), "Forbidden");
}
