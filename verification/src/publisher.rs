//! The publisher: turning a markdown document with a YAML front matter
//! into a rendered post.

use vstd::prelude::*;
use vstd::string::StringExecFns;

use crate::refresh_blog::{post_page_html, render_post, BlogConfig, Post, PostMeta, PostProps};
use crate::shared::TypedErr;

verus! {

/// The request to turn markdown into a post.
#[derive(Debug, Clone)]
pub struct GeneratePostRequest {
    /// The markdown source of the post.
    pub markdown_str: String,
}

/// The generated post.
#[derive(Debug, Clone)]
pub struct GeneratePostResponse {
    pub generated_post: Post,
}

/// What can go wrong while publishing.
#[derive(Debug, Clone)]
pub enum PublisherError {
    /// A configuration value is missing; carries its name.
    EnvMissing(String),
    /// The markdown could not be parsed; carries the description.
    ParseMdError(String),
    /// The front matter could not be read as post metadata; carries the
    /// description.
    ParseMetadataError(String),
    /// The document carries no front matter at all.
    MissingMetaData,
    /// No credentials were provided.
    Unauthenticated,
    /// Invalid credentials were provided.
    Forbidden,
    /// The credential service answered an error; carries it.
    AuthServiceError(String),
    /// The credential service could not be reached; carries the
    /// description.
    AuthCheckRequestFailed(String),
}

impl TypedErr for PublisherError {
    fn error_type(&self) -> String {
        match self {
            PublisherError::EnvMissing(_) => String::from_str("EnvMissing"),
            PublisherError::ParseMdError(_) => String::from_str("ParseMdError"),
            PublisherError::ParseMetadataError(_) => String::from_str("ParseMetadataError"),
            PublisherError::MissingMetaData => String::from_str("MissingMetaData"),
            PublisherError::Unauthenticated => String::from_str("Unauthenticated"),
            PublisherError::Forbidden => String::from_str("Forbidden"),
            PublisherError::AuthServiceError(_) => String::from_str("AuthServiceError"),
            PublisherError::AuthCheckRequestFailed(_) => String::from_str("AuthCheckRequestFailed"),
        }
    }
}

/// Where the publisher lives and who may publish.
#[derive(Debug, Clone)]
pub struct PublisherConfig {
    pub assets_url: String,
    pub base_url: String,
    pub htmx_url: String,
    pub listen_address: String,
    pub auth_url: String,
    pub admin_email: String,
}

impl From<PublisherConfig> for BlogConfig {
    /// The blog's slice of the publisher's configuration.
    fn from(config: PublisherConfig) -> (r: Self) {
        BlogConfig {
            assets_url: config.assets_url,
            base_url: config.base_url,
            htmx_url: config.htmx_url,
        }
    }
}

impl vstd::std_specs::convert::FromSpecImpl<PublisherConfig> for BlogConfig {
    open spec fn obeys_from_spec() -> bool {
        true
    }

    open spec fn from_spec(config: PublisherConfig) -> Self {
        BlogConfig {
            assets_url: config.assets_url,
            base_url: config.base_url,
            htmx_url: config.htmx_url,
        }
    }
}

/// The HTML the markdown renderer makes of a document, when it succeeds.
/// The result depends on the document alone.
pub uninterp spec fn html_of_md(s: Seq<char>) -> Seq<char>;

/// Relies on markdown::to_html_with_options with front matter enabled and
/// the other options default: the rendering is a function of the document
/// alone, and markdown without the MDX syntaxes has no parse errors (per
/// the crate's documentation), so with these options the call cannot
/// fail.
#[verifier::external_body]
fn markdown_to_html(md: &str) -> (r: String)
    ensures
        r@ == html_of_md(md@),
{
    let options = markdown::Options {
        parse: markdown::ParseOptions {
            constructs: markdown::Constructs { frontmatter: true, ..Default::default() },
            ..Default::default()
        },
        ..Default::default()
    };
    markdown::to_html_with_options(md, &options).expect("markdown without MDX cannot fail")
}

/// The YAML front matter of a document, if it opens with one. The result
/// depends on the document alone.
pub uninterp spec fn yaml_front_of(s: Seq<char>) -> Option<Seq<char>>;

/// Relies on markdown::to_mdast with front matter enabled: the syntax
/// tree, and so its first YAML node, is a function of the document alone.
#[verifier::external_body]
fn extract_yaml(post: &str) -> (r: Option<String>)
    ensures
        match r {
            Some(y) => yaml_front_of(post@) == Some(y@),
            None => yaml_front_of(post@) is None,
        },
{
    let options = markdown::ParseOptions {
        constructs: markdown::Constructs { frontmatter: true, ..Default::default() },
        ..Default::default()
    };
    let ast = markdown::to_mdast(post, &options).ok()?;
    ast.children()?.iter().find_map(
        |node| match node {
            markdown::mdast::Node::Yaml(yaml) => Some(yaml.value.clone()),
            _ => None,
        },
    )
}

/// The fields a post's front matter carries.
pub ghost struct YamlMeta {
    pub title: Seq<char>,
    pub date: Seq<char>,
    pub tags: Seq<Seq<char>>,
    pub slug: Seq<char>,
}

/// The post metadata a YAML document denotes, if it carries a title, a
/// date, a slug, and a list of tag strings. The result depends on the
/// document alone.
pub uninterp spec fn meta_of_yaml(y: Seq<char>) -> Option<YamlMeta>;

/// Relies on serde_yaml::from_str: the parsed document is a function of
/// the text alone. The metadata fields are read off the parsed mapping.
#[verifier::external_body]
fn parse_post_meta(yaml: &str) -> (r: Result<PostMeta, String>)
    ensures
        match r {
            Ok(m) => meta_of_yaml(yaml@) == Some(
                YamlMeta {
                    title: m.title@,
                    date: m.date@,
                    tags: m.tags.deep_view(),
                    slug: m.slug@,
                },
            ),
            Err(_) => meta_of_yaml(yaml@) is None,
        },
{
    let v: serde_yaml::Value = serde_yaml::from_str(yaml).map_err(|e| e.to_string())?;
    let title = v["title"].as_str().ok_or("bad title")?.to_string();
    let date = v["date"].as_str().ok_or("bad date")?.to_string();
    let slug = v["slug"].as_str().ok_or("bad slug")?.to_string();
    let seq = v["tags"].as_sequence().ok_or("bad tags")?;
    let tags: Vec<String> = seq.iter().map(|t| t.as_str().map(String::from)).collect::<Option<_>>().ok_or("bad tag")?;
    Ok(PostMeta { title, date, tags, slug })
}

/// Generate a post from a markdown document: the document is rendered to
/// HTML, its front matter is read as the post's metadata, and the post
/// page is built around them. Fails with `MissingMetaData` when there is
/// no front matter, and `ParseMetadataError` when the front matter does
/// not carry the metadata fields.
pub fn generate_post(md_str: &str, config: BlogConfig) -> (r: Result<Post, PublisherError>)
    ensures
        match r {
            Ok(post) => match yaml_front_of(md_str@) {
                Some(y) => match meta_of_yaml(y) {
                    Some(m) => {
                        &&& post.meta.title@ == m.title
                        &&& post.meta.date@ == m.date
                        &&& post.meta.slug@ == m.slug
                        &&& post.meta.tags.deep_view() == m.tags
                        &&& post.post_html@ == post_page_html(
                            config.assets_url@,
                            config.base_url@,
                            config.htmx_url@,
                            m.title,
                            m.date,
                            m.tags,
                            html_of_md(md_str@),
                        )
                    },
                    None => false,
                },
                None => false,
            },
            Err(PublisherError::MissingMetaData) => yaml_front_of(md_str@) is None,
            Err(PublisherError::ParseMetadataError(_)) => match yaml_front_of(md_str@) {
                Some(y) => meta_of_yaml(y) is None,
                None => false,
            },
            Err(_) => false,
        },
{
    let html = markdown_to_html(md_str);
    let yaml = match extract_yaml(md_str) {
        Some(y) => y,
        None => {
            return Err(PublisherError::MissingMetaData);
        },
    };
    let meta = match parse_post_meta(yaml.as_str()) {
        Ok(m) => m,
        Err(e) => {
            return Err(PublisherError::ParseMetadataError(e));
        },
    };
    let props = PostProps { meta, post_content_html: html };
    Ok(render_post(config, props))
}

} // verus!
