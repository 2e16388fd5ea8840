//! Rewriting the images of an HTML fragment so that their sources are
//! absolute URLs.

use crate::location::{spec_url_join, spec_url_parse, url_join, url_parse};
use crate::transform::TransformError;
use lol_html::errors::AttributeNameError;
use lol_html::html_content::Element;
use lol_html::{ElementContentHandlers, RewriteStrSettings};
use std::borrow::Cow;
use vstd::prelude::*;

verus! {

/// The elements whose sources are rewritten.
pub const IMAGE_SELECTOR: &'static str = "img[src]";

/// The attribute that holds the source of an image.
pub const SOURCE_ATTRIBUTE: &'static str = "src";

/// `lol_html::errors::AttributeNameError`: why a name is no attribute name.
/// Nothing is read out of it.
#[verifier::external_type_specification]
#[verifier::external_body]
pub struct ExAttributeNameError(AttributeNameError);

/// The start tag of an element that the rewriter has matched: a
/// `lol_html::html_content::Element`, borrowed for one handler call.
#[verifier::external_body]
pub struct Tag<'a, 'r, 't> {
    element: &'a mut Element<'r, 't>,
}

/// The attributes of a tag: each name, in lower case, with its value as
/// written in the document.
pub uninterp spec fn tag_attributes(tag: Tag) -> Map<Seq<char>, Seq<char>>;

/// A text with its HTML entities decoded.
pub uninterp spec fn spec_decode_entities(text: Seq<char>) -> Seq<char>;

/// The document that comes out when every element that `selector` matches
/// has had its source resolved against `base`; `None` where the selector is
/// not valid or the rewriter gives up.
pub uninterp spec fn spec_rewrite_sources(
    selector: Seq<char>,
    base: Seq<char>,
    html: Seq<char>,
) -> Option<Seq<char>>;

/// Whether a name holds no upper-case ASCII letter. The rewriter compares
/// attribute names in lower case.
pub open spec fn is_lower_case(name: Seq<char>) -> bool {
    forall|i: int| 0 <= i < name.len() ==> !('A' <= #[trigger] name[i] <= 'Z')
}

/// Whether a name is made of lower-case letters, digits, `-` and `_` alone,
/// and of one at least. The rewriter takes every such name as the name of an
/// attribute: it refuses the empty name, white space, `/`, `>` and `=`, and
/// what the document's encoding cannot hold, which is never plain ASCII.
pub open spec fn is_simple_name(name: Seq<char>) -> bool {
    name.len() > 0 && forall|i: int|
        0 <= i < name.len() ==> {
            let c = #[trigger] name[i];
            ('a' <= c <= 'z') || ('0' <= c <= '9') || c == '-' || c == '_'
        }
}

/// `Element::get_attribute`: the value of the attribute of that name, `None`
/// where the element has none.
#[verifier::external_body]
fn tag_get_attribute(tag: &Tag, name: &str) -> (value: Option<String>)
    requires
        is_lower_case(name@),
    ensures
        value matches Some(text) ==> tag_attributes(*tag).contains_key(name@) && tag_attributes(
            *tag,
        )[name@] == text@,
        value is None ==> !tag_attributes(*tag).contains_key(name@),
{
    tag.element.get_attribute(name)
}

/// `Element::set_attribute`: sets the attribute of that name to the value,
/// adding it where the element has none. Where the name is refused the
/// element stays as it was; a simple name is never refused.
#[verifier::external_body]
fn tag_set_attribute(tag: &mut Tag, name: &str, value: &str) -> (res: Result<
    (),
    AttributeNameError,
>)
    requires
        is_lower_case(name@),
    ensures
        is_simple_name(name@) ==> res is Ok,
        res is Ok ==> tag_attributes(*final(tag)) == tag_attributes(*old(tag)).insert(
            name@,
            value@,
        ),
        res is Err ==> tag_attributes(*final(tag)) == tag_attributes(*old(tag)),
{
    tag.element.set_attribute(name, value)
}

/// `html_escape::decode_html_entities`, with the result owned.
#[verifier::external_body]
fn decode_entities(text: &str) -> (decoded: String)
    ensures
        decoded@ == spec_decode_entities(text@),
{
    html_escape::decode_html_entities(text).into_owned()
}

/// `lol_html::rewrite_str` with one element handler, which hands each
/// element that `selector` matches to `rewrite_relative_src`. `None` stands
/// for a selector that does not parse and for every error of the rewriter.
#[verifier::external_body]
fn rewrite_sources(selector: &str, base: &str, html: &str) -> (res: Option<String>)
    ensures
        res matches Some(text) ==> spec_rewrite_sources(selector@, base@, html@) == Some(text@),
        res is None ==> spec_rewrite_sources(selector@, base@, html@) is None,
{
    let handlers = ElementContentHandlers::default().element(
        |el: &mut Element| Ok(rewrite_relative_src(base, &mut Tag { element: el })?),
    );
    let settings = RewriteStrSettings {
        element_content_handlers: vec![(Cow::Owned(selector.parse().ok()?), handlers)],
        ..RewriteStrSettings::new()
    };
    lol_html::rewrite_str(html, settings).ok()
}

/// What the source of an image is replaced by. Its entities are decoded
/// first. A source that is an absolute URL by itself is not replaced, nor is
/// one that does not resolve against the base: both give `None`. Any other
/// is replaced by the URL that it resolves to.
pub open spec fn spec_resolved_source(base: Seq<char>, source: Seq<char>) -> Option<Seq<char>> {
    let decoded = spec_decode_entities(source);
    if spec_url_parse(decoded) is Some {
        None
    } else {
        spec_url_join(base, decoded)
    }
}

/// The attributes of a tag after its source has been resolved against the
/// base. A tag without a source keeps its attributes, and so does one whose
/// source is absolute already or does not resolve.
pub open spec fn spec_rewritten_attributes(
    base: Seq<char>,
    attributes: Map<Seq<char>, Seq<char>>,
) -> Map<Seq<char>, Seq<char>> {
    if attributes.contains_key(SOURCE_ATTRIBUTE@) {
        match spec_resolved_source(base, attributes[SOURCE_ATTRIBUTE@]) {
            Some(url) => attributes.insert(SOURCE_ATTRIBUTE@, url),
            None => attributes,
        }
    } else {
        attributes
    }
}

/// Replaces the relative source of one tag by the absolute URL it resolves
/// to against `base_url`. A source that is absolute already is left as it is
/// written, and so is one that does not resolve. Never fails.
pub fn rewrite_relative_src(base_url: &str, el: &mut Tag) -> (res: Result<(), AttributeNameError>)
    ensures
        res is Ok,
        tag_attributes(*final(el)) == spec_rewritten_attributes(
            base_url@,
            tag_attributes(*old(el)),
        ),
{
    proof {
        reveal_strlit("src");
    }
    match tag_get_attribute(el, SOURCE_ATTRIBUTE) {
        Some(source) => {
            let decoded = decode_entities(source.as_str());
            match url_parse(decoded.as_str()) {
                Ok(_) => Ok(()),
                Err(_) => match url_join(base_url, decoded.as_str()) {
                    Ok(url) => tag_set_attribute(el, SOURCE_ATTRIBUTE, url.as_str()),
                    Err(_) => Ok(()),
                },
            }
        },
        None => Ok(()),
    }
}

/// The fragment with the sources of its images resolved against the base
/// URL, or the reason why there is none.
pub open spec fn spec_rewrite_relative_link(base_url: Seq<char>, content: Seq<char>) -> Result<
    Seq<char>,
    TransformError,
> {
    match spec_url_parse(base_url) {
        None => Err(TransformError::InvalidBaseUrl),
        Some(base) => match spec_rewrite_sources(IMAGE_SELECTOR@, base, content) {
            Some(html) => Ok(html),
            None => Err(TransformError::Rewrite),
        },
    }
}

/// Resolves the source of every image in `content` against `base_url`.
/// Fails where `base_url` is no absolute URL or the fragment cannot be
/// rewritten.
pub fn rewrite_relative_link(base_url: &str, content: String) -> (res: Result<
    String,
    TransformError,
>)
    ensures
        match res {
            Ok(html) => spec_rewrite_relative_link(base_url@, content@) == Ok::<
                Seq<char>,
                TransformError,
            >(html@),
            Err(e) => spec_rewrite_relative_link(base_url@, content@) == Err::<
                Seq<char>,
                TransformError,
            >(e),
        },
{
    match url_parse(base_url) {
        Err(_) => Err(TransformError::InvalidBaseUrl),
        Ok(base) => match rewrite_sources(IMAGE_SELECTOR, base.as_str(), content.as_str()) {
            Some(html) => Ok(html),
            None => Err(TransformError::Rewrite),
        },
    }
}

} // verus!
