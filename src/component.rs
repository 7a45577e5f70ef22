//! The image component: from its properties to the element tree it renders.

use vstd::prelude::*;

use crate::layout::{image_extent, inner_style, outer_style, resolve_layout, LayoutPlan};
use crate::common::Layout;
use crate::props::{attributes_view, ImageProps};

verus! {

/// The element tree of one image: an outer container, an optional inner
/// container, the image element, and, under the intrinsic layout, a hidden
/// copy of the blur placeholder after the inner container.
pub struct ImageMarkup {
    /// The containers' styles and the image's size under the layout.
    pub plan: LayoutPlan,
    /// The image element's attributes, in order.
    pub attributes: Vec<(String, String)>,
    /// The hidden placeholder element's attributes, where there is one.
    pub placeholder: Option<Vec<(String, String)>>,
}

/// The attributes of the hidden placeholder element.
pub open spec fn placeholder_attributes(props: ImageProps) -> Seq<(Seq<char>, Seq<char>)> {
    seq![
        ("src"@, props.blur_data_url@),
        ("style"@, "display: none;"@),
        ("alt"@, props.alt@),
        ("aria-hidden"@, "true"@),
    ]
}

/// Renders the image component for `props`.
#[allow(non_snake_case)]
pub fn Image(props: &ImageProps) -> (r: ImageMarkup)
    ensures
        r.plan.outer_style@ == outer_style(props.layout),
        r.plan.inner_style is None <==> inner_style(props.layout, props.width@, props.height@) is None,
        r.plan.inner_style matches Some(s) ==> inner_style(props.layout, props.width@, props.height@)
            == Some(s@),
        r.plan.image_width@ == image_extent(props.layout, props.width@),
        r.plan.image_height@ == image_extent(props.layout, props.height@),
        r.plan.hidden_placeholder == (props.layout == Layout::Intrinsic),
        attributes_view(r.attributes@) == props.spec_attributes(),
        r.placeholder is Some <==> props.layout == Layout::Intrinsic,
        r.placeholder matches Some(p) ==> attributes_view(p@) == placeholder_attributes(*props),
{
    let plan = resolve_layout(props.layout, props.width.as_str(), props.height.as_str());
    let attributes = props.image_attributes();
    let placeholder = if plan.hidden_placeholder {
        let mut p: Vec<(String, String)> = Vec::new();
        p.push((String::from_str("src"), props.blur_data_url.clone()));
        p.push((String::from_str("style"), String::from_str("display: none;")));
        p.push((String::from_str("alt"), props.alt.clone()));
        p.push((String::from_str("aria-hidden"), String::from_str("true")));
        assert(attributes_view(p@) =~= placeholder_attributes(*props));
        Some(p)
    } else {
        None
    };
    ImageMarkup { plan, attributes, placeholder }
}

} // verus!
