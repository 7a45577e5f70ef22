//! The properties of an image and what they make of the image element: its
//! inline style and its attribute list.

use vstd::prelude::*;

use crate::common::{
    AriaLive, AriaPressed, CrossOrigin, Decoding, FetchPriority, Layout, Loading, ObjectFit,
    Position, ReferrerPolicy,
};
use crate::layout::image_extent;

verus! {

/// The properties of one image, as plain values.
pub struct ImageProps {
    /// The source URL of the image.
    pub src: String,
    /// The alternative text, also used as the accessible label.
    pub alt: String,
    /// The source tried when `src` fails to load; empty for none.
    pub fallback_src: String,
    /// The width attribute.
    pub width: String,
    /// The height attribute.
    pub height: String,
    /// Extra inline style, appended to the computed one.
    pub style: String,
    /// The CSS classes.
    pub class: String,
    /// The `sizes` attribute; also the blur background's size.
    pub sizes: String,
    /// The quality hint.
    pub quality: String,
    /// When the browser starts loading.
    pub loading: Loading,
    /// The placeholder mode; `blur` shows the blur image while loading.
    pub placeholder: String,
    /// How the image is resized to fit its container.
    pub object_fit: ObjectFit,
    /// Where the image sits inside its container.
    pub object_position: Position,
    /// When the image is decoded.
    pub decoding: Decoding,
    /// The URL of the blur placeholder image.
    pub blur_data_url: String,
    /// The margin around the viewport within which the image counts as visible.
    pub lazy_boundary: String,
    /// Whether optimisation is turned off.
    pub unoptimized: bool,
    /// The layout strategy.
    pub layout: Layout,
    /// The `srcset` attribute.
    pub srcset: String,
    /// The `crossorigin` attribute.
    pub crossorigin: CrossOrigin,
    /// The referrer policy.
    pub referrerpolicy: ReferrerPolicy,
    /// The `usemap` attribute.
    pub usemap: String,
    /// Whether the image is a server-side image map.
    pub ismap: bool,
    /// The fetch priority hint.
    pub fetchpriority: FetchPriority,
    /// The `elementtiming` attribute.
    pub elementtiming: String,
    /// The `attributionsrc` attribute.
    pub attributionsrc: String,
    /// The `aria-current` attribute.
    pub aria_current: String,
    /// The `aria-describedby` attribute.
    pub aria_describedby: String,
    /// The `aria-expanded` attribute.
    pub aria_expanded: String,
    /// The `aria-hidden` attribute.
    pub aria_hidden: String,
    /// The `aria-live` attribute.
    pub aria_live: AriaLive,
    /// The `aria-pressed` attribute.
    pub aria_pressed: AriaPressed,
    /// The `aria-controls` attribute.
    pub aria_controls: String,
    /// The `aria-labelledby` attribute.
    pub aria_labelledby: String,
}

impl Default for ImageProps {
    fn default() -> (r: ImageProps)
        ensures
            r.src@ == ""@,
            r.alt@ == "Image"@,
            r.fallback_src@ == ""@,
            r.width@ == ""@,
            r.height@ == ""@,
            r.style@ == ""@,
            r.class@ == ""@,
            r.sizes@ == ""@,
            r.quality@ == ""@,
            r.loading == Loading::Auto,
            r.placeholder@ == "empty"@,
            r.object_fit == ObjectFit::Contain,
            r.object_position == Position::Center,
            r.decoding == Decoding::Auto,
            r.blur_data_url@ == ""@,
            r.lazy_boundary@ == "100px"@,
            r.unoptimized == false,
            r.layout == Layout::Auto,
            r.srcset@ == ""@,
            r.crossorigin == CrossOrigin::Unset,
            r.referrerpolicy == ReferrerPolicy::StrictOriginWhenCrossOrigin,
            r.usemap@ == ""@,
            r.ismap == false,
            r.fetchpriority == FetchPriority::Auto,
            r.elementtiming@ == ""@,
            r.attributionsrc@ == ""@,
            r.aria_current@ == ""@,
            r.aria_describedby@ == ""@,
            r.aria_expanded@ == ""@,
            r.aria_hidden@ == ""@,
            r.aria_live == AriaLive::Off,
            r.aria_pressed == AriaPressed::Undefined,
            r.aria_controls@ == ""@,
            r.aria_labelledby@ == ""@,
    {
        ImageProps {
            src: String::from_str(""),
            alt: String::from_str("Image"),
            fallback_src: String::from_str(""),
            width: String::from_str(""),
            height: String::from_str(""),
            style: String::from_str(""),
            class: String::from_str(""),
            sizes: String::from_str(""),
            quality: String::from_str(""),
            loading: Loading::Auto,
            placeholder: String::from_str("empty"),
            object_fit: ObjectFit::Contain,
            object_position: Position::Center,
            decoding: Decoding::Auto,
            blur_data_url: String::from_str(""),
            lazy_boundary: String::from_str("100px"),
            unoptimized: false,
            layout: Layout::Auto,
            srcset: String::from_str(""),
            crossorigin: CrossOrigin::Unset,
            referrerpolicy: ReferrerPolicy::StrictOriginWhenCrossOrigin,
            usemap: String::from_str(""),
            ismap: false,
            fetchpriority: FetchPriority::Auto,
            elementtiming: String::from_str(""),
            attributionsrc: String::from_str(""),
            aria_current: String::from_str(""),
            aria_describedby: String::from_str(""),
            aria_expanded: String::from_str(""),
            aria_hidden: String::from_str(""),
            aria_live: AriaLive::Off,
            aria_pressed: AriaPressed::Undefined,
            aria_controls: String::from_str(""),
            aria_labelledby: String::from_str(""),
        }
    }
}

/// The values of a list of attributes.
pub open spec fn attributes_view(a: Seq<(String, String)>) -> Seq<(Seq<char>, Seq<char>)> {
    a.map_values(|p: (String, String)| (p.0@, p.1@))
}

/// Appends the attribute `name="value"`.
fn push_attribute(a: &mut Vec<(String, String)>, name: &str, value: &str)
    ensures
        attributes_view(final(a)@) == attributes_view(old(a)@).push((name@, value@)),
{
    a.push((String::from_str(name), String::from_str(value)));
    assert(attributes_view(a@) =~= attributes_view(old(a)@).push((name@, value@)));
}

impl ImageProps {
    /// The style that places the image inside its box: its `object-fit`
    /// and `object-position`, followed by the caller's own style.
    pub open spec fn spec_image_style(self) -> Seq<char> {
        "object-fit: "@ + self.object_fit.spec_str() + ";"@ + "object-position: "@
            + self.object_position.spec_str() + ";"@ + self.style@
    }

    /// The blur placeholder's background, where the placeholder mode is
    /// `blur`; empty otherwise.
    pub open spec fn spec_blur_style(self) -> Seq<char> {
        if self.placeholder@ == "blur"@ {
            "background-size: "@ + self.sizes@ + "; background-position: "@
                + self.object_position.spec_str()
                + "; filter: blur(20px); background-image: url(\""@ + self.blur_data_url@ + "\")"@
        } else {
            Seq::empty()
        }
    }

    /// The image element's full inline style: the blur background, a
    /// space, then the image style.
    pub open spec fn spec_full_style(self) -> Seq<char> {
        self.spec_blur_style() + " "@ + self.spec_image_style()
    }

    /// The image element's attributes, in order. `crossorigin` is left out
    /// where it is unset, and `ismap` appears, empty, only where it is set.
    pub open spec fn spec_attributes(self) -> Seq<(Seq<char>, Seq<char>)> {
        self.spec_leading_attributes() + self.spec_crossorigin_attribute()
            + self.spec_policy_attributes() + self.spec_ismap_attribute()
            + seq![("usemap"@, self.usemap@)]
    }

    /// The attributes up to `aria-controls`.
    pub open spec fn spec_leading_attributes(self) -> Seq<(Seq<char>, Seq<char>)> {
        seq![
            ("src"@, self.src@),
            ("alt"@, self.alt@),
            ("width"@, image_extent(self.layout, self.width@)),
            ("height"@, image_extent(self.layout, self.height@)),
            ("style"@, self.spec_full_style()),
            ("class"@, self.class@),
            ("loading"@, self.loading.spec_str()),
            ("sizes"@, self.sizes@),
            ("quality"@, self.quality@),
            ("placeholder"@, self.placeholder@),
            ("decoding"@, self.decoding.spec_str()),
            ("role"@, "img"@),
            ("aria-label"@, self.alt@),
            ("aria-labelledby"@, self.aria_labelledby@),
            ("aria-describedby"@, self.aria_describedby@),
            ("aria-hidden"@, self.aria_hidden@),
            ("aria-current"@, self.aria_current@),
            ("aria-expanded"@, self.aria_expanded@),
            ("aria-live"@, self.aria_live.spec_str()),
            ("aria-pressed"@, self.aria_pressed.spec_str()),
            ("aria-controls"@, self.aria_controls@)
        ]
    }

    /// The `crossorigin` attribute, where it is set.
    pub open spec fn spec_crossorigin_attribute(self) -> Seq<(Seq<char>, Seq<char>)> {
        match self.crossorigin.spec_str() {
            Some(c) => seq![("crossorigin"@, c)],
            None => seq![],
        }
    }

    /// The attributes from `referrerpolicy` to `srcset`.
    pub open spec fn spec_policy_attributes(self) -> Seq<(Seq<char>, Seq<char>)> {
        seq![
            ("referrerpolicy"@, self.referrerpolicy.spec_str()),
            ("fetchpriority"@, self.fetchpriority.spec_str()),
            ("attributionsrc"@, self.attributionsrc@),
            ("elementtiming"@, self.elementtiming@),
            ("srcset"@, self.srcset@)
        ]
    }

    /// The empty `ismap` attribute, where the flag is set.
    pub open spec fn spec_ismap_attribute(self) -> Seq<(Seq<char>, Seq<char>)> {
        if self.ismap {
            seq![("ismap"@, ""@)]
        } else {
            seq![]
        }
    }

    /// The style that places the image inside its box.
    pub fn image_style(&self) -> (r: String)
        ensures
            r@ == self.spec_image_style(),
    {
        let mut r = String::from_str("object-fit: ");
        r.append(self.object_fit.as_str());
        r.append(";");
        r.append("object-position: ");
        r.append(self.object_position.as_str());
        r.append(";");
        r.append(self.style.as_str());
        r
    }

    /// The blur placeholder's background style, or an empty string.
    pub fn blur_style(&self) -> (r: String)
        ensures
            r@ == self.spec_blur_style(),
    {
        if self.placeholder == String::from_str("blur") {
            let mut r = String::from_str("background-size: ");
            r.append(self.sizes.as_str());
            r.append("; background-position: ");
            r.append(self.object_position.as_str());
            r.append("; filter: blur(20px); background-image: url(\"");
            r.append(self.blur_data_url.as_str());
            r.append("\")");
            r
        } else {
            String::new()
        }
    }

    /// The image element's full inline style.
    pub fn full_style(&self) -> (r: String)
        ensures
            r@ == self.spec_full_style(),
    {
        let mut r = self.blur_style();
        r.append(" ");
        r.append(self.image_style().as_str());
        r
    }

    /// The image element's attributes, in order, as `(name, value)` pairs.
    pub fn image_attributes(&self) -> (r: Vec<(String, String)>)
        ensures
            attributes_view(r@) == self.spec_attributes(),
    {
        let full = self.full_style();
        let (width, height) = match self.layout {
            Layout::Stretch => (String::from_str("100%"), String::from_str("100%")),
            _ => (self.width.clone(), self.height.clone()),
        };
        let mut r: Vec<(String, String)> = Vec::new();
        push_attribute(&mut r, "src", self.src.as_str());
        push_attribute(&mut r, "alt", self.alt.as_str());
        push_attribute(&mut r, "width", width.as_str());
        push_attribute(&mut r, "height", height.as_str());
        push_attribute(&mut r, "style", full.as_str());
        push_attribute(&mut r, "class", self.class.as_str());
        push_attribute(&mut r, "loading", self.loading.as_str());
        push_attribute(&mut r, "sizes", self.sizes.as_str());
        push_attribute(&mut r, "quality", self.quality.as_str());
        push_attribute(&mut r, "placeholder", self.placeholder.as_str());
        push_attribute(&mut r, "decoding", self.decoding.as_str());
        push_attribute(&mut r, "role", "img");
        push_attribute(&mut r, "aria-label", self.alt.as_str());
        push_attribute(&mut r, "aria-labelledby", self.aria_labelledby.as_str());
        push_attribute(&mut r, "aria-describedby", self.aria_describedby.as_str());
        push_attribute(&mut r, "aria-hidden", self.aria_hidden.as_str());
        push_attribute(&mut r, "aria-current", self.aria_current.as_str());
        push_attribute(&mut r, "aria-expanded", self.aria_expanded.as_str());
        push_attribute(&mut r, "aria-live", self.aria_live.as_str());
        push_attribute(&mut r, "aria-pressed", self.aria_pressed.as_str());
        push_attribute(&mut r, "aria-controls", self.aria_controls.as_str());
        assert(attributes_view(r@) =~= self.spec_leading_attributes());
        let ghost lead = attributes_view(r@);
        match self.crossorigin.as_str() {
            Some(c) => push_attribute(&mut r, "crossorigin", c),
            None => {},
        }
        assert(attributes_view(r@) =~= lead + self.spec_crossorigin_attribute());
        let ghost cross = attributes_view(r@);
        push_attribute(&mut r, "referrerpolicy", self.referrerpolicy.as_str());
        push_attribute(&mut r, "fetchpriority", self.fetchpriority.as_str());
        push_attribute(&mut r, "attributionsrc", self.attributionsrc.as_str());
        push_attribute(&mut r, "elementtiming", self.elementtiming.as_str());
        push_attribute(&mut r, "srcset", self.srcset.as_str());
        assert(attributes_view(r@) =~= cross + self.spec_policy_attributes());
        let ghost policy = attributes_view(r@);
        if self.ismap {
            push_attribute(&mut r, "ismap", "");
        }
        assert(attributes_view(r@) =~= policy + self.spec_ismap_attribute());
        push_attribute(&mut r, "usemap", self.usemap.as_str());
        assert(attributes_view(r@) =~= self.spec_attributes());
        r
    }
}

} // verus!
