//! The closed attribute enumerations of the image component.

use vstd::prelude::*;

use crate::text::{eq_folded, eq_ignore_ascii_case, folded_code, lemma_eq_folded_trans};

verus! {

/// How an image is sized and positioned within its container.
///
/// The default layout is `Layout::Auto`.
#[derive(Debug, Clone, Copy, PartialEq, Eq, Structural, Default)]
pub enum Layout {
    /// Stretch to fill the container, possibly distorting the aspect ratio.
    Fill,
    /// Scale with the container while keeping the aspect ratio.
    Responsive,
    /// Display at the natural width and height.
    Intrinsic,
    /// Keep a fixed width and height, whatever the container's size.
    Fixed,
    /// Keep the natural size (default).
    #[default]
    Auto,
    /// Fill the container at full width and height.
    Stretch,
    /// Scale down to fit the container, never up.
    ScaleDown,
}

impl Layout {
    /// The attribute value of each layout.
    pub open spec fn spec_str(self) -> Seq<char> {
        match self {
            Layout::Fill => "fill"@,
            Layout::Responsive => "responsive"@,
            Layout::Intrinsic => "intrinsic"@,
            Layout::Fixed => "fixed"@,
            Layout::Auto => "auto"@,
            Layout::Stretch => "stretch"@,
            Layout::ScaleDown => "scale-down"@,
        }
    }

    /// The layout whose attribute value equals `s` up to ASCII case, if any.
    pub open spec fn spec_parse(s: Seq<char>) -> Option<Layout> {
        if eq_folded(s, "fill"@) {
            Some(Layout::Fill)
        } else if eq_folded(s, "responsive"@) {
            Some(Layout::Responsive)
        } else if eq_folded(s, "intrinsic"@) {
            Some(Layout::Intrinsic)
        } else if eq_folded(s, "fixed"@) {
            Some(Layout::Fixed)
        } else if eq_folded(s, "auto"@) {
            Some(Layout::Auto)
        } else if eq_folded(s, "stretch"@) {
            Some(Layout::Stretch)
        } else if eq_folded(s, "scale-down"@) {
            Some(Layout::ScaleDown)
        } else {
            None
        }
    }

    /// The layout's attribute value.
    pub fn as_str(&self) -> (r: &'static str)
        ensures
            r@ == self.spec_str(),
    {
        match self {
            Layout::Fill => "fill",
            Layout::Responsive => "responsive",
            Layout::Intrinsic => "intrinsic",
            Layout::Fixed => "fixed",
            Layout::Auto => "auto",
            Layout::Stretch => "stretch",
            Layout::ScaleDown => "scale-down",
        }
    }

    /// Parses a layout's attribute value, ignoring ASCII case.
    pub fn from_str(s: &str) -> (r: Result<Layout, ()>)
        ensures
            r == (match Layout::spec_parse(s@) {
                Some(l) => Ok(l),
                None => Err(()),
            }),
    {
        if eq_ignore_ascii_case(s, "fill") {
            Ok(Layout::Fill)
        } else if eq_ignore_ascii_case(s, "responsive") {
            Ok(Layout::Responsive)
        } else if eq_ignore_ascii_case(s, "intrinsic") {
            Ok(Layout::Intrinsic)
        } else if eq_ignore_ascii_case(s, "fixed") {
            Ok(Layout::Fixed)
        } else if eq_ignore_ascii_case(s, "auto") {
            Ok(Layout::Auto)
        } else if eq_ignore_ascii_case(s, "stretch") {
            Ok(Layout::Stretch)
        } else if eq_ignore_ascii_case(s, "scale-down") {
            Ok(Layout::ScaleDown)
        } else {
            Err(())
        }
    }
}

impl std::str::FromStr for Layout {
    type Err = ();

    fn from_str(s: &str) -> Result<Layout, ()> {
        Layout::from_str(s)
    }
}

/// The `decoding` attribute: when the browser decodes the image relative to loading.
///
/// The default is `Auto`.
#[derive(Debug, Clone, Copy, PartialEq, Eq, Structural, Default)]
pub enum Decoding {
    /// Let the browser decide (default).
    #[default]
    Auto,
    /// Decode synchronously.
    Sync,
    /// Decode asynchronously.
    Async,
}

impl Decoding {
    /// The attribute value of each variant.
    pub open spec fn spec_str(self) -> Seq<char> {
        match self {
            Decoding::Auto => "auto"@,
            Decoding::Sync => "sync"@,
            Decoding::Async => "async"@,
        }
    }

    /// The variant whose attribute value equals `s` up to ASCII case, if any.
    pub open spec fn spec_parse(s: Seq<char>) -> Option<Decoding> {
        if eq_folded(s, "auto"@) {
            Some(Decoding::Auto)
        } else if eq_folded(s, "sync"@) {
            Some(Decoding::Sync)
        } else if eq_folded(s, "async"@) {
            Some(Decoding::Async)
        } else {
            None
        }
    }

    /// The variant's attribute value.
    pub fn as_str(&self) -> (r: &'static str)
        ensures
            r@ == self.spec_str(),
    {
        match self {
            Decoding::Auto => "auto",
            Decoding::Sync => "sync",
            Decoding::Async => "async",
        }
    }

    /// Parses an attribute value, ignoring ASCII case.
    pub fn from_str(s: &str) -> (r: Result<Decoding, ()>)
        ensures
            r == (match Decoding::spec_parse(s@) {
                Some(d) => Ok(d),
                None => Err(()),
            }),
    {
        if eq_ignore_ascii_case(s, "auto") {
            Ok(Decoding::Auto)
        } else if eq_ignore_ascii_case(s, "sync") {
            Ok(Decoding::Sync)
        } else if eq_ignore_ascii_case(s, "async") {
            Ok(Decoding::Async)
        } else {
            Err(())
        }
    }
}

impl std::str::FromStr for Decoding {
    type Err = ();

    fn from_str(s: &str) -> Result<Decoding, ()> {
        Decoding::from_str(s)
    }
}

/// The `object-position` value: where the image sits inside its container.
#[derive(Debug, Clone, Copy, PartialEq, Eq, Structural, Default)]
pub enum Position {
    /// Centred on both axes (default).
    #[default]
    Center,
    /// Aligned to the top.
    Top,
    /// Aligned to the bottom.
    Bottom,
    /// Aligned to the left.
    Left,
    /// Aligned to the right.
    Right,
    /// Aligned to the top-left corner.
    TopLeft,
    /// Aligned to the top-right corner.
    TopRight,
    /// Aligned to the bottom-left corner.
    BottomLeft,
    /// Aligned to the bottom-right corner.
    BottomRight,
}

impl Position {
    /// The attribute value of each variant.
    pub open spec fn spec_str(self) -> Seq<char> {
        match self {
            Position::Center => "center"@,
            Position::Top => "top"@,
            Position::Bottom => "bottom"@,
            Position::Left => "left"@,
            Position::Right => "right"@,
            Position::TopLeft => "top left"@,
            Position::TopRight => "top right"@,
            Position::BottomLeft => "bottom left"@,
            Position::BottomRight => "bottom right"@,
        }
    }

    /// The variant's attribute value.
    pub fn as_str(&self) -> (r: &'static str)
        ensures
            r@ == self.spec_str(),
    {
        match self {
            Position::Center => "center",
            Position::Top => "top",
            Position::Bottom => "bottom",
            Position::Left => "left",
            Position::Right => "right",
            Position::TopLeft => "top left",
            Position::TopRight => "top right",
            Position::BottomLeft => "bottom left",
            Position::BottomRight => "bottom right",
        }
    }
}

/// The `object-fit` value: how the image is resized to fit its container.
#[derive(Debug, Clone, Copy, PartialEq, Eq, Structural, Default)]
pub enum ObjectFit {
    /// Fill the container, ignoring the aspect ratio.
    Fill,
    /// Fit inside the container, keeping the aspect ratio (default).
    #[default]
    Contain,
    /// Cover the container, keeping the aspect ratio; may crop.
    Cover,
    /// Scale down only where needed.
    ScaleDown,
    /// Do not resize.
    NoResize,
}

impl ObjectFit {
    /// The attribute value of each variant.
    pub open spec fn spec_str(self) -> Seq<char> {
        match self {
            ObjectFit::Fill => "fill"@,
            ObjectFit::Contain => "contain"@,
            ObjectFit::Cover => "cover"@,
            ObjectFit::ScaleDown => "scale-down"@,
            ObjectFit::NoResize => "none"@,
        }
    }

    /// The variant's attribute value.
    pub fn as_str(&self) -> (r: &'static str)
        ensures
            r@ == self.spec_str(),
    {
        match self {
            ObjectFit::Fill => "fill",
            ObjectFit::Contain => "contain",
            ObjectFit::Cover => "cover",
            ObjectFit::ScaleDown => "scale-down",
            ObjectFit::NoResize => "none",
        }
    }
}

/// The `crossorigin` attribute. `None` leaves the attribute out.
#[derive(Debug, Clone, Copy, PartialEq, Eq, Structural, Default)]
pub enum CrossOrigin {
    /// Requests without credentials.
    Anonymous,
    /// Requests with credentials.
    UseCredentials,
    /// No CORS request (default).
    #[default]
    Unset,
}

impl CrossOrigin {
    /// The attribute value of each variant; `Unset` has none.
    pub open spec fn spec_str(self) -> Option<Seq<char>> {
        match self {
            CrossOrigin::Anonymous => Some("anonymous"@),
            CrossOrigin::UseCredentials => Some("use-credentials"@),
            CrossOrigin::Unset => None,
        }
    }

    /// The variant's attribute value, or `None` where the attribute is left out.
    pub fn as_str(&self) -> (r: Option<&'static str>)
        ensures
            r is None <==> self.spec_str() is None,
            r matches Some(v) ==> self.spec_str() == Some(v@),
    {
        match self {
            CrossOrigin::Anonymous => Some("anonymous"),
            CrossOrigin::UseCredentials => Some("use-credentials"),
            CrossOrigin::Unset => None,
        }
    }
}

/// The `fetchpriority` attribute: a hint on the image's fetch priority.
#[derive(Debug, Clone, Copy, PartialEq, Eq, Structural, Default)]
pub enum FetchPriority {
    /// Fetch ahead of other images.
    High,
    /// Fetch after other images.
    Low,
    /// No preference (default).
    #[default]
    Auto,
}

impl FetchPriority {
    /// The attribute value of each variant.
    pub open spec fn spec_str(self) -> Seq<char> {
        match self {
            FetchPriority::High => "high"@,
            FetchPriority::Low => "low"@,
            FetchPriority::Auto => "auto"@,
        }
    }

    /// The variant's attribute value.
    pub fn as_str(&self) -> (r: &'static str)
        ensures
            r@ == self.spec_str(),
    {
        match self {
            FetchPriority::High => "high",
            FetchPriority::Low => "low",
            FetchPriority::Auto => "auto",
        }
    }
}

/// The `loading` attribute: when the browser starts loading the image.
#[derive(Debug, Clone, Copy, PartialEq, Eq, Structural, Default)]
pub enum Loading {
    /// Load at once.
    Eager,
    /// Defer until the image nears the viewport.
    Lazy,
    /// Let the browser decide (default).
    #[default]
    Auto,
}

impl Loading {
    /// The attribute value of each variant.
    pub open spec fn spec_str(self) -> Seq<char> {
        match self {
            Loading::Eager => "eager"@,
            Loading::Lazy => "lazy"@,
            Loading::Auto => "auto"@,
        }
    }

    /// The variant's attribute value.
    pub fn as_str(&self) -> (r: &'static str)
        ensures
            r@ == self.spec_str(),
    {
        match self {
            Loading::Eager => "eager",
            Loading::Lazy => "lazy",
            Loading::Auto => "auto",
        }
    }
}

/// The referrer policy used when fetching the image: how much referrer
/// information goes with the request.
#[derive(Debug, Clone, Copy, PartialEq, Eq, Structural, Default)]
pub enum ReferrerPolicy {
    /// No Referer header.
    NoReferrer,
    /// No Referer header to origins without TLS.
    NoReferrerWhenDowngrade,
    /// Only the document's origin.
    Origin,
    /// Full referrer on same origin, origin only across origins.
    OriginWhenCrossOrigin,
    /// Referrer for same-origin requests only.
    SameOrigin,
    /// Origin only, and only while the security level is kept.
    StrictOrigin,
    /// Full URL on same origin, origin on cross-origin HTTPS, nothing on HTTP (default).
    #[default]
    StrictOriginWhenCrossOrigin,
    /// Origin and path, even to insecure origins.
    UnsafeUrl,
}

impl ReferrerPolicy {
    /// The attribute value of each variant.
    pub open spec fn spec_str(self) -> Seq<char> {
        match self {
            ReferrerPolicy::NoReferrer => "no-referrer"@,
            ReferrerPolicy::NoReferrerWhenDowngrade => "no-referrer-when-downgrade"@,
            ReferrerPolicy::Origin => "origin"@,
            ReferrerPolicy::OriginWhenCrossOrigin => "origin-when-cross-origin"@,
            ReferrerPolicy::SameOrigin => "same-origin"@,
            ReferrerPolicy::StrictOrigin => "strict-origin"@,
            ReferrerPolicy::StrictOriginWhenCrossOrigin => "strict-origin-when-cross-origin"@,
            ReferrerPolicy::UnsafeUrl => "unsafe-url"@,
        }
    }

    /// The variant's attribute value.
    pub fn as_str(&self) -> (r: &'static str)
        ensures
            r@ == self.spec_str(),
    {
        match self {
            ReferrerPolicy::NoReferrer => "no-referrer",
            ReferrerPolicy::NoReferrerWhenDowngrade => "no-referrer-when-downgrade",
            ReferrerPolicy::Origin => "origin",
            ReferrerPolicy::OriginWhenCrossOrigin => "origin-when-cross-origin",
            ReferrerPolicy::SameOrigin => "same-origin",
            ReferrerPolicy::StrictOrigin => "strict-origin",
            ReferrerPolicy::StrictOriginWhenCrossOrigin => "strict-origin-when-cross-origin",
            ReferrerPolicy::UnsafeUrl => "unsafe-url",
        }
    }
}

/// The `aria-live` attribute.
#[derive(Debug, Clone, Copy, PartialEq, Eq, Structural, Default)]
pub enum AriaLive {
    /// Updates are not announced (default).
    #[default]
    Off,
    /// Updates are announced when the user is idle.
    Polite,
    /// Updates are announced at once.
    Assertive,
}

impl AriaLive {
    /// The attribute value of each variant.
    pub open spec fn spec_str(self) -> Seq<char> {
        match self {
            AriaLive::Off => "off"@,
            AriaLive::Polite => "polite"@,
            AriaLive::Assertive => "assertive"@,
        }
    }

    /// The variant's attribute value.
    pub fn as_str(&self) -> (r: &'static str)
        ensures
            r@ == self.spec_str(),
    {
        match self {
            AriaLive::Off => "off",
            AriaLive::Polite => "polite",
            AriaLive::Assertive => "assertive",
        }
    }
}

/// The `aria-pressed` attribute.
#[derive(Debug, Clone, Copy, PartialEq, Eq, Structural, Default)]
pub enum AriaPressed {
    /// Pressed.
    True,
    /// Not pressed.
    False,
    /// Partly pressed.
    Mixed,
    /// Not a toggle (default).
    #[default]
    Undefined,
}

impl AriaPressed {
    /// The attribute value of each variant.
    pub open spec fn spec_str(self) -> Seq<char> {
        match self {
            AriaPressed::True => "true"@,
            AriaPressed::False => "false"@,
            AriaPressed::Mixed => "mixed"@,
            AriaPressed::Undefined => "undefined"@,
        }
    }

    /// The variant's attribute value.
    pub fn as_str(&self) -> (r: &'static str)
        ensures
            r@ == self.spec_str(),
    {
        match self {
            AriaPressed::True => "true",
            AriaPressed::False => "false",
            AriaPressed::Mixed => "mixed",
            AriaPressed::Undefined => "undefined",
        }
    }
}

/// A string that equals a layout's attribute value up to ASCII case parses to
/// that layout; in particular each attribute value parses back to its variant.
pub proof fn lemma_layout_round_trip(v: Layout, s: Seq<char>)
    requires
        eq_folded(s, v.spec_str()),
    ensures
        Layout::spec_parse(s) == Some(v),
{
    lemma_layout_literals_distinct(v);
    assert forall|w: Layout| w != v implies !eq_folded(s, #[trigger] w.spec_str()) by {
        lemma_layout_literals_distinct(w);
        if eq_folded(s, w.spec_str()) {
            lemma_eq_folded_trans(s, v.spec_str(), w.spec_str());
            lemma_eq_folded_trans(v.spec_str(), s, w.spec_str());
        }
    }
    assert(v == Layout::Fill || !eq_folded(s, Layout::Fill.spec_str()));
    assert(v == Layout::Responsive || !eq_folded(s, Layout::Responsive.spec_str()));
    assert(v == Layout::Intrinsic || !eq_folded(s, Layout::Intrinsic.spec_str()));
    assert(v == Layout::Fixed || !eq_folded(s, Layout::Fixed.spec_str()));
    assert(v == Layout::Auto || !eq_folded(s, Layout::Auto.spec_str()));
    assert(v == Layout::Stretch || !eq_folded(s, Layout::Stretch.spec_str()));
    assert(v == Layout::ScaleDown || !eq_folded(s, Layout::ScaleDown.spec_str()));
}

/// Two strings equal up to ASCII case parse to the same layout.
pub proof fn lemma_layout_parse_ignores_case(s: Seq<char>, t: Seq<char>)
    requires
        eq_folded(s, t),
    ensures
        Layout::spec_parse(s) == Layout::spec_parse(t),
{
    lemma_eq_folded_trans(s, t, "fill"@);
    lemma_eq_folded_trans(s, t, "responsive"@);
    lemma_eq_folded_trans(s, t, "intrinsic"@);
    lemma_eq_folded_trans(s, t, "fixed"@);
    lemma_eq_folded_trans(s, t, "auto"@);
    lemma_eq_folded_trans(s, t, "stretch"@);
    lemma_eq_folded_trans(s, t, "scale-down"@);
}

/// No two layout attribute values are equal up to ASCII case.
proof fn lemma_layout_literals_distinct(v: Layout)
    ensures
        forall|w: Layout| w != v ==> !eq_folded(v.spec_str(), #[trigger] w.spec_str()),
{
    reveal_strlit("fill");
    reveal_strlit("responsive");
    reveal_strlit("intrinsic");
    reveal_strlit("fixed");
    reveal_strlit("auto");
    reveal_strlit("stretch");
    reveal_strlit("scale-down");
    assert forall|w: Layout| w != v implies !eq_folded(v.spec_str(), #[trigger] w.spec_str()) by {
        if v.spec_str().len() == w.spec_str().len() {
            assert(folded_code(v.spec_str()[0]) != folded_code(w.spec_str()[0])
                || folded_code(v.spec_str()[1]) != folded_code(w.spec_str()[1]));
        }
    }
}

/// A string that equals a decoding's attribute value up to ASCII case parses to
/// that decoding; in particular each attribute value parses back to its variant.
pub proof fn lemma_decoding_round_trip(v: Decoding, s: Seq<char>)
    requires
        eq_folded(s, v.spec_str()),
    ensures
        Decoding::spec_parse(s) == Some(v),
{
    lemma_decoding_literals_distinct(v);
    assert forall|w: Decoding| w != v implies !eq_folded(s, #[trigger] w.spec_str()) by {
        lemma_decoding_literals_distinct(w);
        if eq_folded(s, w.spec_str()) {
            lemma_eq_folded_trans(s, v.spec_str(), w.spec_str());
            lemma_eq_folded_trans(v.spec_str(), s, w.spec_str());
        }
    }
    assert(v == Decoding::Auto || !eq_folded(s, Decoding::Auto.spec_str()));
    assert(v == Decoding::Sync || !eq_folded(s, Decoding::Sync.spec_str()));
    assert(v == Decoding::Async || !eq_folded(s, Decoding::Async.spec_str()));
}

/// Two strings equal up to ASCII case parse to the same decoding.
pub proof fn lemma_decoding_parse_ignores_case(s: Seq<char>, t: Seq<char>)
    requires
        eq_folded(s, t),
    ensures
        Decoding::spec_parse(s) == Decoding::spec_parse(t),
{
    lemma_eq_folded_trans(s, t, "auto"@);
    lemma_eq_folded_trans(s, t, "sync"@);
    lemma_eq_folded_trans(s, t, "async"@);
}

/// No two decoding attribute values are equal up to ASCII case.
proof fn lemma_decoding_literals_distinct(v: Decoding)
    ensures
        forall|w: Decoding| w != v ==> !eq_folded(v.spec_str(), #[trigger] w.spec_str()),
{
    reveal_strlit("auto");
    reveal_strlit("sync");
    reveal_strlit("async");
    assert forall|w: Decoding| w != v implies !eq_folded(v.spec_str(), #[trigger] w.spec_str()) by {
        if v.spec_str().len() == w.spec_str().len() {
            assert(folded_code(v.spec_str()[0]) != folded_code(w.spec_str()[0])
                || folded_code(v.spec_str()[1]) != folded_code(w.spec_str()[1]));
        }
    }
}

} // verus!
