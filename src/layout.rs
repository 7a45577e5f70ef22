//! The layout resolver: from a layout strategy and the image's width and
//! height attributes to the styles of the containers around the image.

use vstd::prelude::*;

use crate::common::Layout;
use crate::text::{
    decimal, decimal_string, digits_value, is_decimal, lemma_decimal_value, lemma_pow10,
    parse_decimal, pow10, scale_by_pow10, scan_decimal,
};

verus! {

/// The ratio `height / width` is finite: both are numbers in decimal
/// notation and the width is not zero.
pub open spec fn finite_ratio(width: Seq<char>, height: Seq<char>) -> bool {
    is_decimal(width) && is_decimal(height) && scan_decimal(width).mantissa > 0
}

/// With `h = hm / 10^hf` and `w = wm / 10^wf`, `100 * h / w` equals
/// `scaled_height / scaled_width`, where `scaled_height` is `100 * hm * 10^wf`.
pub open spec fn scaled_height(width: Seq<char>, height: Seq<char>) -> nat {
    100 * scan_decimal(height).mantissa * pow10(scan_decimal(width).frac_digits)
}

/// `wm * 10^hf`: see [`scaled_height`].
pub open spec fn scaled_width(width: Seq<char>, height: Seq<char>) -> nat {
    scan_decimal(width).mantissa * pow10(scan_decimal(height).frac_digits)
}

/// The top padding of a responsive container, which gives it the image's
/// aspect ratio: `100 * height / width` percent, and `100%` where that ratio
/// is not finite (a width of zero, or a dimension that is not a number).
/// The percentage is written out where it is whole and both scaled operands
/// fit in 64 bits; otherwise it is left to CSS as
/// `calc(100% * height / width)`, with the numbers as given.
pub open spec fn padding_top(width: Seq<char>, height: Seq<char>) -> Seq<char> {
    if !finite_ratio(width, height) {
        "100%"@
    } else if scaled_height(width, height) <= u64::MAX && scaled_width(width, height) <= u64::MAX
        && scaled_height(width, height) % scaled_width(width, height) == 0 {
        decimal(scaled_height(width, height) / scaled_width(width, height)) + "%"@
    } else {
        "calc(100% * "@ + height + " / "@ + width + ")"@
    }
}

/// The responsive padding is `100 * height / width` percent for every pair
/// of decimal numbers with a non-zero width: either a whole number `p`
/// followed by `%`, where `p * w == 100 * h` (both sides multiplied out by
/// the powers of ten of the two decimal points), or
/// `calc(100% * height / width)` with the numbers as given. Where the ratio
/// is not finite the padding is `100%`.
pub proof fn lemma_padding_is_ratio(width: Seq<char>, height: Seq<char>)
    ensures
        !finite_ratio(width, height) ==> padding_top(width, height) == "100%"@,
        finite_ratio(width, height) ==> {
            let p = padding_top(width, height);
            let (hm, hf) = (scan_decimal(height).mantissa, scan_decimal(height).frac_digits);
            let (wm, wf) = (scan_decimal(width).mantissa, scan_decimal(width).frac_digits);
            ||| p == "calc(100% * "@ + height + " / "@ + width + ")"@
            ||| p.last() == '%' && digits_value(p.drop_last()) * (wm * pow10(hf)) == 100 * hm
                * pow10(wf)
        },
{
    reveal_strlit("%");
    if finite_ratio(width, height) {
        let sh = scaled_height(width, height);
        let sw = scaled_width(width, height);
        if sh <= u64::MAX && sw <= u64::MAX && sh % sw == 0 {
            lemma_pow10(scan_decimal(height).frac_digits, 0);
            assert(sw > 0) by (nonlinear_arith)
                requires
                    sw == scan_decimal(width).mantissa * pow10(scan_decimal(height).frac_digits),
                    scan_decimal(width).mantissa > 0,
                    pow10(scan_decimal(height).frac_digits) >= 1,
            ;
            let q = sh / sw;
            lemma_decimal_value(q);
            let p = padding_top(width, height);
            assert(p.drop_last() =~= decimal(q));
            assert(q * sw == sh) by (nonlinear_arith)
                requires
                    sh % sw == 0,
                    q == sh / sw,
                    sw > 0,
            ;
        }
    }
}

/// Computes the top padding of a responsive container from the image's
/// width and height attributes.
pub fn responsive_padding(width: &str, height: &str) -> (r: String)
    ensures
        r@ == padding_top(width@, height@),
{
    let (w, h) = match (parse_decimal(width), parse_decimal(height)) {
        (Some(w), Some(h)) => (w, h),
        _ => return String::from_str("100%"),
    };
    if let Some(0) = w.mantissa {
        return String::from_str("100%");
    }
    proof {
        lemma_pow10(scan_decimal(width@).frac_digits, 0);
        lemma_pow10(scan_decimal(height@).frac_digits, 0);
        let hm = scan_decimal(height@).mantissa;
        let wm = scan_decimal(width@).mantissa;
        let hp = pow10(scan_decimal(width@).frac_digits);
        let wp = pow10(scan_decimal(height@).frac_digits);
        assert(100 * hm * hp >= hm && wm * wp >= wm) by (nonlinear_arith)
            requires
                hp >= 1,
                wp >= 1,
        ;
    }
    let scaled_h: Option<u64> = match h.mantissa {
        Some(hm) => if hm > u64::MAX / 100 {
            proof {
                let hp = pow10(scan_decimal(width@).frac_digits);
                assert(100 * (hm as nat) * hp >= 100 * (hm as nat)) by (nonlinear_arith)
                    requires
                        hp >= 1,
                ;
            }
            None
        } else {
            proof {
                let hp = pow10(scan_decimal(width@).frac_digits);
                assert(100 * (hm as nat) * hp == (100 * hm) as nat * hp) by (nonlinear_arith);
            }
            scale_by_pow10(100 * hm, w.frac_digits)
        },
        None => None,
    };
    let scaled_w: Option<u64> = match w.mantissa {
        Some(wm) => scale_by_pow10(wm, h.frac_digits),
        None => None,
    };
    match (scaled_h, scaled_w) {
        (Some(sh), Some(sw)) => {
            if sh % sw == 0 {
                let mut r = decimal_string(sh / sw);
                r.append("%");
                return r;
            }
        },
        _ => {},
    }
    let mut r = String::from_str("calc(100% * ");
    r.append(height);
    r.append(" / ");
    r.append(width);
    r.append(")");
    r
}

/// The style of the outermost container of each layout.
pub open spec fn outer_style(layout: Layout) -> Seq<char> {
    match layout {
        Layout::Fill => "display: block; position: absolute; top: 0; left: 0; bottom: 0; right: 0;"@,
        Layout::Responsive => "display: block; position: relative;"@,
        Layout::Intrinsic => "display: inline-block; position: relative; max-width: 100%;"@,
        Layout::Fixed => "display: inline-block; position: relative;"@,
        Layout::Auto => "display: inline-block; position: relative;"@,
        Layout::Stretch => "display: block; width: 100%; height: 100%; position: relative;"@,
        Layout::ScaleDown => "display: inline-block; position: relative; max-width: 100%; max-height: 100%;"@,
    }
}

/// The style of the inner container that wraps the image, where the layout
/// has one: the responsive ratio padding, or the intrinsic width cap.
pub open spec fn inner_style(layout: Layout, width: Seq<char>, height: Seq<char>) -> Option<Seq<char>> {
    match layout {
        Layout::Responsive => Some("padding-top: "@ + padding_top(width, height) + ";"@),
        Layout::Intrinsic => Some("max-width: 100%;"@),
        _ => None,
    }
}

/// The image's own width (or height) attribute under `layout`: a stretched
/// image takes the container's full size, any other keeps the given value.
pub open spec fn image_extent(layout: Layout, given: Seq<char>) -> Seq<char> {
    if layout == Layout::Stretch {
        "100%"@
    } else {
        given
    }
}

/// How the containers around an image are styled under one layout.
pub struct LayoutPlan {
    /// The style of the outermost container.
    pub outer_style: String,
    /// The style of an inner container that wraps the image, if any.
    pub inner_style: Option<String>,
    /// The image's width attribute.
    pub image_width: String,
    /// The image's height attribute.
    pub image_height: String,
    /// Whether a hidden copy of the blur placeholder follows the image.
    pub hidden_placeholder: bool,
}

/// The style of the outermost container of `layout`.
pub fn container_style(layout: Layout) -> (r: &'static str)
    ensures
        r@ == outer_style(layout),
{
    match layout {
        Layout::Fill => "display: block; position: absolute; top: 0; left: 0; bottom: 0; right: 0;",
        Layout::Responsive => "display: block; position: relative;",
        Layout::Intrinsic => "display: inline-block; position: relative; max-width: 100%;",
        Layout::Fixed => "display: inline-block; position: relative;",
        Layout::Auto => "display: inline-block; position: relative;",
        Layout::Stretch => "display: block; width: 100%; height: 100%; position: relative;",
        Layout::ScaleDown => "display: inline-block; position: relative; max-width: 100%; max-height: 100%;",
    }
}

/// Resolves `layout` for an image with the given width and height
/// attributes.
pub fn resolve_layout(layout: Layout, width: &str, height: &str) -> (r: LayoutPlan)
    ensures
        r.outer_style@ == outer_style(layout),
        r.inner_style is None <==> inner_style(layout, width@, height@) is None,
        r.inner_style matches Some(s) ==> inner_style(layout, width@, height@) == Some(s@),
        r.image_width@ == image_extent(layout, width@),
        r.image_height@ == image_extent(layout, height@),
        r.hidden_placeholder == (layout == Layout::Intrinsic),
{
    let inner = match layout {
        Layout::Responsive => {
            let mut s = String::from_str("padding-top: ");
            s.append(responsive_padding(width, height).as_str());
            s.append(";");
            Some(s)
        },
        Layout::Intrinsic => Some(String::from_str("max-width: 100%;")),
        _ => None,
    };
    let (image_width, image_height) = match layout {
        Layout::Stretch => (String::from_str("100%"), String::from_str("100%")),
        _ => (width.to_owned(), height.to_owned()),
    };
    LayoutPlan {
        outer_style: String::from_str(container_style(layout)),
        inner_style: inner,
        image_width,
        image_height,
        hidden_placeholder: layout == Layout::Intrinsic,
    }
}

} // verus!
