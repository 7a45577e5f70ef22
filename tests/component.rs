use image_rs::{
    AriaLive, AriaPressed, CrossOrigin, Decoding, FetchPriority, Image, ImageProps, Layout,
    Loading, ObjectFit, Position, ReferrerPolicy,
};

fn bench_props() -> ImageProps {
    let mut p = ImageProps::default();
    p.src = "https://placehold.co/800?text=Hello+World&font=roboto".to_string();
    p.alt = "Photo".to_string();
    p.width = "400".to_string();
    p.height = "600".to_string();
    p.layout = Layout::Responsive;
    p.quality = "high".to_string();
    p.decoding = Decoding::Async;
    p.object_fit = ObjectFit::Cover;
    p.object_position = Position::Center;
    p.style = "border-radius: 8px;".to_string();
    p.class = "benchmark-image".to_string();
    p
}

fn value<'a>(attrs: &'a [(String, String)], name: &str) -> Option<&'a str> {
    attrs.iter().find(|(n, _)| n == name).map(|(_, v)| v.as_str())
}

#[test]
fn props_defaults() {
    let p = ImageProps::default();
    assert_eq!(p.src, "");
    assert_eq!(p.alt, "Image");
    assert_eq!(p.placeholder, "empty");
    assert_eq!(p.lazy_boundary, "100px");
    assert_eq!(p.fallback_src, "");
    assert!(!p.unoptimized);
    assert!(!p.ismap);
    assert_eq!(p.layout, Layout::Auto);
    assert_eq!(p.object_fit, ObjectFit::Contain);
    assert_eq!(p.object_position, Position::Center);
    assert_eq!(p.decoding, Decoding::Auto);
    assert_eq!(p.loading, Loading::Auto);
    assert_eq!(p.crossorigin, CrossOrigin::Unset);
    assert_eq!(p.referrerpolicy, ReferrerPolicy::StrictOriginWhenCrossOrigin);
    assert_eq!(p.fetchpriority, FetchPriority::Auto);
    assert_eq!(p.aria_live, AriaLive::Off);
    assert_eq!(p.aria_pressed, AriaPressed::Undefined);
}

#[test]
fn image_style_puts_fit_position_then_own_style() {
    let p = bench_props();
    assert_eq!(p.image_style(), "object-fit: cover;object-position: center;border-radius: 8px;");
    assert_eq!(ImageProps::default().image_style(), "object-fit: contain;object-position: center;");
}

#[test]
fn blur_style_only_for_blur_placeholder() {
    let mut p = bench_props();
    assert_eq!(p.blur_style(), "");
    p.placeholder = "blur".to_string();
    p.sizes = "cover".to_string();
    p.blur_data_url = "data:image/png;base64,AAAA".to_string();
    p.object_position = Position::TopLeft;
    assert_eq!(
        p.blur_style(),
        "background-size: cover; background-position: top left; filter: blur(20px); background-image: url(\"data:image/png;base64,AAAA\")"
    );
    p.placeholder = "Blur".to_string();
    assert_eq!(p.blur_style(), "");
}

#[test]
fn full_style_joins_blur_and_image_style() {
    let p = bench_props();
    assert_eq!(p.full_style(), " object-fit: cover;object-position: center;border-radius: 8px;");
    let mut q = ImageProps::default();
    q.placeholder = "blur".to_string();
    q.blur_data_url = "b.png".to_string();
    assert_eq!(
        q.full_style(),
        "background-size: ; background-position: center; filter: blur(20px); background-image: url(\"b.png\") object-fit: contain;object-position: center;"
    );
}

#[test]
fn attributes_in_order() {
    let p = bench_props();
    let attrs = p.image_attributes();
    let names: Vec<&str> = attrs.iter().map(|(n, _)| n.as_str()).collect();
    assert_eq!(
        names,
        vec![
            "src",
            "alt",
            "width",
            "height",
            "style",
            "class",
            "loading",
            "sizes",
            "quality",
            "placeholder",
            "decoding",
            "role",
            "aria-label",
            "aria-labelledby",
            "aria-describedby",
            "aria-hidden",
            "aria-current",
            "aria-expanded",
            "aria-live",
            "aria-pressed",
            "aria-controls",
            "referrerpolicy",
            "fetchpriority",
            "attributionsrc",
            "elementtiming",
            "srcset",
            "usemap",
        ]
    );
    assert_eq!(value(&attrs, "src"), Some("https://placehold.co/800?text=Hello+World&font=roboto"));
    assert_eq!(value(&attrs, "width"), Some("400"));
    assert_eq!(value(&attrs, "decoding"), Some("async"));
    assert_eq!(value(&attrs, "role"), Some("img"));
    assert_eq!(value(&attrs, "aria-label"), Some("Photo"));
    assert_eq!(value(&attrs, "aria-live"), Some("off"));
    assert_eq!(value(&attrs, "aria-pressed"), Some("undefined"));
    assert_eq!(value(&attrs, "referrerpolicy"), Some("strict-origin-when-cross-origin"));
    assert_eq!(value(&attrs, "fetchpriority"), Some("auto"));
    assert_eq!(value(&attrs, "loading"), Some("auto"));
    assert_eq!(value(&attrs, "style"), Some(p.full_style().as_str()));
}

#[test]
fn crossorigin_and_ismap_only_when_set() {
    let mut p = ImageProps::default();
    p.crossorigin = CrossOrigin::UseCredentials;
    p.ismap = true;
    let attrs = p.image_attributes();
    assert_eq!(value(&attrs, "crossorigin"), Some("use-credentials"));
    assert_eq!(value(&attrs, "ismap"), Some(""));
    let names: Vec<&str> = attrs.iter().map(|(n, _)| n.as_str()).collect();
    assert_eq!(names.len(), 29);
    assert_eq!(names[21], "crossorigin");
    assert_eq!(names[27], "ismap");
    assert_eq!(names[28], "usemap");
}

#[test]
fn stretch_sizes_image_to_container() {
    let mut p = bench_props();
    p.layout = Layout::Stretch;
    let attrs = p.image_attributes();
    assert_eq!(value(&attrs, "width"), Some("100%"));
    assert_eq!(value(&attrs, "height"), Some("100%"));
}

#[test]
fn image_renders_responsive_bench_image() {
    let m = Image(&bench_props());
    assert_eq!(m.plan.outer_style, "display: block; position: relative;");
    assert_eq!(m.plan.inner_style, Some("padding-top: 150%;".to_string()));
    assert_eq!(m.attributes, bench_props().image_attributes());
    assert!(m.placeholder.is_none());
}

#[test]
fn image_intrinsic_has_hidden_placeholder() {
    let mut p = bench_props();
    p.layout = Layout::Intrinsic;
    p.blur_data_url = "tiny.png".to_string();
    let m = Image(&p);
    assert!(m.plan.hidden_placeholder);
    assert_eq!(
        m.placeholder,
        Some(vec![
            ("src".to_string(), "tiny.png".to_string()),
            ("style".to_string(), "display: none;".to_string()),
            ("alt".to_string(), "Photo".to_string()),
            ("aria-hidden".to_string(), "true".to_string()),
        ])
    );
}
