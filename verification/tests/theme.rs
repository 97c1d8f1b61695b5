use profileit::config::{AssetPath, Background, Font, FontPreset, ImageFit, PatternName, Sheet, TextColors, Theme};
use profileit::theme::{css_variables, pattern_value};

fn theme_with(background: Background) -> Theme {
    Theme { background, ..Theme::default() }
}

#[test]
fn gradient_becomes_linear_gradient() {
    let css = css_variables(&theme_with(Background::Gradient {
        from: "#fff".into(),
        to: "#000".into(),
        angle: 165,
    }));
    assert!(css.contains("--pf-background: linear-gradient(165deg, #fff 0%, #000 100%);"));
}

/// An image background goes to its own layer, not the body background.
#[test]
fn image_goes_to_backdrop_layer() {
    let css = css_variables(&theme_with(Background::Image {
        src: AssetPath("assets/bg.jpg".into()),
        fit: ImageFit::Repeat,
        position: "top".into(),
        blur: "8px".into(),
        overlay: Some("#ffffff80".into()),
    }));
    assert!(css.contains("--pf-background: transparent;"));
    assert!(css.contains("--pf-background-image: url(\"assets/bg.jpg\");"));
    assert!(css.contains("--pf-background-fit: auto;"));
    assert!(css.contains("--pf-background-repeat: repeat;"));
    assert!(css.contains("--pf-background-blur: 8px;"));
    assert!(css.contains("--pf-background-overlay: #ffffff80;"));
}

/// The pattern's strokes scale with its size, so a bigger size means a bigger pattern.
#[test]
fn pattern_scales_with_size() {
    let value = pattern_value(PatternName::Dots, "#fff", "#000", "40px");
    assert!(value.contains("calc(40px / 9)"));
    assert!(value.ends_with("#fff"));
}

#[test]
fn shadow_toggles_to_none() {
    let theme = Theme { sheet: Sheet { shadow: false, ..Sheet::default() }, ..Theme::default() };
    assert!(css_variables(&theme).contains("--pf-sheet-shadow: none;"));
}

/// Without a heading preset, headings use the body font.
#[test]
fn heading_font_falls_back_to_body_font() {
    let theme = Theme {
        font: Font { preset: FontPreset::Pretendard, heading_preset: None, ..Font::default() },
        text: TextColors::default(),
        ..Theme::default()
    };
    let css = css_variables(&theme);
    let body = css
        .lines()
        .find(|l| l.contains("--pf-font-family:"))
        .unwrap()
        .replace("--pf-font-family:", "");
    let heading = css
        .lines()
        .find(|l| l.contains("--pf-font-heading-family:"))
        .unwrap()
        .replace("--pf-font-heading-family:", "");
    assert_eq!(body.trim(), heading.trim());
}
