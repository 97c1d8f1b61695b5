//! `[theme]` as CSS custom properties.
//!
//! This is the one place where the schema meets the stylesheet: `styles.css`
//! only consumes `--pf-*` tokens, so a theme change leaves the stylesheet
//! cached and only this inline `<style>` block differs.

use vstd::prelude::*;

use crate::config::{Background, Card, Font, ImageFit, PatternName, Sheet, Theme};
use crate::text::{dec, decimal, owned};

verus! {

/// One declaration: `  --pf-<name>: <value>;` and a line break.
pub open spec fn decl(name: Seq<char>, value: Seq<char>) -> Seq<char> {
    "  --pf-"@ + name + ": "@ + value + ";\n"@
}

fn put(css: &mut String, name: &str, value: &str)
    ensures
        final(css)@ == old(css)@ + decl(name@, value@),
{
    css.append("  --pf-");
    css.append(name);
    css.append(": ");
    css.append(value);
    css.append(";\n");
}

/// A motif drawn with CSS gradients. The motif's strokes scale with `size`,
/// so a bigger tile means a bigger motif, not just wider gaps.
pub open spec fn pattern_css(name: PatternName, color: Seq<char>, ink: Seq<char>, size: Seq<char>) -> Seq<char> {
    match name {
        PatternName::Dots => "radial-gradient(circle, "@ + ink + " calc("@ + size
            + " / 9), transparent calc("@ + size + " / 9)) 0 0 / "@ + size + " "@ + size + ", "@
            + color,
        PatternName::Grid => "linear-gradient("@ + ink + " 1px, transparent 1px) 0 0 / "@ + size
            + " "@ + size + ", linear-gradient(90deg, "@ + ink
            + " 1px, transparent 1px) 0 0 / "@ + size + " "@ + size + ", "@ + color,
        PatternName::Stripes => "repeating-linear-gradient(45deg, "@ + ink + " 0 calc("@ + size
            + " / 2), transparent calc("@ + size + " / 2) "@ + size + "), "@ + color,
        PatternName::Checks => "conic-gradient("@ + ink
            + " 0 25%, transparent 0 50%, "@ + ink + " 0 75%, transparent 0) 0 0 / "@ + size
            + " "@ + size + ", "@ + color,
    }
}

/// The value of `--pf-background` for a pattern.
pub fn pattern_value(name: PatternName, color: &str, ink: &str, size: &str) -> (r: String)
    ensures
        r@ == pattern_css(name, color@, ink@, size@),
{
    let mut v = String::new();
    match name {
        PatternName::Dots => {
            v.append("radial-gradient(circle, ");
            v.append(ink);
            v.append(" calc(");
            v.append(size);
            v.append(" / 9), transparent calc(");
            v.append(size);
            v.append(" / 9)) 0 0 / ");
            v.append(size);
            v.append(" ");
            v.append(size);
            v.append(", ");
            v.append(color);
        },
        PatternName::Grid => {
            v.append("linear-gradient(");
            v.append(ink);
            v.append(" 1px, transparent 1px) 0 0 / ");
            v.append(size);
            v.append(" ");
            v.append(size);
            v.append(", linear-gradient(90deg, ");
            v.append(ink);
            v.append(" 1px, transparent 1px) 0 0 / ");
            v.append(size);
            v.append(" ");
            v.append(size);
            v.append(", ");
            v.append(color);
        },
        PatternName::Stripes => {
            v.append("repeating-linear-gradient(45deg, ");
            v.append(ink);
            v.append(" 0 calc(");
            v.append(size);
            v.append(" / 2), transparent calc(");
            v.append(size);
            v.append(" / 2) ");
            v.append(size);
            v.append("), ");
            v.append(color);
        },
        PatternName::Checks => {
            v.append("conic-gradient(");
            v.append(ink);
            v.append(" 0 25%, transparent 0 50%, ");
            v.append(ink);
            v.append(" 0 75%, transparent 0) 0 0 / ");
            v.append(size);
            v.append(" ");
            v.append(size);
            v.append(", ");
            v.append(color);
        },
    }
    proof {
        reveal_strlit("");
    }
    assert(v@ =~= pattern_css(name, color@, ink@, size@));
    v
}

/// How an image background fills the screen: `background-size` and
/// `background-repeat`. `repeat` tiles at the image's own size.
pub open spec fn fit_css(fit: ImageFit) -> (Seq<char>, Seq<char>) {
    match fit {
        ImageFit::Cover => ("cover"@, "no-repeat"@),
        ImageFit::Contain => ("contain"@, "no-repeat"@),
        ImageFit::Repeat => ("auto"@, "repeat"@),
    }
}

pub open spec fn background_css(b: Background) -> Seq<char> {
    match b {
        Background::Solid { color } => decl("background"@, color@),
        Background::Gradient { from, to, angle } => decl(
            "background"@,
            "linear-gradient("@ + dec(angle as nat) + "deg, "@ + from@ + " 0%, "@ + to@
                + " 100%)"@,
        ),
        Background::Pattern { name, color, pattern_color, size } => decl(
            "background"@,
            pattern_css(name, color@, pattern_color@, size@),
        ),
        // The picture itself goes on the `.pf-backdrop` layer: a filter
        // (the blur) cannot apply to a background image.
        Background::Image { src, fit, position, blur, overlay } => decl(
            "background"@,
            "transparent"@,
        ) + decl("background-image"@, "url(\""@ + src.0@ + "\")"@) + decl(
            "background-fit"@,
            fit_css(fit).0,
        ) + decl("background-repeat"@, fit_css(fit).1) + decl("background-position"@, position@)
            + decl("background-blur"@, blur@) + match overlay {
            Some(o) => decl("background-overlay"@, o@),
            None => seq![],
        },
    }
}

fn background_variables(background: &Background, css: &mut String)
    ensures
        final(css)@ == old(css)@ + background_css(*background),
{
    let ghost before = css@;
    match background {
        Background::Solid { color } => put(css, "background", color.as_str()),
        Background::Gradient { from, to, angle } => {
            let a = decimal(*angle as u64);
            let mut v = owned("linear-gradient(");
            v.append(a.as_str());
            v.append("deg, ");
            v.append(from.as_str());
            v.append(" 0%, ");
            v.append(to.as_str());
            v.append(" 100%)");
            put(css, "background", v.as_str());
        },
        Background::Pattern { name, color, pattern_color, size } => {
            let v = pattern_value(*name, color.as_str(), pattern_color.as_str(), size.as_str());
            put(css, "background", v.as_str());
        },
        Background::Image { src, fit, position, blur, overlay } => {
            put(css, "background", "transparent");
            let mut url = owned("url(\"");
            url.append(src.0.as_str());
            url.append("\")");
            put(css, "background-image", url.as_str());
            let (size, repeat) = match fit {
                ImageFit::Cover => ("cover", "no-repeat"),
                ImageFit::Contain => ("contain", "no-repeat"),
                ImageFit::Repeat => ("auto", "repeat"),
            };
            put(css, "background-fit", size);
            put(css, "background-repeat", repeat);
            put(css, "background-position", position.as_str());
            put(css, "background-blur", blur.as_str());
            if let Some(o) = overlay {
                put(css, "background-overlay", o.as_str());
            }
        },
    }
    assert(css@ =~= before + background_css(*background));
}

pub open spec fn sheet_css(s: Sheet) -> Seq<char> {
    decl("sheet-bg"@, s.background@) + decl("sheet-radius"@, s.radius@) + decl(
        "sheet-shadow"@,
        if s.shadow {
            "0 8px 30px rgb(16 62 82 / 14%)"@
        } else {
            "none"@
        },
    )
}

fn sheet_variables(sheet: &Sheet, css: &mut String)
    ensures
        final(css)@ == old(css)@ + sheet_css(*sheet),
{
    let ghost before = css@;
    put(css, "sheet-bg", sheet.background.as_str());
    put(css, "sheet-radius", sheet.radius.as_str());
    let shadow = if sheet.shadow {
        "0 8px 30px rgb(16 62 82 / 14%)"
    } else {
        "none"
    };
    put(css, "sheet-shadow", shadow);
    assert(css@ =~= before + sheet_css(*sheet));
}

pub open spec fn card_css(c: Card) -> Seq<char> {
    decl("card-bg"@, c.background@) + decl("card-radius"@, c.radius@) + decl(
        "card-shadow"@,
        if c.shadow {
            "0 2px 10px rgb(16 62 82 / 10%)"@
        } else {
            "none"@
        },
    )
}

fn card_variables(card: &Card, css: &mut String)
    ensures
        final(css)@ == old(css)@ + card_css(*card),
{
    let ghost before = css@;
    put(css, "card-bg", card.background.as_str());
    put(css, "card-radius", card.radius.as_str());
    let shadow = if card.shadow {
        "0 2px 10px rgb(16 62 82 / 10%)"
    } else {
        "none"
    };
    put(css, "card-shadow", shadow);
    assert(css@ =~= before + card_css(*card));
}

pub open spec fn font_css(f: Font) -> Seq<char> {
    (match f.body_family_of() {
        Some(v) => decl("font-family"@, v),
        None => seq![],
    }) + (match f.heading_family_of() {
        Some(v) => decl("font-heading-family"@, v),
        None => seq![],
    }) + decl("font-heading-weight"@, dec(f.heading_weight as nat)) + decl(
        "font-size-base"@,
        f.base_size@,
    ) + decl("line-height"@, f.line_height@) + decl("letter-spacing"@, f.letter_spacing@)
}

fn font_variables(font: &Font, css: &mut String)
    ensures
        final(css)@ == old(css)@ + font_css(*font),
{
    let ghost before = css@;
    // Always present once validation has passed.
    if let Some(family) = font.body_family() {
        put(css, "font-family", family);
    }
    if let Some(heading) = font.heading_family() {
        put(css, "font-heading-family", heading);
    }
    let w = decimal(font.heading_weight as u64);
    put(css, "font-heading-weight", w.as_str());
    put(css, "font-size-base", font.base_size.as_str());
    put(css, "line-height", font.line_height.as_str());
    put(css, "letter-spacing", font.letter_spacing.as_str());
    assert(css@ =~= before + font_css(*font));
}

/// Every declaration, in the order they are written.
pub open spec fn theme_css(t: Theme) -> Seq<char> {
    background_css(t.background) + sheet_css(t.sheet) + card_css(t.card) + decl(
        "accent"@,
        t.accent@,
    ) + decl("text-heading"@, t.text.heading@) + decl("text-body"@, t.text.body@) + decl(
        "text-card-title"@,
        t.text.card_title@,
    ) + decl("text-muted"@, t.text.muted@) + font_css(t.font)
}

/// The declarations that go inside `:root { ... }`.
pub fn css_variables(theme: &Theme) -> (r: String)
    ensures
        r@ == theme_css(*theme),
{
    let mut css = String::new();
    proof {
        reveal_strlit("");
    }
    background_variables(&theme.background, &mut css);
    sheet_variables(&theme.sheet, &mut css);
    card_variables(&theme.card, &mut css);
    put(&mut css, "accent", theme.accent.as_str());
    put(&mut css, "text-heading", theme.text.heading.as_str());
    put(&mut css, "text-body", theme.text.body.as_str());
    put(&mut css, "text-card-title", theme.text.card_title.as_str());
    put(&mut css, "text-muted", theme.text.muted.as_str());
    font_variables(&theme.font, &mut css);
    assert(css@ =~= theme_css(*theme));
    css
}

} // verus!
