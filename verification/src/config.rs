//! The schema of `profile.toml`.
//!
//! These types don't depend on how the file is edited: the local editor, the
//! static renderer and the validator all share them. The `[theme]` fields map
//! one to one onto CSS custom properties.

use vstd::prelude::*;

use crate::i18n::Text;
use crate::text::{chars_of, owned, seq_eq, str_eq};

verus! {

/// The schema version this library reads.
pub const SCHEMA_VERSION: u32 = 1;

/// An asset path, relative to the directory that holds `profile.toml`.
pub struct AssetPath(pub String);

// ─────────────────────────────────────────────────────────────────────────────
// Root
// ─────────────────────────────────────────────────────────────────────────────

pub struct Config {
    pub schema_version: u32,
    pub site: Site,
    pub profile: Profile,
    pub socials: Vec<Social>,
    /// Array order is screen order.
    pub sections: Vec<Section>,
    pub theme: Theme,
    pub features: Features,
    pub footer: Footer,
    pub deploy: Deploy,
}

/// The sections that are shown, in order.
pub open spec fn visible(sections: Seq<Section>) -> Seq<Section> {
    sections.filter(|s: Section| s.enabled)
}

/// The sequence with repeats removed, keeping each first occurrence in place.
pub open spec fn dedup(s: Seq<Seq<char>>) -> Seq<Seq<char>>
    decreases s.len(),
{
    if s.len() == 0 {
        s
    } else {
        let d = dedup(s.drop_last());
        if d.contains(s.last()) {
            d
        } else {
            d.push(s.last())
        }
    }
}

/// What `dedup` keeps: every element once, nothing else, the first first.
pub proof fn lemma_dedup(s: Seq<Seq<char>>)
    ensures
        dedup(s).no_duplicates(),
        forall|x: Seq<char>| #[trigger] dedup(s).contains(x) <==> s.contains(x),
        s.len() > 0 ==> dedup(s).len() > 0 && dedup(s)[0] == s[0],
    decreases s.len(),
{
    if s.len() > 0 {
        let t = s.drop_last();
        let last = s.last();
        lemma_dedup(t);
        assert(s =~= t.push(last));
        assert forall|x: Seq<char>| s.contains(x) <==> (t.contains(x) || x == last) by {
            if s.contains(x) {
                let i = choose|i: int| 0 <= i < s.len() && s[i] == x;
                if i < t.len() {
                    assert(t[i] == x);
                }
            }
            if t.contains(x) {
                let i = choose|i: int| 0 <= i < t.len() && t[i] == x;
                assert(s[i] == x);
            }
            if x == last {
                assert(s[s.len() - 1] == x);
            }
        }
        let d = dedup(t);
        if !d.contains(last) {
            assert forall|x: Seq<char>| d.push(last).contains(x) <==> (d.contains(x) || x == last) by {
                if d.push(last).contains(x) {
                    let i = choose|i: int| 0 <= i < d.push(last).len() && d.push(last)[i] == x;
                    if i < d.len() {
                        assert(d[i] == x);
                    }
                }
                if d.contains(x) {
                    let i = choose|i: int| 0 <= i < d.len() && d[i] == x;
                    assert(d.push(last)[i] == x);
                }
                if x == last {
                    assert(d.push(last)[d.len() as int] == x);
                }
            }
            assert forall|i: int, j: int| 0 <= i < d.push(last).len() && 0 <= j < d.push(last).len() && i != j implies d.push(last)[i] != d.push(last)[j] by {
                if i == d.len() {
                    assert(d.contains(d[j]));
                } else if j == d.len() {
                    assert(d.contains(d[i]));
                }
            }
        }
        assert forall|x: Seq<char>| #[trigger] dedup(s).contains(x) <==> s.contains(x) by {
            assert(dedup(t).contains(x) <==> t.contains(x));
            assert(dedup(t).contains(last) <==> t.contains(last));
        }
        if t.len() > 0 {
            assert(t[0] == s[0]);
        } else {
            assert(dedup(t).len() == 0);
        }
    }
}

/// Views of a list of strings.
pub open spec fn views(v: Seq<String>) -> Seq<Seq<char>> {
    v.map_values(|s: String| s@)
}

/// Whether `v` already holds a string equal to `s`.
pub fn contains_str(v: &Vec<String>, s: &str) -> (r: bool)
    ensures
        r == views(v@).contains(s@),
{
    let n = v.len();
    let mut i: usize = 0;
    while i < n
        invariant
            n == v@.len(),
            i <= n,
            forall|j: int| 0 <= j < i ==> v@[j]@ != s@,
        decreases n - i,
    {
        if str_eq(v[i].as_str(), s) {
            assert(views(v@)[i as int] == s@);
            return true;
        }
        i = i + 1;
    }
    proof {
        if views(v@).contains(s@) {
            let j = choose|j: int| 0 <= j < views(v@).len() && views(v@)[j] == s@;
            assert(v@[j]@ == s@);
        }
    }
    false
}

impl Config {
    /// The sections that are actually rendered, in order.
    pub fn visible_sections(&self) -> (r: Vec<&Section>)
        ensures
            r@.map_values(|s: &Section| *s) == visible(self.sections@),
    {
        let mut out: Vec<&Section> = Vec::new();
        let n = self.sections.len();
        let mut i: usize = 0;
        while i < n
            invariant
                n == self.sections@.len(),
                i <= n,
                out@.map_values(|s: &Section| *s) == visible(self.sections@.take(i as int)),
            decreases n - i,
        {
            let s = &self.sections[i];
            proof {
                reveal_with_fuel(Seq::filter, 1);
                assert(self.sections@.take(i + 1).drop_last() =~= self.sections@.take(i as int));
            }
            if s.enabled {
                out.push(s);
                assert(out@.map_values(|s: &Section| *s) =~= visible(self.sections@.take(i as int)).push(*s));
            }
            i = i + 1;
        }
        assert(self.sections@.take(n as int) =~= self.sections@);
        out
    }

    /// The languages to generate. **The default language always comes
    /// first** and repeats are dropped.
    ///
    /// The first language sits at the site root (`/`), so the order is the
    /// layout. Leaving the default language out of `languages` is a common
    /// slip, so it is put back here.
    pub fn languages(&self) -> (r: Vec<String>)
        ensures
            views(r@) == dedup(seq![self.site.lang@] + views(self.site.languages@)),
            views(r@).no_duplicates(),
            r@.len() > 0 && r@[0]@ == self.site.lang@,
            forall|x: Seq<char>| #[trigger] views(r@).contains(x) <==> (x == self.site.lang@
                || views(self.site.languages@).contains(x)),
    {
        let ghost all = seq![self.site.lang@] + views(self.site.languages@);
        let mut langs: Vec<String> = Vec::new();
        langs.push(self.site.lang.clone());
        proof {
            let e = all.take(1).drop_last();
            assert(e =~= Seq::<Seq<char>>::empty());
            assert(dedup(e) == e);
            assert(!e.contains(all[0]));
            assert(all.take(1).last() == self.site.lang@);
            assert(dedup(all.take(1)) == e.push(self.site.lang@));
            assert(views(langs@) =~= dedup(all.take(1)));
        }
        let n = self.site.languages.len();
        let mut i: usize = 0;
        while i < n
            invariant
                n == self.site.languages@.len(),
                i <= n,
                all == seq![self.site.lang@] + views(self.site.languages@),
                views(langs@) == dedup(all.take(i + 1)),
            decreases n - i,
        {
            let lang = &self.site.languages[i];
            assert(all.take(i + 2).drop_last() =~= all.take(i + 1));
            assert(all[i + 1] == lang@);
            if !contains_str(&langs, lang.as_str()) {
                langs.push(lang.clone());
                assert(views(langs@) =~= dedup(all.take(i + 1)).push(lang@));
            }
            i = i + 1;
        }
        proof {
            assert(all.take(n + 1) =~= all);
            lemma_dedup(all);
            assert(all[0] == self.site.lang@);
            assert forall|x: Seq<char>| #[trigger] views(langs@).contains(x) <==> (x
                == self.site.lang@ || views(self.site.languages@).contains(x)) by {
                if views(self.site.languages@).contains(x) {
                    let j = choose|j: int| 0 <= j < views(self.site.languages@).len() && views(self.site.languages@)[j] == x;
                    assert(all[j + 1] == x);
                }
                if all.contains(x) && x != self.site.lang@ {
                    let j = choose|j: int| 0 <= j < all.len() && all[j] == x;
                    assert(views(self.site.languages@)[j - 1] == x);
                }
                if x == self.site.lang@ {
                    assert(all[0] == x);
                }
            }
        }
        langs
    }

    /// The default language; missing translations fall back to it.
    pub fn default_language(&self) -> (r: &str)
        ensures
            r@ == self.site.lang@,
    {
        self.site.lang.as_str()
    }
}

// ─────────────────────────────────────────────────────────────────────────────
// Site metadata and profile
// ─────────────────────────────────────────────────────────────────────────────

pub struct Site {
    /// `<title>` and og:title.
    pub title: Text,
    pub description: Option<Text>,
    /// Deploy address; needed to make og:url / canonical absolute.
    pub base_url: Option<String>,
    /// Default language, placed at the site root (`/`).
    pub lang: String,
    /// Languages to generate. Empty means only the default language.
    pub languages: Vec<String>,
    pub og_image: Option<AssetPath>,
    pub favicon: Option<AssetPath>,
}

/// The default language when `[site]` names none.
pub fn default_lang() -> (r: String)
    ensures
        r@ == "ko"@,
{
    owned("ko")
}

pub struct Profile {
    pub name: Text,
    /// One line under the name: a job title or short intro.
    pub tagline: Option<Text>,
    /// Several lines allowed; the renderer turns line breaks into `<br>`.
    pub bio: Option<Text>,
    pub avatar: Option<AssetPath>,
    /// A short place name like "서울".
    pub location: Option<Text>,
}

// ─────────────────────────────────────────────────────────────────────────────
// Socials
// ─────────────────────────────────────────────────────────────────────────────

pub struct Social {
    pub platform: Platform,
    pub url: String,
    /// Screen-reader label; the platform's name when left out.
    pub label: Option<Text>,
    /// A supplied icon (SVG). Works for any platform and wins over the
    /// built-in glyph; required for `custom`.
    pub icon: Option<AssetPath>,
}

/// The platforms with a built-in icon.
#[derive(Clone, Copy, Debug, PartialEq, Eq, Structural)]
pub enum Platform {
    Instagram,
    Youtube,
    Threads,
    Tiktok,
    X,
    Facebook,
    Naver,
    NaverBlog,
    KakaoTalk,
    Github,
    Linkedin,
    Email,
    Rss,
    Custom,
}

impl Platform {
    pub open spec fn key_of(self) -> Seq<char> {
        match self {
            Platform::Instagram => "platform.instagram"@,
            Platform::Youtube => "platform.youtube"@,
            Platform::Threads => "platform.threads"@,
            Platform::Tiktok => "platform.tiktok"@,
            Platform::X => "platform.x"@,
            Platform::Facebook => "platform.facebook"@,
            Platform::Naver => "platform.naver"@,
            Platform::NaverBlog => "platform.naver_blog"@,
            Platform::KakaoTalk => "platform.kakao_talk"@,
            Platform::Github => "platform.github"@,
            Platform::Linkedin => "platform.linkedin"@,
            Platform::Email => "platform.email"@,
            Platform::Rss => "platform.rss"@,
            Platform::Custom => "platform.custom"@,
        }
    }

    /// The locale key of the display name; each language names platforms its own way.
    pub fn locale_key(self) -> (r: &'static str)
        ensures
            r@ == self.key_of(),
    {
        match self {
            Platform::Instagram => "platform.instagram",
            Platform::Youtube => "platform.youtube",
            Platform::Threads => "platform.threads",
            Platform::Tiktok => "platform.tiktok",
            Platform::X => "platform.x",
            Platform::Facebook => "platform.facebook",
            Platform::Naver => "platform.naver",
            Platform::NaverBlog => "platform.naver_blog",
            Platform::KakaoTalk => "platform.kakao_talk",
            Platform::Github => "platform.github",
            Platform::Linkedin => "platform.linkedin",
            Platform::Email => "platform.email",
            Platform::Rss => "platform.rss",
            Platform::Custom => "platform.custom",
        }
    }
}

// ─────────────────────────────────────────────────────────────────────────────
// Sections
// ─────────────────────────────────────────────────────────────────────────────

pub struct Section {
    /// Section title; without one only the body renders.
    pub title: Option<Text>,
    /// The emoji in front of the title.
    pub icon: Option<String>,
    /// When false the section stays in the file but leaves the screen.
    pub enabled: bool,
    pub body: SectionBody,
}

#[allow(inconsistent_fields)]
pub enum SectionBody {
    /// Free paragraphs.
    About { body: Text },
    /// Education and career entries.
    Timeline { items: Vec<TimelineItem> },
    /// A bucket list with done marks.
    Checklist { items: Vec<ChecklistItem>, show_progress: bool },
    /// Short keywords.
    Tags { items: Vec<Tag> },
    /// Link cards.
    Links { items: Vec<LinkItem> },
    /// Email, phone and other ways to reach out.
    Contact { items: Vec<ContactItem> },
}

/// The body keys each section type uses; the basis of the key lint.
pub open spec fn body_keys_of(section_type: Seq<char>) -> Seq<Seq<char>> {
    if section_type == "about"@ {
        seq!["body"@]
    } else if section_type == "timeline"@ {
        seq!["items"@]
    } else if section_type == "checklist"@ {
        seq!["items"@, "show_progress"@]
    } else if section_type == "tags"@ {
        seq!["items"@]
    } else if section_type == "links"@ {
        seq!["items"@]
    } else if section_type == "contact"@ {
        seq!["items"@]
    } else {
        seq![]
    }
}

/// The keys every section has.
pub open spec fn common_keys_of() -> Seq<Seq<char>> {
    seq!["type"@, "title"@, "icon"@, "enabled"@]
}

pub open spec fn str_views(v: Seq<&'static str>) -> Seq<Seq<char>> {
    v.map_values(|s: &'static str| s@)
}

impl SectionBody {
    /// The body keys of a section type.
    pub fn body_keys(section_type: &str) -> (r: Vec<&'static str>)
        ensures
            str_views(r@) == body_keys_of(section_type@),
    {
        let r = if str_eq(section_type, "about") {
            vec!["body"]
        } else if str_eq(section_type, "timeline") {
            vec!["items"]
        } else if str_eq(section_type, "checklist") {
            vec!["items", "show_progress"]
        } else if str_eq(section_type, "tags") {
            vec!["items"]
        } else if str_eq(section_type, "links") {
            vec!["items"]
        } else if str_eq(section_type, "contact") {
            vec!["items"]
        } else {
            Vec::new()
        };
        assert(str_views(r@) =~= body_keys_of(section_type@));
        r
    }

    /// The keys common to every section.
    pub fn common_keys() -> (r: Vec<&'static str>)
        ensures
            str_views(r@) == common_keys_of(),
    {
        let r = vec!["type", "title", "icon", "enabled"];
        assert(str_views(r@) =~= common_keys_of());
        r
    }
}

/// An interest tag: a plain (translatable) text, or one with an emoji.
pub enum Tag {
    WithIcon { icon: String, text: Text },
    Simple(Text),
}

impl Tag {
    pub fn icon(&self) -> (r: Option<&str>)
        ensures
            match self {
                Tag::WithIcon { icon, .. } => r matches Some(i) && i@ == icon@,
                Tag::Simple(_) => r is None,
            },
    {
        match self {
            Tag::WithIcon { icon, .. } => Some(icon.as_str()),
            Tag::Simple(_) => None,
        }
    }

    pub open spec fn text_of(self) -> Text {
        match self {
            Tag::WithIcon { text, .. } => text,
            Tag::Simple(text) => text,
        }
    }

    pub fn text(&self) -> (r: &Text)
        ensures
            *r == self.text_of(),
    {
        match self {
            Tag::WithIcon { text, .. } => text,
            Tag::Simple(text) => text,
        }
    }
}

/// An education or career entry.
pub struct TimelineItem {
    pub title: Text,
    /// Free-form, like "2018 – 2022"; array order is display order.
    pub period: Option<Text>,
    pub subtitle: Option<Text>,
    pub description: Option<Text>,
    /// Turns the title into a link.
    pub url: Option<String>,
    pub enabled: bool,
}

/// A bucket-list entry.
pub struct ChecklistItem {
    pub text: Text,
    pub done: bool,
    /// When it was done; free-form.
    pub date: Option<Text>,
    /// A one-line note.
    pub note: Option<Text>,
}

/// A link card.
pub struct LinkItem {
    pub title: Text,
    pub url: String,
    pub subtitle: Option<Text>,
    pub thumbnail: Option<AssetPath>,
    pub enabled: bool,
    /// A gentle wobble; respects `prefers-reduced-motion`.
    pub highlight: bool,
    /// A short badge like "NEW".
    pub badge: Option<Text>,
}

/// A way to reach out.
pub struct ContactItem {
    pub kind: ContactKind,
    /// The address, number or text; the renderer links it by kind (mailto:, tel:).
    pub value: Text,
    /// The label on screen; the kind's name when left out.
    pub label: Option<Text>,
}

#[derive(Clone, Copy, Debug, PartialEq, Eq, Structural)]
pub enum ContactKind {
    Email,
    Phone,
    Address,
    Website,
    /// Shown as text only, without a link.
    Custom,
}

impl ContactKind {
    pub open spec fn key_of(self) -> Seq<char> {
        match self {
            ContactKind::Email => "contact.email"@,
            ContactKind::Phone => "contact.phone"@,
            ContactKind::Address => "contact.address"@,
            ContactKind::Website => "contact.website"@,
            ContactKind::Custom => "contact.custom"@,
        }
    }

    pub fn locale_key(self) -> (r: &'static str)
        ensures
            r@ == self.key_of(),
    {
        match self {
            ContactKind::Email => "contact.email",
            ContactKind::Phone => "contact.phone",
            ContactKind::Address => "contact.address",
            ContactKind::Website => "contact.website",
            ContactKind::Custom => "contact.custom",
        }
    }
}

// ─────────────────────────────────────────────────────────────────────────────
// Theme — these fields map one to one onto CSS custom properties.
// ─────────────────────────────────────────────────────────────────────────────

pub struct Theme {
    pub background: Background,
    pub decoration: Option<Decoration>,
    /// The card body (the white sheet).
    pub sheet: Sheet,
    /// Link cards inside sections.
    pub card: Card,
    pub text: TextColors,
    pub font: Font,
    /// Timeline dots, progress bar, tag chips. `--pf-accent`.
    pub accent: String,
}

impl Default for Theme {
    fn default() -> (r: Theme)
        ensures
            r.background matches Background::Solid { color } && color@ == "#ffffff"@,
            r.decoration is None,
            r.sheet.background@ == "#ffffff"@ && r.sheet.radius@ == "24px"@ && r.sheet.shadow,
            r.card.background@ == "#f7fafc"@ && r.card.radius@ == "14px"@ && !r.card.shadow
                && r.card.style == CardStyle::Fill,
            r.text.heading@ == "#111111"@ && r.text.body@ == "#333333"@ && r.text.card_title@
                == "#111111"@ && r.text.muted@ == "#777777"@,
            font_is_default(r.font),
            r.accent@ == "#2f9fd0"@,
    {
        Theme {
            background: Background::default(),
            decoration: None,
            sheet: Sheet::default(),
            card: Card::default(),
            text: TextColors::default(),
            font: Font::default(),
            accent: owned("#2f9fd0"),
        }
    }
}

/// The page background. `solid`, `gradient` and `pattern` become the
/// single `--pf-background` token; `image` gets its own blurred layer.
pub enum Background {
    Solid { color: String },
    Gradient { from: String, to: String, angle: u16 },
    /// A repeating motif drawn with CSS gradients; no image file needed.
    Pattern {
        name: PatternName,
        /// The base colour under the motif.
        color: String,
        /// The motif's own colour.
        pattern_color: String,
        /// One tile of the motif, a CSS length.
        size: String,
    },
    Image {
        src: AssetPath,
        fit: ImageFit,
        /// CSS `background-position`.
        position: String,
        /// Blur radius, a CSS length; `"0px"` means no blur.
        blur: String,
        /// A translucent colour laid over the image for readability.
        overlay: Option<String>,
    },
}

impl Default for Background {
    fn default() -> (r: Background)
        ensures
            r matches Background::Solid { color } && color@ == "#ffffff"@,
    {
        Background::Solid { color: owned("#ffffff") }
    }
}

#[derive(Clone, Copy, Debug, PartialEq, Eq, Structural)]
pub enum PatternName {
    Dots,
    Grid,
    Stripes,
    Checks,
}

#[derive(Clone, Copy, Debug, PartialEq, Eq, Structural)]
pub enum ImageFit {
    /// Fill the screen, cropping what overflows.
    Cover,
    /// Show the whole image.
    Contain,
    /// Tile the image at its own size.
    Repeat,
}

impl Default for ImageFit {
    fn default() -> (r: ImageFit)
        ensures
            r == ImageFit::Cover,
    {
        ImageFit::Cover
    }
}

pub fn default_angle() -> (r: u16)
    ensures
        r == 180,
{
    180
}

pub fn default_pattern_base() -> (r: String)
    ensures
        r@ == "#ffffff"@,
{
    owned("#ffffff")
}

pub fn default_pattern_ink() -> (r: String)
    ensures
        r@ == "#e6f4fb"@,
{
    owned("#e6f4fb")
}

pub fn default_pattern_size() -> (r: String)
    ensures
        r@ == "22px"@,
{
    owned("22px")
}

pub fn default_image_position() -> (r: String)
    ensures
        r@ == "center"@,
{
    owned("center")
}

pub fn default_image_blur() -> (r: String)
    ensures
        r@ == "0px"@,
{
    owned("0px")
}

/// The confetti and sticker layer; purely decorative.
pub enum Decoration {
    /// A built-in SVG set.
    Preset { name: DecorationPreset },
    /// Own images at the top and bottom.
    Custom { top: Option<AssetPath>, bottom: Option<AssetPath> },
}

#[derive(Clone, Copy, Debug, PartialEq, Eq, Structural)]
pub enum DecorationPreset {
    Confetti,
    Sparkle,
    Bubble,
}

pub struct Sheet {
    pub background: String,
    /// A CSS length.
    pub radius: String,
    pub shadow: bool,
}

impl Default for Sheet {
    fn default() -> (r: Sheet)
        ensures
            r.background@ == "#ffffff"@ && r.radius@ == "24px"@ && r.shadow,
    {
        Sheet { background: owned("#ffffff"), radius: owned("24px"), shadow: true }
    }
}

pub struct Card {
    pub background: String,
    /// A CSS length; 999px makes a pill.
    pub radius: String,
    pub shadow: bool,
    pub style: CardStyle,
}

impl Default for Card {
    fn default() -> (r: Card)
        ensures
            r.background@ == "#f7fafc"@ && r.radius@ == "14px"@ && !r.shadow && r.style
                == CardStyle::Fill,
    {
        Card {
            background: owned("#f7fafc"),
            radius: owned("14px"),
            shadow: false,
            style: CardStyle::default(),
        }
    }
}

#[derive(Clone, Copy, Debug, PartialEq, Eq, Structural)]
pub enum CardStyle {
    /// Filled with the background colour.
    Fill,
    /// Border only.
    Outline,
    /// Translucent with blur.
    Glass,
}

impl Default for CardStyle {
    fn default() -> (r: CardStyle)
        ensures
            r == CardStyle::Fill,
    {
        CardStyle::Fill
    }
}

pub struct TextColors {
    pub heading: String,
    pub body: String,
    pub card_title: String,
    pub muted: String,
}

impl Default for TextColors {
    fn default() -> (r: TextColors)
        ensures
            r.heading@ == "#111111"@ && r.body@ == "#333333"@ && r.card_title@ == "#111111"@
                && r.muted@ == "#777777"@,
    {
        TextColors {
            heading: owned("#111111"),
            body: owned("#333333"),
            card_title: owned("#111111"),
            muted: owned("#777777"),
        }
    }
}

/// Type. Picking a preset brings its font stack and web-font stylesheet
/// along; fonts outside the list use `preset = "custom"` with `family`.
pub struct Font {
    /// Body font.
    pub preset: FontPreset,
    /// Heading font; the body font when left out.
    pub heading_preset: Option<FontPreset>,
    /// The CSS font-family stack `preset = "custom"` requires.
    pub family: Option<String>,
    /// Required by `heading_preset = "custom"`.
    pub heading_family: Option<String>,
    /// Web-font stylesheet URLs added **on top of** the presets' own.
    pub stylesheets: Vec<String>,
    pub heading_weight: u16,
    /// Base size; every other size is relative to it.
    pub base_size: String,
    /// The line height as written (`Display` of the number), e.g. `"1.6"`.
    pub line_height: String,
    /// CSS `letter-spacing`: `"normal"` or a length.
    pub letter_spacing: String,
}

pub open spec fn font_is_default(f: Font) -> bool {
    &&& f.preset == FontPreset::System
    &&& f.heading_preset is None
    &&& f.family is None
    &&& f.heading_family is None
    &&& f.stylesheets@.len() == 0
    &&& f.heading_weight == 700
    &&& f.base_size@ == "15px"@
    &&& f.line_height@ == "1.6"@
    &&& f.letter_spacing@ == "normal"@
}

impl Default for Font {
    fn default() -> (r: Font)
        ensures
            font_is_default(r),
    {
        Font {
            preset: FontPreset::default(),
            heading_preset: None,
            family: None,
            heading_family: None,
            stylesheets: Vec::new(),
            heading_weight: 700,
            base_size: owned("15px"),
            line_height: owned("1.6"),
            letter_spacing: owned("normal"),
        }
    }
}

pub open spec fn opt_str(s: Option<String>) -> Option<Seq<char>> {
    match s {
        Some(v) => Some(v@),
        None => None,
    }
}

pub open spec fn opt_static(s: Option<&'static str>) -> Option<Seq<char>> {
    match s {
        Some(v) => Some(v@),
        None => None,
    }
}

pub open spec fn opt_seq(s: Option<Seq<char>>) -> Seq<Seq<char>> {
    match s {
        Some(v) => seq![v],
        None => seq![],
    }
}

impl Font {
    pub open spec fn body_family_of(self) -> Option<Seq<char>> {
        match self.preset {
            FontPreset::Custom => opt_str(self.family),
            p => Some(p.family_of()),
        }
    }

    pub open spec fn heading_family_of(self) -> Option<Seq<char>> {
        match self.heading_preset {
            None => self.body_family_of(),
            Some(FontPreset::Custom) => opt_str(self.heading_family),
            Some(p) => Some(p.family_of()),
        }
    }

    /// The candidate stylesheet URLs, in the order they are considered.
    pub open spec fn stylesheet_candidates(self) -> Seq<Seq<char>> {
        opt_seq(self.preset.stylesheet_of()) + match self.heading_preset {
            Some(h) => opt_seq(h.stylesheet_of()),
            None => seq![],
        } + views(self.stylesheets@)
    }

    /// The value of `--pf-font-family`. `None` for `custom` without a
    /// `family`, which validation reports as an error.
    pub fn body_family(&self) -> (r: Option<&str>)
        ensures
            match r {
                Some(v) => self.body_family_of() == Some(v@),
                None => self.body_family_of() is None,
            },
    {
        match self.preset {
            FontPreset::Custom => match &self.family {
                Some(f) => Some(f.as_str()),
                None => None,
            },
            preset => Some(preset.family()),
        }
    }

    /// The value of `--pf-font-heading-family`: the body font when no
    /// heading preset is set.
    pub fn heading_family(&self) -> (r: Option<&str>)
        ensures
            match r {
                Some(v) => self.heading_family_of() == Some(v@),
                None => self.heading_family_of() is None,
            },
    {
        match self.heading_preset {
            None => self.body_family(),
            Some(FontPreset::Custom) => match &self.heading_family {
                Some(f) => Some(f.as_str()),
                None => None,
            },
            Some(preset) => Some(preset.family()),
        }
    }

    /// Web-font stylesheet URLs for `<head>`, repeats removed: body and
    /// heading often share a preset or a CDN address.
    pub fn stylesheet_urls(&self) -> (r: Vec<String>)
        ensures
            views(r@) == dedup(self.stylesheet_candidates()),
    {
        let mut cands: Vec<String> = Vec::new();
        match self.preset.stylesheet() {
            Some(u) => cands.push(owned(u)),
            None => {},
        }
        match self.heading_preset {
            Some(h) => match h.stylesheet() {
                Some(u) => cands.push(owned(u)),
                None => {},
            },
            None => {},
        }
        let n = self.stylesheets.len();
        let mut i: usize = 0;
        let ghost head = views(cands@);
        while i < n
            invariant
                n == self.stylesheets@.len(),
                i <= n,
                views(cands@) == head + views(self.stylesheets@).take(i as int),
            decreases n - i,
        {
            let ghost before = views(cands@);
            let url = self.stylesheets[i].clone();
            assert(url@ == self.stylesheets@[i as int]@);
            cands.push(url);
            assert(views(cands@) =~= before.push(self.stylesheets@[i as int]@));
            assert(views(self.stylesheets@).take(i + 1) =~= views(self.stylesheets@).take(
                i as int,
            ).push(self.stylesheets@[i as int]@));
            assert(views(cands@) =~= head + views(self.stylesheets@).take(i + 1));
            i = i + 1;
        }
        assert(views(cands@) =~= self.stylesheet_candidates());
        dedup_strings(&cands)
    }
}

/// The strings with repeats removed, first occurrences kept in order.
pub fn dedup_strings(v: &Vec<String>) -> (r: Vec<String>)
    ensures
        views(r@) == dedup(views(v@)),
{
    let mut out: Vec<String> = Vec::new();
    let n = v.len();
    let mut i: usize = 0;
    while i < n
        invariant
            n == v@.len(),
            i <= n,
            views(out@) == dedup(views(v@).take(i as int)),
        decreases n - i,
    {
        assert(views(v@).take(i + 1).drop_last() =~= views(v@).take(i as int));
        if !contains_str(&out, v[i].as_str()) {
            out.push(v[i].clone());
            assert(views(out@) =~= dedup(views(v@).take(i as int)).push(v@[i as int]@));
        }
        i = i + 1;
    }
    assert(views(v@).take(n as int) =~= views(v@));
    out
}

/// The built-in font presets.
#[derive(Clone, Copy, Debug, PartialEq, Eq, Structural)]
pub enum FontPreset {
    System,
    Pretendard,
    NotoSansKr,
    NanumGothic,
    NanumMyeongjo,
    Gaegu,
    Jua,
    IbmPlexSansKr,
    GowunDodum,
    Custom,
}

impl Default for FontPreset {
    fn default() -> (r: FontPreset)
        ensures
            r == FontPreset::System,
    {
        FontPreset::System
    }
}

impl FontPreset {
    pub open spec fn label_key_of(self) -> Seq<char> {
        match self {
            FontPreset::System => "font.system"@,
            FontPreset::Pretendard => "font.pretendard"@,
            FontPreset::NotoSansKr => "font.notoSansKr"@,
            FontPreset::NanumGothic => "font.nanumGothic"@,
            FontPreset::NanumMyeongjo => "font.nanumMyeongjo"@,
            FontPreset::Gaegu => "font.gaegu"@,
            FontPreset::Jua => "font.jua"@,
            FontPreset::IbmPlexSansKr => "font.ibmPlexSansKr"@,
            FontPreset::GowunDodum => "font.gowunDodum"@,
            FontPreset::Custom => "font.custom"@,
        }
    }

    /// The locale **key** of the name shown in the editor's dropdown.
    pub fn label_key(self) -> (r: &'static str)
        ensures
            r@ == self.label_key_of(),
    {
        match self {
            FontPreset::System => "font.system",
            FontPreset::Pretendard => "font.pretendard",
            FontPreset::NotoSansKr => "font.notoSansKr",
            FontPreset::NanumGothic => "font.nanumGothic",
            FontPreset::NanumMyeongjo => "font.nanumMyeongjo",
            FontPreset::Gaegu => "font.gaegu",
            FontPreset::Jua => "font.jua",
            FontPreset::IbmPlexSansKr => "font.ibmPlexSansKr",
            FontPreset::GowunDodum => "font.gowunDodum",
            FontPreset::Custom => "font.custom",
        }
    }

    pub open spec fn family_of(self) -> Seq<char> {
        match self {
            FontPreset::System => "-apple-system, BlinkMacSystemFont, system-ui, 'Apple SD Gothic Neo', 'Malgun Gothic', sans-serif"@,
            FontPreset::Pretendard => "'Pretendard Variable', Pretendard, -apple-system, BlinkMacSystemFont, system-ui, 'Apple SD Gothic Neo', 'Malgun Gothic', sans-serif"@,
            FontPreset::NotoSansKr => "'Noto Sans KR', -apple-system, BlinkMacSystemFont, system-ui, 'Apple SD Gothic Neo', 'Malgun Gothic', sans-serif"@,
            FontPreset::NanumGothic => "'Nanum Gothic', -apple-system, system-ui, 'Malgun Gothic', sans-serif"@,
            FontPreset::NanumMyeongjo => "'Nanum Myeongjo', 'Apple SD Gothic Neo', 'Batang', serif"@,
            FontPreset::Gaegu => "'Gaegu', 'Apple SD Gothic Neo', 'Malgun Gothic', cursive"@,
            FontPreset::Jua => "'Jua', 'Apple SD Gothic Neo', 'Malgun Gothic', sans-serif"@,
            FontPreset::IbmPlexSansKr => "'IBM Plex Sans KR', -apple-system, system-ui, 'Malgun Gothic', sans-serif"@,
            FontPreset::GowunDodum => "'Gowun Dodum', -apple-system, system-ui, 'Malgun Gothic', sans-serif"@,
            FontPreset::Custom => "-apple-system, BlinkMacSystemFont, system-ui, 'Apple SD Gothic Neo', 'Malgun Gothic', sans-serif"@,
        }
    }

    /// The CSS font-family stack, ending in the device fonts in case the web
    /// font is late or fails.
    pub fn family(self) -> (r: &'static str)
        ensures
            r@ == self.family_of(),
    {
        match self {
            FontPreset::System => "-apple-system, BlinkMacSystemFont, system-ui, 'Apple SD Gothic Neo', 'Malgun Gothic', sans-serif",
            FontPreset::Pretendard => "'Pretendard Variable', Pretendard, -apple-system, BlinkMacSystemFont, system-ui, 'Apple SD Gothic Neo', 'Malgun Gothic', sans-serif",
            FontPreset::NotoSansKr => "'Noto Sans KR', -apple-system, BlinkMacSystemFont, system-ui, 'Apple SD Gothic Neo', 'Malgun Gothic', sans-serif",
            FontPreset::NanumGothic => "'Nanum Gothic', -apple-system, system-ui, 'Malgun Gothic', sans-serif",
            FontPreset::NanumMyeongjo => "'Nanum Myeongjo', 'Apple SD Gothic Neo', 'Batang', serif",
            FontPreset::Gaegu => "'Gaegu', 'Apple SD Gothic Neo', 'Malgun Gothic', cursive",
            FontPreset::Jua => "'Jua', 'Apple SD Gothic Neo', 'Malgun Gothic', sans-serif",
            FontPreset::IbmPlexSansKr => "'IBM Plex Sans KR', -apple-system, system-ui, 'Malgun Gothic', sans-serif",
            FontPreset::GowunDodum => "'Gowun Dodum', -apple-system, system-ui, 'Malgun Gothic', sans-serif",
            FontPreset::Custom => "-apple-system, BlinkMacSystemFont, system-ui, 'Apple SD Gothic Neo', 'Malgun Gothic', sans-serif",
        }
    }

    pub open spec fn stylesheet_of(self) -> Option<Seq<char>> {
        match self {
            FontPreset::System => None,
            FontPreset::Custom => None,
            FontPreset::Pretendard => Some("https://cdn.jsdelivr.net/gh/orioncactus/pretendard@v1.3.9/dist/web/variable/pretendardvariable-dynamic-subset.min.css"@),
            FontPreset::NotoSansKr => Some("https://fonts.googleapis.com/css2?family=Noto+Sans+KR:wght@400;500;700;800&display=swap"@),
            FontPreset::NanumGothic => Some("https://fonts.googleapis.com/css2?family=Nanum+Gothic:wght@400;700;800&display=swap"@),
            FontPreset::NanumMyeongjo => Some("https://fonts.googleapis.com/css2?family=Nanum+Myeongjo:wght@400;700;800&display=swap"@),
            FontPreset::Gaegu => Some("https://fonts.googleapis.com/css2?family=Gaegu:wght@300;400;700&display=swap"@),
            FontPreset::Jua => Some("https://fonts.googleapis.com/css2?family=Jua&display=swap"@),
            FontPreset::IbmPlexSansKr => Some("https://fonts.googleapis.com/css2?family=IBM+Plex+Sans+KR:wght@400;500;600;700&display=swap"@),
            FontPreset::GowunDodum => Some("https://fonts.googleapis.com/css2?family=Gowun+Dodum&display=swap"@),
        }
    }

    /// The web-font stylesheet URL; the device font has nothing to fetch.
    pub fn stylesheet(self) -> (r: Option<&'static str>)
        ensures
            opt_static(r) == self.stylesheet_of(),
    {
        match self {
            FontPreset::System => None,
            FontPreset::Custom => None,
            FontPreset::Pretendard => Some("https://cdn.jsdelivr.net/gh/orioncactus/pretendard@v1.3.9/dist/web/variable/pretendardvariable-dynamic-subset.min.css"),
            FontPreset::NotoSansKr => Some("https://fonts.googleapis.com/css2?family=Noto+Sans+KR:wght@400;500;700;800&display=swap"),
            FontPreset::NanumGothic => Some("https://fonts.googleapis.com/css2?family=Nanum+Gothic:wght@400;700;800&display=swap"),
            FontPreset::NanumMyeongjo => Some("https://fonts.googleapis.com/css2?family=Nanum+Myeongjo:wght@400;700;800&display=swap"),
            FontPreset::Gaegu => Some("https://fonts.googleapis.com/css2?family=Gaegu:wght@300;400;700&display=swap"),
            FontPreset::Jua => Some("https://fonts.googleapis.com/css2?family=Jua&display=swap"),
            FontPreset::IbmPlexSansKr => Some("https://fonts.googleapis.com/css2?family=IBM+Plex+Sans+KR:wght@400;500;600;700&display=swap"),
            FontPreset::GowunDodum => Some("https://fonts.googleapis.com/css2?family=Gowun+Dodum&display=swap"),
        }
    }

    pub open spec fn weights_of(self) -> Seq<u16> {
        match self {
            FontPreset::Pretendard => seq![100, 200, 300, 400, 500, 600, 700, 800, 900],
            FontPreset::NotoSansKr => seq![400, 500, 700, 800],
            FontPreset::NanumGothic => seq![400, 700, 800],
            FontPreset::NanumMyeongjo => seq![400, 700, 800],
            FontPreset::Gaegu => seq![300, 400, 700],
            FontPreset::IbmPlexSansKr => seq![400, 500, 600, 700],
            FontPreset::Jua => seq![400],
            FontPreset::GowunDodum => seq![400],
            FontPreset::System => seq![],
            FontPreset::Custom => seq![],
        }
    }

    /// The weights the font really has. Asking for another makes the
    /// browser fake a bold and smear the glyphs.
    pub fn available_weights(self) -> (r: Vec<u16>)
        ensures
            r@ == self.weights_of(),
    {
        let r = match self {
            FontPreset::Pretendard => vec![100, 200, 300, 400, 500, 600, 700, 800, 900],
            FontPreset::NotoSansKr => vec![400, 500, 700, 800],
            FontPreset::NanumGothic => vec![400, 700, 800],
            FontPreset::NanumMyeongjo => vec![400, 700, 800],
            FontPreset::Gaegu => vec![300, 400, 700],
            FontPreset::IbmPlexSansKr => vec![400, 500, 600, 700],
            FontPreset::Jua => vec![400],
            FontPreset::GowunDodum => vec![400],
            FontPreset::System => Vec::new(),
            FontPreset::Custom => Vec::new(),
        };
        assert(r@ =~= self.weights_of());
        r
    }
}

// ─────────────────────────────────────────────────────────────────────────────
// Features, deploy, footer
// ─────────────────────────────────────────────────────────────────────────────

pub struct Features {
    /// The ⋮ button on link cards (copy link / share sheet).
    pub share_menu: bool,
    /// The "save contact" button that downloads a vCard.
    pub vcard_download: bool,
}

impl Default for Features {
    fn default() -> (r: Features)
        ensures
            r.share_menu && r.vcard_download,
    {
        Features { share_menu: true, vcard_download: true }
    }
}

/// GitHub Pages deployment settings. No token here: git's own credentials are used.
pub struct Deploy {
    /// The remote to push to.
    pub remote: String,
    /// The deploy branch.
    pub branch: String,
    /// A custom domain; written to `dist/CNAME` when set.
    pub cname: Option<String>,
}

impl Default for Deploy {
    fn default() -> (r: Deploy)
        ensures
            r.remote@ == "origin"@ && r.branch@ == "gh-pages"@ && r.cname is None,
    {
        Deploy { remote: owned("origin"), branch: owned("gh-pages"), cname: None }
    }
}

pub struct Footer {
    pub text: Option<Text>,
    pub show_powered_by: bool,
}

impl Default for Footer {
    fn default() -> (r: Footer)
        ensures
            r.text is None && r.show_powered_by,
    {
        Footer { text: None, show_powered_by: true }
    }
}

/// The default for boolean fields that are on unless switched off.
pub fn default_true() -> (r: bool)
    ensures
        r,
{
    true
}

} // verus!
