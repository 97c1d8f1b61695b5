//! Creating a new profile.
//!
//! This has to work from an empty folder — "New card" in the desktop app
//! comes here. A minimal config is written rather than a full example, so
//! someone opening it for the first time sees at a glance what to fill in.

use vstd::prelude::*;

use crate::paths::{opt_chars, parent_of, path_parent, plain_path, rooted_parent, rooted_path};
use crate::text::{concat, owned};

verus! {

/// The config a new card starts from. It passes validation as it is: a
/// freshly created card that errors right away would stop a first-time user
/// before they start.
pub const STARTER: &'static str = r##"# ProfileIT 프로필 설정 — 온라인 명함
#
# `cargo run -- edit` 로 편집 UI 를 열거나 이 파일을 직접 고치면 됩니다.
# 필드 목록은 docs/schema.md 를 보세요.

schema_version = 1

[site]
title = "내 온라인 명함"
# 배포 주소. 공유 카드(og:url)를 만들려면 필요합니다.
# base_url = "https://example.github.io/card"
lang = "ko"

[profile]
name = "이름"
tagline = "한 줄 소개"
# location = "서울"
# avatar = "assets/avatar.jpg"

# ── 섹션 ──────────────────────────────────────────────────────
# 배열 순서가 화면 순서입니다. 빼고 싶으면 지우지 말고 enabled = false.

[[sections]]
type = "about"
title = "소개"
icon = "👋"
body = """
여기에 자기소개를 적습니다.

빈 줄로 문단을 나눕니다.
"""

[[sections]]
type = "timeline"
title = "경력"
icon = "💼"

[[sections.items]]
period = "2024 – 현재"
title = "회사 이름"
subtitle = "맡은 일"

[[sections]]
type = "tags"
title = "관심사"
icon = "🧩"
items = ["관심사", { icon = "🍳", text = "이모지도 됩니다" }]

[[sections]]
type = "contact"
title = "연락처"
icon = "📮"

[[sections.items]]
kind = "email"
value = "me@example.com"

# ── 테마 ──────────────────────────────────────────────────────
[theme]
accent = "#2f9fd0"

[theme.background]
type = "gradient"
from = "#dff2fb"
to = "#bfe6f7"
angle = 165

[theme.decoration]
type = "preset"
name = "confetti"

[theme.text]
heading = "#14425c"
body = "#3c5a6b"
card_title = "#1a6f96"
muted = "#7b96a5"

[theme.font]
preset = "pretendard"
heading_weight = 800

# ── GitHub Pages 배포 ─────────────────────────────────────────
# `profileit deploy` 또는 편집기의 "GitHub 배포" 버튼이 dist/ 를
# 아래 브랜치로 올립니다. git 자격증명을 그대로 쓰므로 토큰은
# 필요 없습니다.
[deploy]
remote = "origin"
branch = "gh-pages"
"##;

/// What creating a card at a path comes to: the folder to create first (if
/// the path names one), and the file's contents.
pub struct InitSteps {
    pub make_dir: Option<String>,
    pub contents: &'static str,
}

/// Creating `profile.toml` at `path`. An existing file is **never
/// overwritten** — accidentally wiping someone's content is far worse than
/// having to start from an empty folder.
pub fn init_steps(path: &str, exists: bool) -> (r: Result<InitSteps, String>)
    ensures
        exists ==> (r matches Err(m) && m@ == path@ + " 이 이미 있습니다."@),
        !exists ==> (r matches Ok(s) && s.contents@ == STARTER@ && (s.make_dir matches Some(d)
            ==> d@.len() > 0)),
        !exists && plain_path(path@) ==> (r matches Ok(s) && opt_chars(s.make_dir) == if parent_of(
            path@,
        ).len() > 0 {
            Some(parent_of(path@))
        } else {
            None
        }),
        !exists && rooted_path(path@) ==> (r matches Ok(s) && opt_chars(s.make_dir) == Some(
            rooted_parent(path@),
        )),
{
    proof {
        reveal_strlit("/");
        crate::paths::lemma_last_index_of(path@, '/');
    }
    if exists {
        return Err(concat(path, " 이 이미 있습니다."));
    }
    let make_dir = match path_parent(path) {
        Some(p) => if p.as_str().is_empty() {
            None
        } else {
            Some(p)
        },
        None => None,
    };
    Ok(InitSteps { make_dir, contents: STARTER })
}

} // verus!
