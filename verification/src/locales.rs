//! The UI strings that ship built in.
//!
//! Every built-in language has the same keys: a key missing from one
//! language would show up on screen as the key itself. A project overrides
//! single phrases with its own `locales/<code>.json`.
//!
//! To add a language, add its column here and its code to `builtin_codes`.

use vstd::prelude::*;

use crate::strmap::StrMap;
use crate::text::{owned, str_eq};

verus! {

/// The built-in table of `lang`, if it ships one.
pub open spec fn builtin_table(lang: Seq<char>) -> Option<Map<Seq<char>, Seq<char>>> {
    if lang == "ko"@ {
        Some(ko_table())
    } else if lang == "en"@ {
        Some(en_table())
    } else if lang == "ja"@ {
        Some(ja_table())
    } else {
        None
    }
}

/// The built-in strings of `lang`.
pub fn builtin(lang: &str) -> (r: Option<StrMap>)
    ensures
        match builtin_table(lang@) {
            Some(t) => r matches Some(m) && m.map() == t,
            None => r is None,
        },
{
    if str_eq(lang, "ko") {
        Some(ko())
    } else if str_eq(lang, "en") {
        Some(en())
    } else if str_eq(lang, "ja") {
        Some(ja())
    } else {
        None
    }
}

/// The table pairing each key with the phrase at the same position; a later
/// repeat of a key would override an earlier one.
pub open spec fn table_of(keys: Seq<Seq<char>>, phrases: Seq<Seq<char>>) -> Map<Seq<char>, Seq<char>>
    decreases keys.len(),
{
    if keys.len() == 0 || phrases.len() == 0 {
        Map::empty()
    } else {
        table_of(keys.drop_last(), phrases.drop_last()).insert(keys.last(), phrases.last())
    }
}

/// A table's keys are the keys it was built from, whatever the phrases.
pub proof fn lemma_table_keys(keys: Seq<Seq<char>>, phrases: Seq<Seq<char>>)
    requires
        keys.len() == phrases.len(),
    ensures
        table_of(keys, phrases).dom() == keys.to_set(),
    decreases keys.len(),
{
    if keys.len() == 0 {
        assert(keys.to_set() =~= Set::<Seq<char>>::empty());
    } else {
        lemma_table_keys(keys.drop_last(), phrases.drop_last());
        assert(keys.to_set() =~= keys.drop_last().to_set().insert(keys.last())) by {
            assert forall|k: Seq<char>| keys.to_set().contains(k) implies keys.drop_last().to_set().insert(
                keys.last(),
            ).contains(k) by {
                let i = choose|i: int| 0 <= i < keys.len() && keys[i] == k;
                if i < keys.len() - 1 {
                    assert(keys.drop_last()[i] == k);
                }
            }
            assert forall|k: Seq<char>| keys.drop_last().to_set().insert(keys.last()).contains(k) implies keys.to_set().contains(k) by {
                if k != keys.last() {
                    let i = choose|i: int| 0 <= i < keys.drop_last().len() && keys.drop_last()[i] == k;
                    assert(keys[i] == k);
                } else {
                    assert(keys[keys.len() - 1] == k);
                }
            }
        }
    }
}

pub open spec fn views_of(v: Seq<&str>) -> Seq<Seq<char>> {
    v.map_values(|s: &str| s@)
}

/// Builds the table pairing `keys[i]` with `phrases[i]`.
fn build_table(keys: &[&str], phrases: &[&str]) -> (r: StrMap)
    requires
        keys@.len() == phrases@.len(),
    ensures
        r.map() == table_of(views_of(keys@), views_of(phrases@)),
{
    let n = keys.len();
    let mut m = StrMap::new();
    let mut i: usize = 0;
    while i < n
        invariant
            n == keys@.len() == phrases@.len(),
            i <= n,
            m.map() == table_of(views_of(keys@).take(i as int), views_of(phrases@).take(i as int)),
        decreases n - i,
    {
        m.insert(owned(keys[i]), owned(phrases[i]));
        proof {
            let ks = views_of(keys@).take(i + 1);
            let ps = views_of(phrases@).take(i + 1);
            assert(ks.drop_last() =~= views_of(keys@).take(i as int));
            assert(ps.drop_last() =~= views_of(phrases@).take(i as int));
        }
        i = i + 1;
    }
    assert(views_of(keys@).take(n as int) =~= views_of(keys@));
    assert(views_of(phrases@).take(n as int) =~= views_of(phrases@));
    m
}

/// The keys, in the order the columns follow.
pub open spec fn locale_keys_spec() -> Seq<Seq<char>> {
    seq![
        "language.name"@,
        "action.save_contact"@,
        "action.share"@,
        "aria.language_nav"@,
        "aria.share_item"@,
        "aria.social_nav"@,
        "checklist.done_prefix"@,
        "checklist.progress"@,
        "contact.address"@,
        "contact.custom"@,
        "contact.email"@,
        "contact.phone"@,
        "contact.website"@,
        "font.custom"@,
        "font.gaegu"@,
        "font.gowunDodum"@,
        "font.ibmPlexSansKr"@,
        "font.jua"@,
        "font.nanumGothic"@,
        "font.nanumMyeongjo"@,
        "font.notoSansKr"@,
        "font.pretendard"@,
        "font.system"@,
        "footer.powered_by"@,
        "platform.custom"@,
        "platform.email"@,
        "platform.facebook"@,
        "platform.github"@,
        "platform.instagram"@,
        "platform.kakao_talk"@,
        "platform.linkedin"@,
        "platform.naver"@,
        "platform.naver_blog"@,
        "platform.rss"@,
        "platform.threads"@,
        "platform.tiktok"@,
        "platform.x"@,
        "platform.youtube"@,
        "toast.copied"@,
        "toast.copy_failed"@,
        "toast.vcard_failed"@,
        "toast.vcard_saved"@,
        "app.create.cancel"@,
        "app.create.ok"@,
        "app.create.question"@,
        "app.create.title"@,
        "app.createFailed"@,
        "app.menu.docs"@,
        "app.menu.file"@,
        "app.menu.open"@,
        "app.menu.openDist"@,
        "app.menu.quit"@,
        "app.menu.reload"@,
        "app.menu.view"@,
        "app.noDist"@,
        "app.serverFailed"@,
        "cli.buildFailed"@,
        "cli.buildOk"@,
        "cli.checkOk"@,
        "cli.deployFailed"@,
        "cli.deployOk"@,
        "cli.deploySettings"@,
        "cli.deployUrl"@,
        "cli.editFailed"@,
        "cli.error"@,
        "cli.initFailed"@,
        "cli.initOk"@,
        "cli.unknownCommand"@,
        "cli.usage.build"@,
        "cli.usage.check"@,
        "cli.usage.commands"@,
        "cli.usage.default"@,
        "cli.usage.deploy"@,
        "cli.usage.edit"@,
        "cli.usage.header"@,
        "cli.usage.init"@,
        "cli.warning"@,
        "msg.about.bodyEmpty"@,
        "msg.api.badShape"@,
        "msg.api.buildFailed"@,
        "msg.api.connectFirst"@,
        "msg.api.notOpenable"@,
        "msg.api.pagesFailed"@,
        "msg.api.pickRepo"@,
        "msg.api.saveFailed"@,
        "msg.asset.missing"@,
        "msg.background.angleRange"@,
        "msg.background.patternSameColor"@,
        "msg.checklist.dateWithoutDone"@,
        "msg.checklist.noItems"@,
        "msg.checklist.textEmpty"@,
        "msg.color.empty"@,
        "msg.color.invalid"@,
        "msg.contact.badEmail"@,
        "msg.contact.badPhone"@,
        "msg.contact.noItems"@,
        "msg.contact.valueEmpty"@,
        "msg.decoration.empty"@,
        "msg.deploy.baseUrlMismatch"@,
        "msg.deploy.gitFailed"@,
        "msg.deploy.gitMissing"@,
        "msg.deploy.io"@,
        "msg.deploy.noRemote"@,
        "msg.deploy.notARepository"@,
        "msg.deploy.nothingToDeploy"@,
        "msg.deploy.step.commit"@,
        "msg.deploy.step.init"@,
        "msg.deploy.step.push"@,
        "msg.deploy.step.remote"@,
        "msg.deploy.step.stage"@,
        "msg.deploy.step.tree"@,
        "msg.deploy.step.unknown"@,
        "msg.font.customNeedsFamily"@,
        "msg.font.customNeedsHeadingFamily"@,
        "msg.font.familyEmpty"@,
        "msg.font.familyIgnored"@,
        "msg.font.headingFamilyIgnored"@,
        "msg.font.lineHeightRange"@,
        "msg.font.weightUnavailable"@,
        "msg.gh.badRepo"@,
        "msg.gh.badResponse"@,
        "msg.gh.badToken"@,
        "msg.gh.detail"@,
        "msg.gh.forbidden"@,
        "msg.gh.keyring"@,
        "msg.gh.network"@,
        "msg.gh.notFound"@,
        "msg.gh.rateLimit"@,
        "msg.gh.status"@,
        "msg.item.titleEmpty"@,
        "msg.lang.missingTranslations"@,
        "msg.lang.missingTranslationsMore"@,
        "msg.lang.notFound"@,
        "msg.length.empty"@,
        "msg.length.noUnit"@,
        "msg.length.notNumber"@,
        "msg.link.badgeTooLong"@,
        "msg.link.titleEmpty"@,
        "msg.links.noVisible"@,
        "msg.load.invalid"@,
        "msg.load.parse"@,
        "msg.load.read"@,
        "msg.profile.nameEmpty"@,
        "msg.schemaVersion"@,
        "msg.section.iconTooLong"@,
        "msg.section.unknownKey"@,
        "msg.sections.none"@,
        "msg.serve.closed"@,
        "msg.serve.notOpenable"@,
        "msg.serve.opened"@,
        "msg.serve.stop"@,
        "msg.site.noBaseUrl"@,
        "msg.site.titleEmpty"@,
        "msg.social.customNeedsIcon"@,
        "msg.tag.empty"@,
        "msg.tag.iconTooLong"@,
        "msg.tags.noItems"@,
        "msg.timeline.noItems"@,
        "msg.upload.badFormat"@,
        "msg.upload.empty"@,
        "msg.upload.noAssetsDir"@,
        "msg.upload.notAnImage"@,
        "msg.upload.saveFailed"@,
        "msg.upload.tooBig"@,
        "msg.url.empty"@,
        "msg.url.insecure"@,
        "msg.url.notAllowed"@,
    ]
}

fn locale_keys() -> (r: [&'static str; 167])
    ensures
        views_of(r@) == locale_keys_spec(),
{
    let r = [
        "language.name",
        "action.save_contact",
        "action.share",
        "aria.language_nav",
        "aria.share_item",
        "aria.social_nav",
        "checklist.done_prefix",
        "checklist.progress",
        "contact.address",
        "contact.custom",
        "contact.email",
        "contact.phone",
        "contact.website",
        "font.custom",
        "font.gaegu",
        "font.gowunDodum",
        "font.ibmPlexSansKr",
        "font.jua",
        "font.nanumGothic",
        "font.nanumMyeongjo",
        "font.notoSansKr",
        "font.pretendard",
        "font.system",
        "footer.powered_by",
        "platform.custom",
        "platform.email",
        "platform.facebook",
        "platform.github",
        "platform.instagram",
        "platform.kakao_talk",
        "platform.linkedin",
        "platform.naver",
        "platform.naver_blog",
        "platform.rss",
        "platform.threads",
        "platform.tiktok",
        "platform.x",
        "platform.youtube",
        "toast.copied",
        "toast.copy_failed",
        "toast.vcard_failed",
        "toast.vcard_saved",
        "app.create.cancel",
        "app.create.ok",
        "app.create.question",
        "app.create.title",
        "app.createFailed",
        "app.menu.docs",
        "app.menu.file",
        "app.menu.open",
        "app.menu.openDist",
        "app.menu.quit",
        "app.menu.reload",
        "app.menu.view",
        "app.noDist",
        "app.serverFailed",
        "cli.buildFailed",
        "cli.buildOk",
        "cli.checkOk",
        "cli.deployFailed",
        "cli.deployOk",
        "cli.deploySettings",
        "cli.deployUrl",
        "cli.editFailed",
        "cli.error",
        "cli.initFailed",
        "cli.initOk",
        "cli.unknownCommand",
        "cli.usage.build",
        "cli.usage.check",
        "cli.usage.commands",
        "cli.usage.default",
        "cli.usage.deploy",
        "cli.usage.edit",
        "cli.usage.header",
        "cli.usage.init",
        "cli.warning",
        "msg.about.bodyEmpty",
        "msg.api.badShape",
        "msg.api.buildFailed",
        "msg.api.connectFirst",
        "msg.api.notOpenable",
        "msg.api.pagesFailed",
        "msg.api.pickRepo",
        "msg.api.saveFailed",
        "msg.asset.missing",
        "msg.background.angleRange",
        "msg.background.patternSameColor",
        "msg.checklist.dateWithoutDone",
        "msg.checklist.noItems",
        "msg.checklist.textEmpty",
        "msg.color.empty",
        "msg.color.invalid",
        "msg.contact.badEmail",
        "msg.contact.badPhone",
        "msg.contact.noItems",
        "msg.contact.valueEmpty",
        "msg.decoration.empty",
        "msg.deploy.baseUrlMismatch",
        "msg.deploy.gitFailed",
        "msg.deploy.gitMissing",
        "msg.deploy.io",
        "msg.deploy.noRemote",
        "msg.deploy.notARepository",
        "msg.deploy.nothingToDeploy",
        "msg.deploy.step.commit",
        "msg.deploy.step.init",
        "msg.deploy.step.push",
        "msg.deploy.step.remote",
        "msg.deploy.step.stage",
        "msg.deploy.step.tree",
        "msg.deploy.step.unknown",
        "msg.font.customNeedsFamily",
        "msg.font.customNeedsHeadingFamily",
        "msg.font.familyEmpty",
        "msg.font.familyIgnored",
        "msg.font.headingFamilyIgnored",
        "msg.font.lineHeightRange",
        "msg.font.weightUnavailable",
        "msg.gh.badRepo",
        "msg.gh.badResponse",
        "msg.gh.badToken",
        "msg.gh.detail",
        "msg.gh.forbidden",
        "msg.gh.keyring",
        "msg.gh.network",
        "msg.gh.notFound",
        "msg.gh.rateLimit",
        "msg.gh.status",
        "msg.item.titleEmpty",
        "msg.lang.missingTranslations",
        "msg.lang.missingTranslationsMore",
        "msg.lang.notFound",
        "msg.length.empty",
        "msg.length.noUnit",
        "msg.length.notNumber",
        "msg.link.badgeTooLong",
        "msg.link.titleEmpty",
        "msg.links.noVisible",
        "msg.load.invalid",
        "msg.load.parse",
        "msg.load.read",
        "msg.profile.nameEmpty",
        "msg.schemaVersion",
        "msg.section.iconTooLong",
        "msg.section.unknownKey",
        "msg.sections.none",
        "msg.serve.closed",
        "msg.serve.notOpenable",
        "msg.serve.opened",
        "msg.serve.stop",
        "msg.site.noBaseUrl",
        "msg.site.titleEmpty",
        "msg.social.customNeedsIcon",
        "msg.tag.empty",
        "msg.tag.iconTooLong",
        "msg.tags.noItems",
        "msg.timeline.noItems",
        "msg.upload.badFormat",
        "msg.upload.empty",
        "msg.upload.noAssetsDir",
        "msg.upload.notAnImage",
        "msg.upload.saveFailed",
        "msg.upload.tooBig",
        "msg.url.empty",
        "msg.url.insecure",
        "msg.url.notAllowed",
    ];
    assert(views_of(r@) =~= locale_keys_spec());
    r
}

/// The Korean phrases, key by key.
pub open spec fn ko_phrases_spec() -> Seq<Seq<char>> {
    seq![
        "한국어"@,
        "연락처 저장"@,
        "공유하기"@,
        "언어 선택"@,
        "{title} 공유"@,
        "소셜 링크"@,
        "완료: "@,
        "{total}개 중 {done}개 달성"@,
        "주소"@,
        "기타"@,
        "이메일"@,
        "전화"@,
        "웹사이트"@,
        "직접 지정"@,
        "개구"@,
        "고운돋움"@,
        "IBM Plex Sans KR"@,
        "주아"@,
        "나눔고딕"@,
        "나눔명조"@,
        "Noto Sans KR"@,
        "프리텐다드"@,
        "시스템 기본"@,
        "만든 도구:"@,
        "링크"@,
        "이메일"@,
        "페이스북"@,
        "깃허브"@,
        "인스타그램"@,
        "카카오톡"@,
        "링크드인"@,
        "네이버"@,
        "네이버 블로그"@,
        "RSS"@,
        "스레드"@,
        "틱톡"@,
        "X"@,
        "유튜브"@,
        "주소를 복사했습니다."@,
        "복사하지 못했습니다."@,
        "연락처를 저장하지 못했습니다."@,
        "연락처 파일을 저장했습니다."@,
        "취소"@,
        "만들기"@,
        "{folder} 에 {file} 이 없습니다. 새로 만들까요?"@,
        "새 명함"@,
        "명함을 만들지 못했습니다: {detail}"@,
        "설정 문서"@,
        "파일"@,
        "명함 폴더 열기…"@,
        "결과 폴더 열기"@,
        "끝내기"@,
        "새로 고침"@,
        "보기"@,
        "아직 빌드한 결과가 없습니다. 먼저 사이트를 빌드하세요."@,
        "편집 서버를 시작하지 못했습니다: {detail}"@,
        "빌드하지 못했습니다: {detail}"@,
        "{dist} 에 만들었습니다 (언어 {languages}, HTML {kb}KB, 자산 {assets}개, 경고 {warnings}개)."@,
        "설정에 문제가 없습니다 (섹션 {sections}개, 소셜 {socials}개, 경고 {warnings}개)."@,
        "배포하지 못했습니다: {detail}"@,
        "{branch} 브랜치에 파일 {files}개를 올렸습니다 ({commit})."@,
        "Pages 설정: {url}"@,
        "주소: {url}"@,
        "편집기를 열지 못했습니다: {detail}"@,
        "오류"@,
        "만들지 못했습니다: {detail}"@,
        "{path} 을 만들었습니다."@,
        "알 수 없는 명령: {command}"@,
        "사이트를 dist/ 에 만듭니다"@,
        "설정을 검사합니다"@,
        "명령:"@,
        "설정 파일을 주지 않으면 {file} 을 씁니다."@,
        "빌드해서 GitHub Pages 에 올립니다"@,
        "편집 화면을 엽니다"@,
        "사용법: profileit <명령> [설정 파일]"@,
        "새 profile.toml 을 만듭니다"@,
        "경고"@,
        "소개 내용이 비어 있습니다."@,
        "설정 모양이 올바르지 않습니다: {detail}"@,
        "빌드하지 못했습니다: {detail}"@,
        "먼저 GitHub 를 연결하세요."@,
        "이 주소는 열 수 없습니다."@,
        "Pages 를 켜지 못했습니다: {detail}"@,
        "저장소를 고르거나 새 이름을 적으세요."@,
        "저장하지 못했습니다: {detail}"@,
        "파일을 찾을 수 없습니다: {path}"@,
        "각도는 0 에서 360 사이여야 합니다."@,
        "무늬 색이 바탕색과 같아 보이지 않습니다."@,
        "달성하지 않은 항목에 날짜가 있습니다."@,
        "체크리스트에 항목이 없습니다."@,
        "항목 내용이 비어 있습니다."@,
        "색상 값이 비어 있습니다."@,
        "색상 값 {value} 이 올바르지 않습니다."@,
        "이메일 주소 {value} 가 올바르지 않아 보입니다."@,
        "전화번호 {value} 가 올바르지 않아 보입니다."@,
        "연락처가 없습니다."@,
        "연락처 값이 비어 있습니다."@,
        "장식 이미지를 하나 이상 지정하세요."@,
        "base_url ({configured}) 이 실제 주소 ({actual}) 와 다릅니다. 공유 카드가 엉뚱한 곳을 가리킵니다."@,
        "git {step} 단계에서 실패했습니다: {detail}"@,
        "git 을 찾을 수 없습니다. git 을 설치하세요."@,
        "파일을 다루지 못했습니다: {detail}"@,
        "원격 저장소 {remote} 가 없습니다."@,
        "{path} 은 git 저장소가 아닙니다."@,
        "{path} 에 올릴 파일이 없습니다. 먼저 빌드하세요."@,
        "커밋"@,
        "저장소 만들기"@,
        "푸시"@,
        "원격 설정"@,
        "파일 담기"@,
        "트리 만들기"@,
        "알 수 없는 단계"@,
        "custom 글꼴은 family 를 적어야 합니다."@,
        "제목 글꼴이 custom 이면 heading_family 를 적어야 합니다."@,
        "글꼴 이름이 비어 있습니다."@,
        "family 는 custom 글꼴에서만 쓰입니다."@,
        "heading_family 는 제목 글꼴이 custom 일 때만 쓰입니다."@,
        "줄 간격 {value} 이 너무 작거나 큽니다."@,
        "{font} 에는 굵기 {weight} 가 없습니다 (있는 굵기: {weights})."@,
        "GitHub 가 보낸 저장소 정보가 불완전합니다."@,
        "GitHub 응답을 읽지 못했습니다: {detail}"@,
        "토큰이 올바르지 않거나 만료되었습니다."@,
        "GitHub: {detail}"@,
        "권한이 없습니다. 토큰에 {scopes} 권한이 있는지 확인하세요."@,
        "자격증명 저장소를 쓰지 못했습니다: {detail}"@,
        "GitHub 에 연결하지 못했습니다: {detail}"@,
        "찾을 수 없습니다."@,
        "요청이 너무 많습니다. 잠시 뒤에 다시 해 보세요."@,
        "GitHub 요청이 실패했습니다 ({status})."@,
        "항목 제목이 비어 있습니다."@,
        "{lang} 번역이 {count}개 빠져 {default} 로 보입니다 (예: {sample})."@,
        "{lang} 번역이 {count}개 빠져 {default} 로 보입니다 (예: {sample} 외 {more}곳)."@,
        "{lang} 문구가 없습니다. 내장 언어({builtin})가 아니면 locales/{lang}.json 을 만드세요."@,
        "길이 값이 비어 있습니다."@,
        "길이 {value} 에 단위가 없습니다 (예: 16px)."@,
        "길이 {value} 이 숫자가 아닙니다."@,
        "배지가 너무 깁니다."@,
        "링크 제목이 비어 있습니다."@,
        "보이는 링크가 없습니다."@,
        "오류 {count}개 때문에 멈췄습니다."@,
        "{path} 을 해석하지 못했습니다:\n{detail}"@,
        "{path} 을 읽지 못했습니다: {detail}"@,
        "이름이 비어 있습니다."@,
        "schema_version {found} 은 지원하지 않습니다 (지원: {supported})."@,
        "섹션 아이콘이 너무 깁니다."@,
        "{type} 섹션에서 쓰지 않는 키입니다."@,
        "보이는 섹션이 없습니다."@,
        "편집 서버를 닫았습니다."@,
        "브라우저를 열지 못했습니다. {url} 을 직접 여세요."@,
        "편집기: {url}"@,
        "멈추려면 Ctrl+C 를 누르세요."@,
        "base_url 이 없으면 공유 카드(og:url)가 만들어지지 않습니다."@,
        "사이트 제목이 비어 있습니다."@,
        "custom 소셜 링크에는 icon 이 필요합니다."@,
        "태그가 비어 있습니다."@,
        "태그 아이콘이 너무 깁니다."@,
        "태그가 없습니다."@,
        "경력 항목이 없습니다."@,
        "{format} 형식은 올릴 수 없습니다."@,
        "빈 파일입니다."@,
        "assets 폴더를 만들지 못했습니다: {detail}"@,
        "{format} 이미지가 아닙니다."@,
        "저장하지 못했습니다: {detail}"@,
        "파일이 너무 큽니다 ({size}MB). 8MB 까지 올릴 수 있습니다."@,
        "주소가 비어 있습니다."@,
        "http 주소입니다. 가능하면 https 를 쓰세요."@,
        "{value} 은 쓸 수 없는 주소입니다."@,
    ]
}

fn ko_phrases() -> (r: [&'static str; 167])
    ensures
        views_of(r@) == ko_phrases_spec(),
{
    let r = [
        "한국어",
        "연락처 저장",
        "공유하기",
        "언어 선택",
        "{title} 공유",
        "소셜 링크",
        "완료: ",
        "{total}개 중 {done}개 달성",
        "주소",
        "기타",
        "이메일",
        "전화",
        "웹사이트",
        "직접 지정",
        "개구",
        "고운돋움",
        "IBM Plex Sans KR",
        "주아",
        "나눔고딕",
        "나눔명조",
        "Noto Sans KR",
        "프리텐다드",
        "시스템 기본",
        "만든 도구:",
        "링크",
        "이메일",
        "페이스북",
        "깃허브",
        "인스타그램",
        "카카오톡",
        "링크드인",
        "네이버",
        "네이버 블로그",
        "RSS",
        "스레드",
        "틱톡",
        "X",
        "유튜브",
        "주소를 복사했습니다.",
        "복사하지 못했습니다.",
        "연락처를 저장하지 못했습니다.",
        "연락처 파일을 저장했습니다.",
        "취소",
        "만들기",
        "{folder} 에 {file} 이 없습니다. 새로 만들까요?",
        "새 명함",
        "명함을 만들지 못했습니다: {detail}",
        "설정 문서",
        "파일",
        "명함 폴더 열기…",
        "결과 폴더 열기",
        "끝내기",
        "새로 고침",
        "보기",
        "아직 빌드한 결과가 없습니다. 먼저 사이트를 빌드하세요.",
        "편집 서버를 시작하지 못했습니다: {detail}",
        "빌드하지 못했습니다: {detail}",
        "{dist} 에 만들었습니다 (언어 {languages}, HTML {kb}KB, 자산 {assets}개, 경고 {warnings}개).",
        "설정에 문제가 없습니다 (섹션 {sections}개, 소셜 {socials}개, 경고 {warnings}개).",
        "배포하지 못했습니다: {detail}",
        "{branch} 브랜치에 파일 {files}개를 올렸습니다 ({commit}).",
        "Pages 설정: {url}",
        "주소: {url}",
        "편집기를 열지 못했습니다: {detail}",
        "오류",
        "만들지 못했습니다: {detail}",
        "{path} 을 만들었습니다.",
        "알 수 없는 명령: {command}",
        "사이트를 dist/ 에 만듭니다",
        "설정을 검사합니다",
        "명령:",
        "설정 파일을 주지 않으면 {file} 을 씁니다.",
        "빌드해서 GitHub Pages 에 올립니다",
        "편집 화면을 엽니다",
        "사용법: profileit <명령> [설정 파일]",
        "새 profile.toml 을 만듭니다",
        "경고",
        "소개 내용이 비어 있습니다.",
        "설정 모양이 올바르지 않습니다: {detail}",
        "빌드하지 못했습니다: {detail}",
        "먼저 GitHub 를 연결하세요.",
        "이 주소는 열 수 없습니다.",
        "Pages 를 켜지 못했습니다: {detail}",
        "저장소를 고르거나 새 이름을 적으세요.",
        "저장하지 못했습니다: {detail}",
        "파일을 찾을 수 없습니다: {path}",
        "각도는 0 에서 360 사이여야 합니다.",
        "무늬 색이 바탕색과 같아 보이지 않습니다.",
        "달성하지 않은 항목에 날짜가 있습니다.",
        "체크리스트에 항목이 없습니다.",
        "항목 내용이 비어 있습니다.",
        "색상 값이 비어 있습니다.",
        "색상 값 {value} 이 올바르지 않습니다.",
        "이메일 주소 {value} 가 올바르지 않아 보입니다.",
        "전화번호 {value} 가 올바르지 않아 보입니다.",
        "연락처가 없습니다.",
        "연락처 값이 비어 있습니다.",
        "장식 이미지를 하나 이상 지정하세요.",
        "base_url ({configured}) 이 실제 주소 ({actual}) 와 다릅니다. 공유 카드가 엉뚱한 곳을 가리킵니다.",
        "git {step} 단계에서 실패했습니다: {detail}",
        "git 을 찾을 수 없습니다. git 을 설치하세요.",
        "파일을 다루지 못했습니다: {detail}",
        "원격 저장소 {remote} 가 없습니다.",
        "{path} 은 git 저장소가 아닙니다.",
        "{path} 에 올릴 파일이 없습니다. 먼저 빌드하세요.",
        "커밋",
        "저장소 만들기",
        "푸시",
        "원격 설정",
        "파일 담기",
        "트리 만들기",
        "알 수 없는 단계",
        "custom 글꼴은 family 를 적어야 합니다.",
        "제목 글꼴이 custom 이면 heading_family 를 적어야 합니다.",
        "글꼴 이름이 비어 있습니다.",
        "family 는 custom 글꼴에서만 쓰입니다.",
        "heading_family 는 제목 글꼴이 custom 일 때만 쓰입니다.",
        "줄 간격 {value} 이 너무 작거나 큽니다.",
        "{font} 에는 굵기 {weight} 가 없습니다 (있는 굵기: {weights}).",
        "GitHub 가 보낸 저장소 정보가 불완전합니다.",
        "GitHub 응답을 읽지 못했습니다: {detail}",
        "토큰이 올바르지 않거나 만료되었습니다.",
        "GitHub: {detail}",
        "권한이 없습니다. 토큰에 {scopes} 권한이 있는지 확인하세요.",
        "자격증명 저장소를 쓰지 못했습니다: {detail}",
        "GitHub 에 연결하지 못했습니다: {detail}",
        "찾을 수 없습니다.",
        "요청이 너무 많습니다. 잠시 뒤에 다시 해 보세요.",
        "GitHub 요청이 실패했습니다 ({status}).",
        "항목 제목이 비어 있습니다.",
        "{lang} 번역이 {count}개 빠져 {default} 로 보입니다 (예: {sample}).",
        "{lang} 번역이 {count}개 빠져 {default} 로 보입니다 (예: {sample} 외 {more}곳).",
        "{lang} 문구가 없습니다. 내장 언어({builtin})가 아니면 locales/{lang}.json 을 만드세요.",
        "길이 값이 비어 있습니다.",
        "길이 {value} 에 단위가 없습니다 (예: 16px).",
        "길이 {value} 이 숫자가 아닙니다.",
        "배지가 너무 깁니다.",
        "링크 제목이 비어 있습니다.",
        "보이는 링크가 없습니다.",
        "오류 {count}개 때문에 멈췄습니다.",
        "{path} 을 해석하지 못했습니다:\n{detail}",
        "{path} 을 읽지 못했습니다: {detail}",
        "이름이 비어 있습니다.",
        "schema_version {found} 은 지원하지 않습니다 (지원: {supported}).",
        "섹션 아이콘이 너무 깁니다.",
        "{type} 섹션에서 쓰지 않는 키입니다.",
        "보이는 섹션이 없습니다.",
        "편집 서버를 닫았습니다.",
        "브라우저를 열지 못했습니다. {url} 을 직접 여세요.",
        "편집기: {url}",
        "멈추려면 Ctrl+C 를 누르세요.",
        "base_url 이 없으면 공유 카드(og:url)가 만들어지지 않습니다.",
        "사이트 제목이 비어 있습니다.",
        "custom 소셜 링크에는 icon 이 필요합니다.",
        "태그가 비어 있습니다.",
        "태그 아이콘이 너무 깁니다.",
        "태그가 없습니다.",
        "경력 항목이 없습니다.",
        "{format} 형식은 올릴 수 없습니다.",
        "빈 파일입니다.",
        "assets 폴더를 만들지 못했습니다: {detail}",
        "{format} 이미지가 아닙니다.",
        "저장하지 못했습니다: {detail}",
        "파일이 너무 큽니다 ({size}MB). 8MB 까지 올릴 수 있습니다.",
        "주소가 비어 있습니다.",
        "http 주소입니다. 가능하면 https 를 쓰세요.",
        "{value} 은 쓸 수 없는 주소입니다.",
    ];
    assert(views_of(r@) =~= ko_phrases_spec());
    r
}

/// The Korean strings.
pub open spec fn ko_table() -> Map<Seq<char>, Seq<char>> {
    table_of(locale_keys_spec(), ko_phrases_spec())
}

fn ko() -> (r: StrMap)
    ensures
        r.map() == ko_table(),
{
    let keys = locale_keys();
    let phrases = ko_phrases();
    build_table(&keys, &phrases)
}

/// The English phrases, key by key.
pub open spec fn en_phrases_spec() -> Seq<Seq<char>> {
    seq![
        "English"@,
        "Save contact"@,
        "Share"@,
        "Choose language"@,
        "Share {title}"@,
        "Social links"@,
        "Done: "@,
        "{done} of {total} done"@,
        "Address"@,
        "Other"@,
        "Email"@,
        "Phone"@,
        "Website"@,
        "Custom"@,
        "Gaegu"@,
        "Gowun Dodum"@,
        "IBM Plex Sans KR"@,
        "Jua"@,
        "Nanum Gothic"@,
        "Nanum Myeongjo"@,
        "Noto Sans KR"@,
        "Pretendard"@,
        "System default"@,
        "Made with"@,
        "Link"@,
        "Email"@,
        "Facebook"@,
        "GitHub"@,
        "Instagram"@,
        "KakaoTalk"@,
        "LinkedIn"@,
        "Naver"@,
        "Naver Blog"@,
        "RSS"@,
        "Threads"@,
        "TikTok"@,
        "X"@,
        "YouTube"@,
        "Link copied."@,
        "Could not copy."@,
        "Could not save the contact."@,
        "Contact file saved."@,
        "Cancel"@,
        "Create"@,
        "{folder} has no {file}. Create one?"@,
        "New card"@,
        "Could not create the card: {detail}"@,
        "Config reference"@,
        "File"@,
        "Open card folder…"@,
        "Open output folder"@,
        "Quit"@,
        "Reload"@,
        "View"@,
        "Nothing has been built yet. Build the site first."@,
        "Could not start the editor server: {detail}"@,
        "Build failed: {detail}"@,
        "Built into {dist} (languages {languages}, HTML {kb} KB, {assets} assets, {warnings} warnings)."@,
        "The config is fine ({sections} sections, {socials} socials, {warnings} warnings)."@,
        "Deploy failed: {detail}"@,
        "Pushed {files} files to {branch} ({commit})."@,
        "Pages settings: {url}"@,
        "Address: {url}"@,
        "Could not open the editor: {detail}"@,
        "error"@,
        "Could not create it: {detail}"@,
        "Created {path}."@,
        "Unknown command: {command}"@,
        "build the site into dist/"@,
        "check the config"@,
        "Commands:"@,
        "Without a config file, {file} is used."@,
        "build and push to GitHub Pages"@,
        "open the editor"@,
        "Usage: profileit <command> [config file]"@,
        "create a new profile.toml"@,
        "warning"@,
        "The about text is empty."@,
        "The config has the wrong shape: {detail}"@,
        "Build failed: {detail}"@,
        "Connect GitHub first."@,
        "That address cannot be opened."@,
        "Could not enable Pages: {detail}"@,
        "Pick a repository or type a new name."@,
        "Could not save: {detail}"@,
        "File not found: {path}"@,
        "The angle must be between 0 and 360."@,
        "The pattern color matches the base, so it won't show."@,
        "An item that isn't done has a date."@,
        "The checklist has no items."@,
        "The item text is empty."@,
        "The color is empty."@,
        "The color value {value} is not valid."@,
        "The email address {value} doesn't look right."@,
        "The phone number {value} doesn't look right."@,
        "There are no contact rows."@,
        "The contact value is empty."@,
        "Set at least one decoration image."@,
        "base_url ({configured}) differs from the real address ({actual}); shared links will point to the wrong place."@,
        "git failed while {step}: {detail}"@,
        "git was not found. Please install git."@,
        "A file operation failed: {detail}"@,
        "There is no remote named {remote}."@,
        "{path} is not a git repository."@,
        "There is nothing to deploy in {path}. Build first."@,
        "committing"@,
        "creating the repository"@,
        "pushing"@,
        "setting the remote"@,
        "staging files"@,
        "writing the tree"@,
        "an unknown step"@,
        "The custom font needs a family."@,
        "A custom heading font needs heading_family."@,
        "The font family is empty."@,
        "family is only used with the custom font."@,
        "heading_family is only used when the heading font is custom."@,
        "The line height {value} is too small or too large."@,
        "{font} has no weight {weight} (available: {weights})."@,
        "GitHub sent incomplete repository details."@,
        "Could not read GitHub's reply: {detail}"@,
        "The token is invalid or has expired."@,
        "GitHub: {detail}"@,
        "Permission denied. Make sure the token has the {scopes} scope."@,
        "Could not use the credential store: {detail}"@,
        "Could not reach GitHub: {detail}"@,
        "Not found."@,
        "Too many requests. Try again shortly."@,
        "The GitHub request failed ({status})."@,
        "The item title is empty."@,
        "{count} texts lack a {lang} translation and show in {default} (e.g. {sample})."@,
        "{count} texts lack a {lang} translation and show in {default} (e.g. {sample}, and {more} more)."@,
        "No strings for {lang}. Unless it's built in ({builtin}), add locales/{lang}.json."@,
        "The length is empty."@,
        "The length {value} has no unit (e.g. 16px)."@,
        "The length {value} is not a number."@,
        "The badge is too long."@,
        "The link title is empty."@,
        "No link is visible."@,
        "Stopped because of {count} errors."@,
        "Could not parse {path}:\n{detail}"@,
        "Could not read {path}: {detail}"@,
        "The name is empty."@,
        "schema_version {found} is not supported (supported: {supported})."@,
        "The section icon is too long."@,
        "This key is not used by a {type} section."@,
        "No section is visible."@,
        "The editor server stopped."@,
        "Could not open a browser. Open {url} yourself."@,
        "Editor: {url}"@,
        "Press Ctrl+C to stop."@,
        "Without base_url, no share card (og:url) is made."@,
        "The site title is empty."@,
        "A custom social link needs an icon."@,
        "The tag is empty."@,
        "The tag icon is too long."@,
        "There are no tags."@,
        "The timeline has no entries."@,
        "The {format} format can't be uploaded."@,
        "The file is empty."@,
        "Could not create the assets folder: {detail}"@,
        "This is not a {format} image."@,
        "Could not save: {detail}"@,
        "The file is too big ({size} MB). The limit is 8 MB."@,
        "The address is empty."@,
        "This is an http address; use https if you can."@,
        "{value} is not an allowed address."@,
    ]
}

fn en_phrases() -> (r: [&'static str; 167])
    ensures
        views_of(r@) == en_phrases_spec(),
{
    let r = [
        "English",
        "Save contact",
        "Share",
        "Choose language",
        "Share {title}",
        "Social links",
        "Done: ",
        "{done} of {total} done",
        "Address",
        "Other",
        "Email",
        "Phone",
        "Website",
        "Custom",
        "Gaegu",
        "Gowun Dodum",
        "IBM Plex Sans KR",
        "Jua",
        "Nanum Gothic",
        "Nanum Myeongjo",
        "Noto Sans KR",
        "Pretendard",
        "System default",
        "Made with",
        "Link",
        "Email",
        "Facebook",
        "GitHub",
        "Instagram",
        "KakaoTalk",
        "LinkedIn",
        "Naver",
        "Naver Blog",
        "RSS",
        "Threads",
        "TikTok",
        "X",
        "YouTube",
        "Link copied.",
        "Could not copy.",
        "Could not save the contact.",
        "Contact file saved.",
        "Cancel",
        "Create",
        "{folder} has no {file}. Create one?",
        "New card",
        "Could not create the card: {detail}",
        "Config reference",
        "File",
        "Open card folder…",
        "Open output folder",
        "Quit",
        "Reload",
        "View",
        "Nothing has been built yet. Build the site first.",
        "Could not start the editor server: {detail}",
        "Build failed: {detail}",
        "Built into {dist} (languages {languages}, HTML {kb} KB, {assets} assets, {warnings} warnings).",
        "The config is fine ({sections} sections, {socials} socials, {warnings} warnings).",
        "Deploy failed: {detail}",
        "Pushed {files} files to {branch} ({commit}).",
        "Pages settings: {url}",
        "Address: {url}",
        "Could not open the editor: {detail}",
        "error",
        "Could not create it: {detail}",
        "Created {path}.",
        "Unknown command: {command}",
        "build the site into dist/",
        "check the config",
        "Commands:",
        "Without a config file, {file} is used.",
        "build and push to GitHub Pages",
        "open the editor",
        "Usage: profileit <command> [config file]",
        "create a new profile.toml",
        "warning",
        "The about text is empty.",
        "The config has the wrong shape: {detail}",
        "Build failed: {detail}",
        "Connect GitHub first.",
        "That address cannot be opened.",
        "Could not enable Pages: {detail}",
        "Pick a repository or type a new name.",
        "Could not save: {detail}",
        "File not found: {path}",
        "The angle must be between 0 and 360.",
        "The pattern color matches the base, so it won't show.",
        "An item that isn't done has a date.",
        "The checklist has no items.",
        "The item text is empty.",
        "The color is empty.",
        "The color value {value} is not valid.",
        "The email address {value} doesn't look right.",
        "The phone number {value} doesn't look right.",
        "There are no contact rows.",
        "The contact value is empty.",
        "Set at least one decoration image.",
        "base_url ({configured}) differs from the real address ({actual}); shared links will point to the wrong place.",
        "git failed while {step}: {detail}",
        "git was not found. Please install git.",
        "A file operation failed: {detail}",
        "There is no remote named {remote}.",
        "{path} is not a git repository.",
        "There is nothing to deploy in {path}. Build first.",
        "committing",
        "creating the repository",
        "pushing",
        "setting the remote",
        "staging files",
        "writing the tree",
        "an unknown step",
        "The custom font needs a family.",
        "A custom heading font needs heading_family.",
        "The font family is empty.",
        "family is only used with the custom font.",
        "heading_family is only used when the heading font is custom.",
        "The line height {value} is too small or too large.",
        "{font} has no weight {weight} (available: {weights}).",
        "GitHub sent incomplete repository details.",
        "Could not read GitHub's reply: {detail}",
        "The token is invalid or has expired.",
        "GitHub: {detail}",
        "Permission denied. Make sure the token has the {scopes} scope.",
        "Could not use the credential store: {detail}",
        "Could not reach GitHub: {detail}",
        "Not found.",
        "Too many requests. Try again shortly.",
        "The GitHub request failed ({status}).",
        "The item title is empty.",
        "{count} texts lack a {lang} translation and show in {default} (e.g. {sample}).",
        "{count} texts lack a {lang} translation and show in {default} (e.g. {sample}, and {more} more).",
        "No strings for {lang}. Unless it's built in ({builtin}), add locales/{lang}.json.",
        "The length is empty.",
        "The length {value} has no unit (e.g. 16px).",
        "The length {value} is not a number.",
        "The badge is too long.",
        "The link title is empty.",
        "No link is visible.",
        "Stopped because of {count} errors.",
        "Could not parse {path}:\n{detail}",
        "Could not read {path}: {detail}",
        "The name is empty.",
        "schema_version {found} is not supported (supported: {supported}).",
        "The section icon is too long.",
        "This key is not used by a {type} section.",
        "No section is visible.",
        "The editor server stopped.",
        "Could not open a browser. Open {url} yourself.",
        "Editor: {url}",
        "Press Ctrl+C to stop.",
        "Without base_url, no share card (og:url) is made.",
        "The site title is empty.",
        "A custom social link needs an icon.",
        "The tag is empty.",
        "The tag icon is too long.",
        "There are no tags.",
        "The timeline has no entries.",
        "The {format} format can't be uploaded.",
        "The file is empty.",
        "Could not create the assets folder: {detail}",
        "This is not a {format} image.",
        "Could not save: {detail}",
        "The file is too big ({size} MB). The limit is 8 MB.",
        "The address is empty.",
        "This is an http address; use https if you can.",
        "{value} is not an allowed address.",
    ];
    assert(views_of(r@) =~= en_phrases_spec());
    r
}

/// The English strings.
pub open spec fn en_table() -> Map<Seq<char>, Seq<char>> {
    table_of(locale_keys_spec(), en_phrases_spec())
}

fn en() -> (r: StrMap)
    ensures
        r.map() == en_table(),
{
    let keys = locale_keys();
    let phrases = en_phrases();
    build_table(&keys, &phrases)
}

/// The Japanese phrases, key by key.
pub open spec fn ja_phrases_spec() -> Seq<Seq<char>> {
    seq![
        "日本語"@,
        "連絡先を保存"@,
        "共有"@,
        "言語を選択"@,
        "{title} を共有"@,
        "ソーシャルリンク"@,
        "達成: "@,
        "{total} 件中 {done} 件達成"@,
        "住所"@,
        "その他"@,
        "メール"@,
        "電話"@,
        "ウェブサイト"@,
        "カスタム"@,
        "ゲグ"@,
        "コウンドドゥム"@,
        "IBM Plex Sans KR"@,
        "ジュア"@,
        "ナヌムゴシック"@,
        "ナヌム明朝"@,
        "Noto Sans KR"@,
        "プリテンダード"@,
        "システム標準"@,
        "作成ツール:"@,
        "リンク"@,
        "メール"@,
        "Facebook"@,
        "GitHub"@,
        "Instagram"@,
        "カカオトーク"@,
        "LinkedIn"@,
        "NAVER"@,
        "NAVERブログ"@,
        "RSS"@,
        "Threads"@,
        "TikTok"@,
        "X"@,
        "YouTube"@,
        "リンクをコピーしました。"@,
        "コピーできませんでした。"@,
        "連絡先を保存できませんでした。"@,
        "連絡先ファイルを保存しました。"@,
        "キャンセル"@,
        "作成"@,
        "{folder} に {file} がありません。作成しますか?"@,
        "新しい名刺"@,
        "名刺を作成できませんでした: {detail}"@,
        "設定リファレンス"@,
        "ファイル"@,
        "名刺フォルダを開く…"@,
        "出力フォルダを開く"@,
        "終了"@,
        "再読み込み"@,
        "表示"@,
        "まだビルドされていません。先にサイトをビルドしてください。"@,
        "編集サーバーを起動できませんでした: {detail}"@,
        "ビルドに失敗しました: {detail}"@,
        "{dist} に作成しました(言語 {languages}、HTML {kb}KB、アセット {assets} 件、警告 {warnings} 件)。"@,
        "設定に問題はありません(セクション {sections} 件、ソーシャル {socials} 件、警告 {warnings} 件)。"@,
        "デプロイに失敗しました: {detail}"@,
        "{branch} ブランチに {files} 件のファイルをプッシュしました({commit})。"@,
        "Pages 設定: {url}"@,
        "アドレス: {url}"@,
        "エディターを開けませんでした: {detail}"@,
        "エラー"@,
        "作成できませんでした: {detail}"@,
        "{path} を作成しました。"@,
        "不明なコマンド: {command}"@,
        "サイトを dist/ に作成します"@,
        "設定を検査します"@,
        "コマンド:"@,
        "設定ファイルを指定しない場合は {file} を使います。"@,
        "ビルドして GitHub Pages にプッシュします"@,
        "エディターを開きます"@,
        "使い方: profileit <コマンド> [設定ファイル]"@,
        "新しい profile.toml を作成します"@,
        "警告"@,
        "紹介文が空です。"@,
        "設定の形式が正しくありません: {detail}"@,
        "ビルドに失敗しました: {detail}"@,
        "先に GitHub を接続してください。"@,
        "このアドレスは開けません。"@,
        "Pages を有効にできませんでした: {detail}"@,
        "リポジトリを選ぶか、新しい名前を入力してください。"@,
        "保存できませんでした: {detail}"@,
        "ファイルが見つかりません: {path}"@,
        "角度は 0 から 360 の間にしてください。"@,
        "模様の色が下地と同じで見えません。"@,
        "未達成の項目に日付があります。"@,
        "チェックリストに項目がありません。"@,
        "項目の内容が空です。"@,
        "色の値が空です。"@,
        "色の値 {value} が正しくありません。"@,
        "メールアドレス {value} が正しくないようです。"@,
        "電話番号 {value} が正しくないようです。"@,
        "連絡先がありません。"@,
        "連絡先の値が空です。"@,
        "装飾画像を一つ以上指定してください。"@,
        "base_url ({configured}) が実際のアドレス ({actual}) と異なります。共有リンクが別の場所を指します。"@,
        "git の {step} で失敗しました: {detail}"@,
        "git が見つかりません。git をインストールしてください。"@,
        "ファイル操作に失敗しました: {detail}"@,
        "リモート {remote} がありません。"@,
        "{path} は git リポジトリではありません。"@,
        "{path} にデプロイするファイルがありません。先にビルドしてください。"@,
        "コミット"@,
        "リポジトリ作成"@,
        "プッシュ"@,
        "リモート設定"@,
        "ステージング"@,
        "ツリー作成"@,
        "不明な段階"@,
        "custom フォントには family が必要です。"@,
        "見出しフォントが custom の場合は heading_family が必要です。"@,
        "フォント名が空です。"@,
        "family は custom フォントでのみ使われます。"@,
        "heading_family は見出しフォントが custom のときだけ使われます。"@,
        "行間 {value} が小さすぎるか大きすぎます。"@,
        "{font} に太さ {weight} はありません(使える太さ: {weights})。"@,
        "GitHub から届いたリポジトリ情報が不完全です。"@,
        "GitHub の応答を読めませんでした: {detail}"@,
        "トークンが無効か期限切れです。"@,
        "GitHub: {detail}"@,
        "権限がありません。トークンに {scopes} 権限があるか確認してください。"@,
        "資格情報ストアを使えませんでした: {detail}"@,
        "GitHub に接続できませんでした: {detail}"@,
        "見つかりません。"@,
        "リクエストが多すぎます。しばらくしてから再度お試しください。"@,
        "GitHub へのリクエストが失敗しました({status})。"@,
        "項目のタイトルが空です。"@,
        "{lang} の翻訳が {count} 件なく {default} で表示されます(例: {sample})。"@,
        "{lang} の翻訳が {count} 件なく {default} で表示されます(例: {sample} ほか {more} 件)。"@,
        "{lang} の文言がありません。内蔵言語({builtin})でなければ locales/{lang}.json を作成してください。"@,
        "長さの値が空です。"@,
        "長さ {value} に単位がありません(例: 16px)。"@,
        "長さ {value} が数値ではありません。"@,
        "バッジが長すぎます。"@,
        "リンクのタイトルが空です。"@,
        "表示されるリンクがありません。"@,
        "エラー {count} 件のため中止しました。"@,
        "{path} を解析できませんでした:\n{detail}"@,
        "{path} を読めませんでした: {detail}"@,
        "名前が空です。"@,
        "schema_version {found} には対応していません(対応: {supported})。"@,
        "セクションのアイコンが長すぎます。"@,
        "{type} セクションでは使われないキーです。"@,
        "表示されるセクションがありません。"@,
        "編集サーバーを停止しました。"@,
        "ブラウザを開けませんでした。{url} を直接開いてください。"@,
        "エディター: {url}"@,
        "停止するには Ctrl+C を押してください。"@,
        "base_url がないと共有カード(og:url)が作られません。"@,
        "サイトのタイトルが空です。"@,
        "custom のソーシャルリンクには icon が必要です。"@,
        "タグが空です。"@,
        "タグのアイコンが長すぎます。"@,
        "タグがありません。"@,
        "経歴の項目がありません。"@,
        "{format} 形式はアップロードできません。"@,
        "空のファイルです。"@,
        "assets フォルダを作成できませんでした: {detail}"@,
        "{format} 画像ではありません。"@,
        "保存できませんでした: {detail}"@,
        "ファイルが大きすぎます({size}MB)。8MB まで可能です。"@,
        "アドレスが空です。"@,
        "http のアドレスです。可能なら https を使ってください。"@,
        "{value} は使えないアドレスです。"@,
    ]
}

fn ja_phrases() -> (r: [&'static str; 167])
    ensures
        views_of(r@) == ja_phrases_spec(),
{
    let r = [
        "日本語",
        "連絡先を保存",
        "共有",
        "言語を選択",
        "{title} を共有",
        "ソーシャルリンク",
        "達成: ",
        "{total} 件中 {done} 件達成",
        "住所",
        "その他",
        "メール",
        "電話",
        "ウェブサイト",
        "カスタム",
        "ゲグ",
        "コウンドドゥム",
        "IBM Plex Sans KR",
        "ジュア",
        "ナヌムゴシック",
        "ナヌム明朝",
        "Noto Sans KR",
        "プリテンダード",
        "システム標準",
        "作成ツール:",
        "リンク",
        "メール",
        "Facebook",
        "GitHub",
        "Instagram",
        "カカオトーク",
        "LinkedIn",
        "NAVER",
        "NAVERブログ",
        "RSS",
        "Threads",
        "TikTok",
        "X",
        "YouTube",
        "リンクをコピーしました。",
        "コピーできませんでした。",
        "連絡先を保存できませんでした。",
        "連絡先ファイルを保存しました。",
        "キャンセル",
        "作成",
        "{folder} に {file} がありません。作成しますか?",
        "新しい名刺",
        "名刺を作成できませんでした: {detail}",
        "設定リファレンス",
        "ファイル",
        "名刺フォルダを開く…",
        "出力フォルダを開く",
        "終了",
        "再読み込み",
        "表示",
        "まだビルドされていません。先にサイトをビルドしてください。",
        "編集サーバーを起動できませんでした: {detail}",
        "ビルドに失敗しました: {detail}",
        "{dist} に作成しました(言語 {languages}、HTML {kb}KB、アセット {assets} 件、警告 {warnings} 件)。",
        "設定に問題はありません(セクション {sections} 件、ソーシャル {socials} 件、警告 {warnings} 件)。",
        "デプロイに失敗しました: {detail}",
        "{branch} ブランチに {files} 件のファイルをプッシュしました({commit})。",
        "Pages 設定: {url}",
        "アドレス: {url}",
        "エディターを開けませんでした: {detail}",
        "エラー",
        "作成できませんでした: {detail}",
        "{path} を作成しました。",
        "不明なコマンド: {command}",
        "サイトを dist/ に作成します",
        "設定を検査します",
        "コマンド:",
        "設定ファイルを指定しない場合は {file} を使います。",
        "ビルドして GitHub Pages にプッシュします",
        "エディターを開きます",
        "使い方: profileit <コマンド> [設定ファイル]",
        "新しい profile.toml を作成します",
        "警告",
        "紹介文が空です。",
        "設定の形式が正しくありません: {detail}",
        "ビルドに失敗しました: {detail}",
        "先に GitHub を接続してください。",
        "このアドレスは開けません。",
        "Pages を有効にできませんでした: {detail}",
        "リポジトリを選ぶか、新しい名前を入力してください。",
        "保存できませんでした: {detail}",
        "ファイルが見つかりません: {path}",
        "角度は 0 から 360 の間にしてください。",
        "模様の色が下地と同じで見えません。",
        "未達成の項目に日付があります。",
        "チェックリストに項目がありません。",
        "項目の内容が空です。",
        "色の値が空です。",
        "色の値 {value} が正しくありません。",
        "メールアドレス {value} が正しくないようです。",
        "電話番号 {value} が正しくないようです。",
        "連絡先がありません。",
        "連絡先の値が空です。",
        "装飾画像を一つ以上指定してください。",
        "base_url ({configured}) が実際のアドレス ({actual}) と異なります。共有リンクが別の場所を指します。",
        "git の {step} で失敗しました: {detail}",
        "git が見つかりません。git をインストールしてください。",
        "ファイル操作に失敗しました: {detail}",
        "リモート {remote} がありません。",
        "{path} は git リポジトリではありません。",
        "{path} にデプロイするファイルがありません。先にビルドしてください。",
        "コミット",
        "リポジトリ作成",
        "プッシュ",
        "リモート設定",
        "ステージング",
        "ツリー作成",
        "不明な段階",
        "custom フォントには family が必要です。",
        "見出しフォントが custom の場合は heading_family が必要です。",
        "フォント名が空です。",
        "family は custom フォントでのみ使われます。",
        "heading_family は見出しフォントが custom のときだけ使われます。",
        "行間 {value} が小さすぎるか大きすぎます。",
        "{font} に太さ {weight} はありません(使える太さ: {weights})。",
        "GitHub から届いたリポジトリ情報が不完全です。",
        "GitHub の応答を読めませんでした: {detail}",
        "トークンが無効か期限切れです。",
        "GitHub: {detail}",
        "権限がありません。トークンに {scopes} 権限があるか確認してください。",
        "資格情報ストアを使えませんでした: {detail}",
        "GitHub に接続できませんでした: {detail}",
        "見つかりません。",
        "リクエストが多すぎます。しばらくしてから再度お試しください。",
        "GitHub へのリクエストが失敗しました({status})。",
        "項目のタイトルが空です。",
        "{lang} の翻訳が {count} 件なく {default} で表示されます(例: {sample})。",
        "{lang} の翻訳が {count} 件なく {default} で表示されます(例: {sample} ほか {more} 件)。",
        "{lang} の文言がありません。内蔵言語({builtin})でなければ locales/{lang}.json を作成してください。",
        "長さの値が空です。",
        "長さ {value} に単位がありません(例: 16px)。",
        "長さ {value} が数値ではありません。",
        "バッジが長すぎます。",
        "リンクのタイトルが空です。",
        "表示されるリンクがありません。",
        "エラー {count} 件のため中止しました。",
        "{path} を解析できませんでした:\n{detail}",
        "{path} を読めませんでした: {detail}",
        "名前が空です。",
        "schema_version {found} には対応していません(対応: {supported})。",
        "セクションのアイコンが長すぎます。",
        "{type} セクションでは使われないキーです。",
        "表示されるセクションがありません。",
        "編集サーバーを停止しました。",
        "ブラウザを開けませんでした。{url} を直接開いてください。",
        "エディター: {url}",
        "停止するには Ctrl+C を押してください。",
        "base_url がないと共有カード(og:url)が作られません。",
        "サイトのタイトルが空です。",
        "custom のソーシャルリンクには icon が必要です。",
        "タグが空です。",
        "タグのアイコンが長すぎます。",
        "タグがありません。",
        "経歴の項目がありません。",
        "{format} 形式はアップロードできません。",
        "空のファイルです。",
        "assets フォルダを作成できませんでした: {detail}",
        "{format} 画像ではありません。",
        "保存できませんでした: {detail}",
        "ファイルが大きすぎます({size}MB)。8MB まで可能です。",
        "アドレスが空です。",
        "http のアドレスです。可能なら https を使ってください。",
        "{value} は使えないアドレスです。",
    ];
    assert(views_of(r@) =~= ja_phrases_spec());
    r
}

/// The Japanese strings.
pub open spec fn ja_table() -> Map<Seq<char>, Seq<char>> {
    table_of(locale_keys_spec(), ja_phrases_spec())
}

fn ja() -> (r: StrMap)
    ensures
        r.map() == ja_table(),
{
    let keys = locale_keys();
    let phrases = ja_phrases();
    build_table(&keys, &phrases)
}

/// Every built-in language has the same keys.
pub proof fn builtin_languages_share_keys()
    ensures
        ko_table().dom() == en_table().dom(),
        ko_table().dom() == ja_table().dom(),
{
    lemma_table_keys(locale_keys_spec(), ko_phrases_spec());
    lemma_table_keys(locale_keys_spec(), en_phrases_spec());
    lemma_table_keys(locale_keys_spec(), ja_phrases_spec());
}

} // verus!
