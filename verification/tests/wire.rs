use webhook_composer::intent::Intent;
use webhook_composer::payload::build;
use webhook_composer::state::{EditState, FieldState};
use webhook_composer::wire::encode_request;

fn wire_body(s: &EditState) -> String {
    encode_request(&build(s))
}

#[test]
fn wire_plain_message() {
    let mut s = EditState::default();
    let _ = s.apply(Intent::ChangeHookUrl("https://x".to_string()));
    let _ = s.apply(Intent::ChangeMessage("hi".to_string()));
    assert_eq!(
        wire_body(&s),
        r#"{"content":"hi","avatar_url":"","username":"","embeds":[]}"#
    );
}

#[test]
fn wire_basic_embed() {
    let mut s = EditState::default();
    let _ = s.apply(Intent::SetHasEmbed(true));
    let _ = s.apply(Intent::ChangeEmbedTitle("T".to_string()));
    let _ = s.apply(Intent::ChangeEmbedDescription("D".to_string()));
    assert_eq!(
        wire_body(&s),
        r#"{"content":"","avatar_url":"","username":"","embeds":[{"title":"T","type":"rich","description":"D"}]}"#
    );
}

#[test]
fn wire_basic_embed_omits_populated_advanced_data() {
    let mut s = EditState::default();
    let _ = s.apply(Intent::SetHasEmbed(true));
    let _ = s.apply(Intent::ChangeEmbedTitle("T".to_string()));
    let _ = s.apply(Intent::ChangeEmbedDescription("D".to_string()));
    let _ = s.apply(Intent::SetAdvancedMode(true));
    let _ = s.apply(Intent::ChangeImageUrl("http://img".to_string()));
    let _ = s.apply(Intent::SetHasFooter(true));
    let _ = s.apply(Intent::ChangeFooterText("f".to_string()));
    let _ = s.apply(Intent::SetAdvancedMode(false));
    assert_eq!(
        wire_body(&s),
        r#"{"content":"","avatar_url":"","username":"","embeds":[{"title":"T","type":"rich","description":"D"}]}"#
    );
}

#[test]
fn wire_advanced_embed_with_image() {
    let mut s = EditState::default();
    let _ = s.apply(Intent::ChangeMessage("m".to_string()));
    let _ = s.apply(Intent::SetHasEmbed(true));
    let _ = s.apply(Intent::ChangeEmbedTitle("T".to_string()));
    let _ = s.apply(Intent::ChangeEmbedDescription("D".to_string()));
    let _ = s.apply(Intent::SetAdvancedMode(true));
    let _ = s.apply(Intent::ChangeImageUrl("http://img".to_string()));
    assert_eq!(
        wire_body(&s),
        r#"{"content":"m","avatar_url":"","username":"","embeds":[{"title":"T","type":"rich","description":"D","fields":[],"image":{"url":"http://img","height":32,"width":32}}]}"#
    );
}

#[test]
fn wire_advanced_embed_with_thumbnail_and_footer() {
    let mut s = EditState::default();
    let _ = s.apply(Intent::SetHasEmbed(true));
    let _ = s.apply(Intent::SetAdvancedMode(true));
    let _ = s.apply(Intent::ChangeThumbnailUrl("http://th".to_string()));
    let _ = s.apply(Intent::SetHasFooter(true));
    let _ = s.apply(Intent::ChangeFooterText("ft".to_string()));
    let _ = s.apply(Intent::ChangeFooterIcon("http://icon".to_string()));
    assert_eq!(
        wire_body(&s),
        r#"{"content":"","avatar_url":"","username":"","embeds":[{"title":"","type":"rich","description":"","fields":[],"thumbnail":{"url":"http://th","height":32,"width":32},"footer":{"text":"ft","icon_url":"http://icon"}}]}"#
    );
}

#[test]
fn wire_footer_with_text_only() {
    let mut s = EditState::default();
    let _ = s.apply(Intent::SetHasEmbed(true));
    let _ = s.apply(Intent::SetAdvancedMode(true));
    let _ = s.apply(Intent::SetHasFooter(true));
    let _ = s.apply(Intent::ChangeFooterText("ft".to_string()));
    assert_eq!(
        wire_body(&s),
        r#"{"content":"","avatar_url":"","username":"","embeds":[{"title":"","type":"rich","description":"","fields":[],"footer":{"text":"ft"}}]}"#
    );
}

#[test]
fn wire_default_footer_is_an_empty_object() {
    let mut s = EditState::default();
    let _ = s.apply(Intent::SetHasEmbed(true));
    let _ = s.apply(Intent::SetAdvancedMode(true));
    let _ = s.apply(Intent::SetHasFooter(true));
    assert_eq!(
        wire_body(&s),
        r#"{"content":"","avatar_url":"","username":"","embeds":[{"title":"","type":"rich","description":"","fields":[],"footer":{}}]}"#
    );
}

#[test]
fn wire_fields_in_order_with_booleans() {
    let mut s = EditState::default();
    let _ = s.apply(Intent::SetHasEmbed(true));
    let _ = s.apply(Intent::SetAdvancedMode(true));
    s.embed.as_mut().expect("embed must exist").fields = vec![
        FieldState {
            name: "a".to_string(),
            value: "1".to_string(),
            inline: true,
        },
        FieldState {
            name: "b".to_string(),
            value: "2".to_string(),
            inline: false,
        },
    ];
    assert_eq!(
        wire_body(&s),
        r#"{"content":"","avatar_url":"","username":"","embeds":[{"title":"","type":"rich","description":"","fields":[{"name":"a","value":"1","inline":true},{"name":"b","value":"2","inline":false}]}]}"#
    );
}

#[test]
fn wire_escapes_strings() {
    let mut s = EditState::default();
    let _ = s.apply(Intent::ChangeMessage(
        "a\"b\\c\nd\re\tf\u{8}g\u{c}h\u{1}i\u{1f}j".to_string(),
    ));
    assert_eq!(
        wire_body(&s),
        r#"{"content":"a\"b\\c\nd\re\tf\bg\fh\u0001i\u001fj","avatar_url":"","username":"","embeds":[]}"#
    );
}

#[test]
fn wire_sender_overrides_are_sent() {
    let mut s = EditState::default();
    let _ = s.apply(Intent::ChangeMessage("hi".to_string()));
    let _ = s.apply(Intent::ChangeAvatarUrl("https://a".to_string()));
    let _ = s.apply(Intent::ChangeUsername("bot".to_string()));
    assert_eq!(
        wire_body(&s),
        r#"{"content":"hi","avatar_url":"https://a","username":"bot","embeds":[]}"#
    );
}
