use webhook_composer::intent::Intent;
use webhook_composer::payload::{build, RequestPayload};
use webhook_composer::state::{
    EditState, EmbedState, FieldState, SendStatus, TransportError,
};

fn state_with_embed() -> EditState {
    let mut s = EditState::default();
    let _ = s.apply(Intent::SetHasEmbed(true));
    s
}

fn assert_embed_states_equal(a: &EmbedState, b: &EmbedState) {
    assert_eq!(a.title, b.title);
    assert_eq!(a.description, b.description);
    assert_eq!(a.fields.len(), b.fields.len());
    for (fa, fb) in a.fields.iter().zip(b.fields.iter()) {
        assert_eq!(fa.name, fb.name);
        assert_eq!(fa.value, fb.value);
        assert_eq!(fa.inline, fb.inline);
    }
    match (&a.image, &b.image) {
        (Some(ia), Some(ib)) => {
            assert_eq!(ia.url, ib.url);
            assert_eq!(ia.height, ib.height);
            assert_eq!(ia.width, ib.width);
        }
        (None, None) => {}
        _ => panic!("image presence differs"),
    }
    match (&a.thumbnail, &b.thumbnail) {
        (Some(ta), Some(tb)) => {
            assert_eq!(ta.url, tb.url);
            assert_eq!(ta.height, tb.height);
            assert_eq!(ta.width, tb.width);
        }
        (None, None) => {}
        _ => panic!("thumbnail presence differs"),
    }
    match (&a.footer, &b.footer) {
        (Some(fa), Some(fb)) => {
            assert_eq!(fa.text, fb.text);
            assert_eq!(fa.icon_url, fb.icon_url);
        }
        (None, None) => {}
        _ => panic!("footer presence differs"),
    }
}

fn assert_states_equal(a: &EditState, b: &EditState) {
    assert_eq!(a.hook_url, b.hook_url);
    assert_eq!(a.message, b.message);
    assert_eq!(a.avatar_url, b.avatar_url);
    assert_eq!(a.username, b.username);
    assert_eq!(a.has_embed, b.has_embed);
    assert_eq!(a.advanced_mode, b.advanced_mode);
    assert_eq!(a.has_footer, b.has_footer);
    assert_eq!(a.has_image, b.has_image);
    assert_eq!(a.has_thumbnail, b.has_thumbnail);
    assert_eq!(a.last_send, b.last_send);
    match (&a.embed, &b.embed) {
        (Some(ea), Some(eb)) => assert_embed_states_equal(ea, eb),
        (None, None) => {}
        _ => panic!("embed presence differs"),
    }
}

fn payload_for(s: &EditState) -> RequestPayload {
    build(s)
}

#[test]
fn scenario_plain_message() {
    let mut s = EditState::default();
    let _ = s.apply(Intent::ChangeHookUrl("https://x".to_string()));
    let _ = s.apply(Intent::ChangeMessage("hi".to_string()));
    assert!(!s.has_embed);
    let p = payload_for(&s);
    assert_eq!(p.content, "hi");
    assert_eq!(p.avatar_url, "");
    assert_eq!(p.username, "");
    assert!(p.embeds.is_empty());
}

#[test]
fn scenario_basic_embed() {
    let mut s = state_with_embed();
    let _ = s.apply(Intent::ChangeEmbedTitle("T".to_string()));
    let _ = s.apply(Intent::ChangeEmbedDescription("D".to_string()));
    assert!(!s.advanced_mode);
    let p = payload_for(&s);
    assert_eq!(p.embeds.len(), 1);
    let e = &p.embeds[0];
    assert_eq!(e.title, "T");
    assert_eq!(e.description, "D");
    assert!(e.fields.is_none());
    assert!(e.image.is_none());
    assert!(e.thumbnail.is_none());
    assert!(e.footer.is_none());
}

#[test]
fn scenario_advanced_embed_with_image() {
    let mut s = state_with_embed();
    let _ = s.apply(Intent::ChangeEmbedTitle("T".to_string()));
    let _ = s.apply(Intent::ChangeEmbedDescription("D".to_string()));
    let _ = s.apply(Intent::SetAdvancedMode(true));
    let _ = s.apply(Intent::ChangeImageUrl("http://img".to_string()));
    let p = payload_for(&s);
    assert_eq!(p.embeds.len(), 1);
    let e = &p.embeds[0];
    assert_eq!(e.title, "T");
    assert_eq!(e.description, "D");
    let img = e.image.as_ref().expect("image must be present");
    assert_eq!(img.url, "http://img");
    assert_eq!(img.height, 32);
    assert_eq!(img.width, 32);
}

#[test]
fn scenario_footer_toggle_cycle_resets_footer() {
    let mut s = state_with_embed();
    let _ = s.apply(Intent::SetHasFooter(true));
    let _ = s.apply(Intent::ChangeFooterText("keep me".to_string()));
    let _ = s.apply(Intent::SetHasFooter(false));
    let _ = s.apply(Intent::SetHasFooter(true));
    let footer = s
        .embed
        .as_ref()
        .expect("embed must exist")
        .footer
        .as_ref()
        .expect("footer must exist");
    assert_eq!(footer.text, None);
    assert_eq!(footer.icon_url, None);
}

#[test]
fn embeds_empty_iff_embed_off() {
    let mut s = EditState::default();
    assert!(payload_for(&s).embeds.is_empty());
    let _ = s.apply(Intent::SetHasEmbed(true));
    assert_eq!(payload_for(&s).embeds.len(), 1);
    let _ = s.apply(Intent::SetHasEmbed(false));
    assert!(payload_for(&s).embeds.is_empty());
}

#[test]
fn embed_toggle_cycle_resets_embed() {
    let mut s = state_with_embed();
    let _ = s.apply(Intent::ChangeEmbedTitle("edited".to_string()));
    let _ = s.apply(Intent::SetAdvancedMode(true));
    let _ = s.apply(Intent::ChangeImageUrl("http://img".to_string()));
    let _ = s.apply(Intent::SetHasEmbed(false));
    assert!(s.embed.is_none());
    let _ = s.apply(Intent::SetHasEmbed(true));
    let e = s.embed.as_ref().expect("embed must exist");
    assert_eq!(e.title, "");
    assert_eq!(e.description, "");
    assert!(e.fields.is_empty());
    assert!(e.image.is_none());
    assert!(e.thumbnail.is_none());
    assert!(e.footer.is_none());
}

#[test]
fn disabling_embed_clears_dependent_toggles() {
    let mut s = state_with_embed();
    let _ = s.apply(Intent::SetHasFooter(true));
    let _ = s.apply(Intent::SetHasImage(true));
    let _ = s.apply(Intent::SetHasThumbnail(true));
    assert!(s.has_footer && s.has_image && s.has_thumbnail);
    let _ = s.apply(Intent::SetHasEmbed(false));
    assert!(!s.has_footer);
    assert!(!s.has_image);
    assert!(!s.has_thumbnail);
}

#[test]
fn basic_mode_withholds_populated_advanced_data() {
    let mut s = state_with_embed();
    let _ = s.apply(Intent::SetAdvancedMode(true));
    let _ = s.apply(Intent::SetHasFooter(true));
    let _ = s.apply(Intent::ChangeFooterText("f".to_string()));
    let _ = s.apply(Intent::ChangeImageUrl("http://img".to_string()));
    let _ = s.apply(Intent::ChangeThumbnailUrl("http://th".to_string()));
    let _ = s.apply(Intent::SetAdvancedMode(false));
    let p = payload_for(&s);
    assert_eq!(p.embeds.len(), 1);
    let e = &p.embeds[0];
    assert!(e.fields.is_none());
    assert!(e.image.is_none());
    assert!(e.thumbnail.is_none());
    assert!(e.footer.is_none());
    // The data is withheld from the payload, not lost from the state.
    let stored = s.embed.as_ref().expect("embed must exist");
    assert!(stored.image.is_some());
    assert!(stored.thumbnail.is_some());
    assert!(stored.footer.is_some());
}

#[test]
fn gated_embed_edits_leave_state_unchanged() {
    let mut s = EditState::default();
    let _ = s.apply(Intent::ChangeMessage("m".to_string()));
    let before = s.clone();
    let _ = s.apply(Intent::ChangeEmbedTitle("t".to_string()));
    let _ = s.apply(Intent::ChangeEmbedDescription("d".to_string()));
    let _ = s.apply(Intent::ChangeImageUrl("i".to_string()));
    let _ = s.apply(Intent::ChangeThumbnailUrl("u".to_string()));
    let _ = s.apply(Intent::SetHasFooter(true));
    let _ = s.apply(Intent::ChangeFooterText("f".to_string()));
    let _ = s.apply(Intent::ChangeFooterIcon("ic".to_string()));
    assert_states_equal(&before, &s);
}

#[test]
fn gated_footer_edits_leave_state_unchanged() {
    let mut s = state_with_embed();
    assert!(!s.has_footer);
    let before = s.clone();
    let _ = s.apply(Intent::ChangeFooterText("f".to_string()));
    let _ = s.apply(Intent::ChangeFooterIcon("ic".to_string()));
    assert_states_equal(&before, &s);
}

#[test]
fn image_toggle_without_embed_is_recorded_off() {
    let mut s = EditState::default();
    let _ = s.apply(Intent::SetHasImage(true));
    assert!(!s.has_image);
    let _ = s.apply(Intent::SetHasThumbnail(true));
    assert!(!s.has_thumbnail);
}

#[test]
fn footer_reenable_keeps_existing_edits() {
    let mut s = state_with_embed();
    let _ = s.apply(Intent::SetHasFooter(true));
    let _ = s.apply(Intent::ChangeFooterText("kept".to_string()));
    // Turning the footer on while it is already on must not clobber it.
    let _ = s.apply(Intent::SetHasFooter(true));
    let footer = s
        .embed
        .as_ref()
        .expect("embed must exist")
        .footer
        .as_ref()
        .expect("footer must exist");
    assert_eq!(footer.text.as_deref(), Some("kept"));
}

#[test]
fn footer_edit_lazily_creates_absent_footer() {
    let mut s = state_with_embed();
    let _ = s.apply(Intent::SetHasFooter(true));
    // Re-enabling the embed resets its sub-state to defaults (footer gone)
    // while the footer toggle stays on.
    let _ = s.apply(Intent::SetHasEmbed(true));
    assert!(s.has_footer);
    assert!(s.embed.as_ref().expect("embed must exist").footer.is_none());
    let _ = s.apply(Intent::ChangeFooterText("lazy".to_string()));
    let footer = s
        .embed
        .as_ref()
        .expect("embed must exist")
        .footer
        .as_ref()
        .expect("footer must exist");
    assert_eq!(footer.text.as_deref(), Some("lazy"));
    assert_eq!(footer.icon_url, None);
}

#[test]
fn footer_icon_keeps_text() {
    let mut s = state_with_embed();
    let _ = s.apply(Intent::SetHasFooter(true));
    let _ = s.apply(Intent::ChangeFooterText("t".to_string()));
    let _ = s.apply(Intent::ChangeFooterIcon("http://icon".to_string()));
    let footer = s
        .embed
        .as_ref()
        .expect("embed must exist")
        .footer
        .as_ref()
        .expect("footer must exist");
    assert_eq!(footer.text.as_deref(), Some("t"));
    assert_eq!(footer.icon_url.as_deref(), Some("http://icon"));
}

#[test]
fn fields_round_trip_in_advanced_mode() {
    let mut s = state_with_embed();
    let _ = s.apply(Intent::SetAdvancedMode(true));
    s.embed.as_mut().expect("embed must exist").fields = vec![
        FieldState {
            name: "a".to_string(),
            value: "1".to_string(),
            inline: true,
        },
        FieldState {
            name: "b".to_string(),
            value: "2".to_string(),
            inline: false,
        },
    ];
    let p = payload_for(&s);
    let fields = p.embeds[0].fields.as_ref().expect("fields must be included");
    assert_eq!(fields.len(), 2);
    assert_eq!(fields[0].name, "a");
    assert_eq!(fields[0].value, "1");
    assert!(fields[0].inline);
    assert_eq!(fields[1].name, "b");
    assert_eq!(fields[1].value, "2");
    assert!(!fields[1].inline);
}

#[test]
fn send_emits_effect_and_leaves_state_unchanged() {
    let mut s = EditState::default();
    let _ = s.apply(Intent::ChangeHookUrl("https://hook".to_string()));
    let _ = s.apply(Intent::ChangeMessage("hello".to_string()));
    let before = s.clone();
    let effect = s.apply(Intent::SendNow).expect("send must request an effect");
    assert_eq!(effect.url, "https://hook");
    assert_eq!(effect.payload.content, "hello");
    assert!(effect.payload.embeds.is_empty());
    assert_states_equal(&before, &s);
}

#[test]
fn non_send_intents_emit_no_effect() {
    let mut s = EditState::default();
    assert!(s.apply(Intent::ChangeMessage("m".to_string())).is_none());
    assert!(s.apply(Intent::SetHasEmbed(true)).is_none());
    assert!(s.apply(Intent::SetAdvancedMode(true)).is_none());
    assert!(s
        .apply(Intent::SendCompleted(Ok(())))
        .is_none());
}

#[test]
fn send_outcome_is_recorded() {
    let mut s = EditState::default();
    assert_eq!(s.last_send, SendStatus::Idle);
    let _ = s.apply(Intent::SendCompleted(Ok(())));
    assert_eq!(s.last_send, SendStatus::Succeeded);
    let _ = s.apply(Intent::SendCompleted(Err(TransportError::HttpStatus)));
    assert_eq!(s.last_send, SendStatus::Failed(TransportError::HttpStatus));
}

#[test]
fn overrides_collapse_to_empty_only_in_payload() {
    let mut s = EditState::default();
    assert_eq!(s.avatar_url, None);
    assert_eq!(s.username, None);
    let _ = s.apply(Intent::ChangeAvatarUrl("https://a".to_string()));
    let _ = s.apply(Intent::ChangeUsername("bot".to_string()));
    assert_eq!(s.avatar_url.as_deref(), Some("https://a"));
    assert_eq!(s.username.as_deref(), Some("bot"));
    let p = payload_for(&s);
    assert_eq!(p.avatar_url, "https://a");
    assert_eq!(p.username, "bot");
}

#[test]
fn empty_strings_are_sent_as_is() {
    let mut s = state_with_embed();
    let _ = s.apply(Intent::ChangeEmbedTitle(String::new()));
    let _ = s.apply(Intent::ChangeEmbedDescription(String::new()));
    let p = payload_for(&s);
    assert_eq!(p.embeds.len(), 1);
    assert_eq!(p.embeds[0].title, "");
    assert_eq!(p.embeds[0].description, "");
}

#[test]
fn read_accessors_follow_state() {
    let mut s = EditState::default();
    assert_eq!(s.image_url(), "");
    assert_eq!(s.thumbnail_url(), "");
    let d = s.embed_or_default();
    assert_eq!(d.title, "");
    assert!(d.fields.is_empty());
    let f = s.footer_or_default();
    assert_eq!(f.text, None);
    assert_eq!(f.icon_url, None);

    let _ = s.apply(Intent::SetHasEmbed(true));
    let _ = s.apply(Intent::ChangeEmbedTitle("T".to_string()));
    let _ = s.apply(Intent::ChangeImageUrl("http://img".to_string()));
    let _ = s.apply(Intent::ChangeThumbnailUrl("http://th".to_string()));
    let _ = s.apply(Intent::SetHasFooter(true));
    let _ = s.apply(Intent::ChangeFooterText("ft".to_string()));
    assert_eq!(s.embed_or_default().title, "T");
    assert_eq!(s.image_url(), "http://img");
    assert_eq!(s.thumbnail_url(), "http://th");
    assert_eq!(s.footer_or_default().text.as_deref(), Some("ft"));
}

#[test]
fn default_state_is_well_formed_and_idle() {
    let s = EditState::default();
    assert_eq!(s.hook_url, "");
    assert_eq!(s.message, "");
    assert!(s.embed.is_none());
    assert!(!s.has_embed && !s.advanced_mode);
    assert!(!s.has_footer && !s.has_image && !s.has_thumbnail);
    assert_eq!(s.last_send, SendStatus::Idle);
}
