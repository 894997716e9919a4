//! The wire-format request payload and its pure derivation from a state
//! snapshot.
//!
//! [`build`] is total: absent optional strings substitute the empty string,
//! and an absent embed sub-state substitutes the default embed, so it never
//! fails. On the wire the single embed additionally carries a constant
//! `"type": "rich"` tag; that tag is fixed at serialization time and is not
//! part of this data.

use vstd::prelude::*;

use crate::state::EditModel;
use crate::state::EditState;
use crate::state::EmbedModel;
use crate::state::FieldModel;
use crate::state::FieldState;
use crate::state::FooterModel;
use crate::state::FooterState;
use crate::state::ImageModel;
use crate::state::ImageState;
use crate::state::ThumbnailModel;
use crate::state::ThumbnailState;
use crate::state::embed_or_default_model;
use crate::state::fields_model;
use crate::state::footer_opt_model;
use crate::state::image_opt_model;
use crate::state::opt_string_model;
use crate::state::thumbnail_opt_model;

verus! {

// ---------------------------------------------------------------------------
// Payload types and their models.
// ---------------------------------------------------------------------------

/// Model of the one embed object of a payload. `fields` is `None` when the
/// field list is omitted from the wire form entirely, and `Some` (possibly
/// empty) when it is included.
#[verifier::ext_equal]
pub ghost struct EmbedPayloadModel {
    pub title: Seq<char>,
    pub description: Seq<char>,
    pub fields: Option<Seq<FieldModel>>,
    pub image: Option<ImageModel>,
    pub thumbnail: Option<ThumbnailModel>,
    pub footer: Option<FooterModel>,
}

/// Model of a whole request payload.
#[verifier::ext_equal]
pub ghost struct RequestPayloadModel {
    pub content: Seq<char>,
    pub avatar_url: Seq<char>,
    pub username: Seq<char>,
    pub embeds: Seq<EmbedPayloadModel>,
}

/// The embed object of a payload. `fields`, `image`, `thumbnail` and
/// `footer` are populated only when the state was built in advanced mode;
/// otherwise they are absent and omitted from the wire form (`fields` as a
/// whole, unlike the other three, is included even when empty).
pub struct EmbedPayload {
    pub title: String,
    pub description: String,
    pub fields: Option<Vec<FieldState>>,
    pub image: Option<ImageState>,
    pub thumbnail: Option<ThumbnailState>,
    pub footer: Option<FooterState>,
}

/// The request payload handed to the transport: the message content, the
/// sender overrides (empty when unset), and zero or one embed.
pub struct RequestPayload {
    pub content: String,
    pub avatar_url: String,
    pub username: String,
    pub embeds: Vec<EmbedPayload>,
}

/// The model of an optional field list.
pub open spec fn fields_opt_model(o: Option<Vec<FieldState>>) -> Option<Seq<FieldModel>> {
    match o {
        Some(v) => Some(fields_model(v@)),
        None => None,
    }
}

impl View for EmbedPayload {
    type V = EmbedPayloadModel;

    open spec fn view(&self) -> EmbedPayloadModel {
        EmbedPayloadModel {
            title: self.title@,
            description: self.description@,
            fields: fields_opt_model(self.fields),
            image: image_opt_model(self.image),
            thumbnail: thumbnail_opt_model(self.thumbnail),
            footer: footer_opt_model(self.footer),
        }
    }
}

/// The model of an embed payload sequence, element by element.
pub open spec fn embeds_model(v: Seq<EmbedPayload>) -> Seq<EmbedPayloadModel> {
    v.map_values(|e: EmbedPayload| e@)
}

impl View for RequestPayload {
    type V = RequestPayloadModel;

    open spec fn view(&self) -> RequestPayloadModel {
        RequestPayloadModel {
            content: self.content@,
            avatar_url: self.avatar_url@,
            username: self.username@,
            embeds: embeds_model(self.embeds@),
        }
    }
}

// ---------------------------------------------------------------------------
// Derivation.
// ---------------------------------------------------------------------------

/// An optional string collapsed to its default: the characters if set, and
/// the empty string otherwise.
pub open spec fn text_or_empty(o: Option<Seq<char>>) -> Seq<char> {
    match o {
        Some(s) => s,
        None => Seq::empty(),
    }
}

/// The embed object derived from an embed sub-state: title and description
/// are always included; fields, image, thumbnail and footer are included
/// exactly in advanced mode, and withheld otherwise.
pub open spec fn embed_payload_model(e: EmbedModel, advanced: bool) -> EmbedPayloadModel {
    EmbedPayloadModel {
        title: e.title,
        description: e.description,
        fields: if advanced {
            Some(e.fields)
        } else {
            None
        },
        image: if advanced {
            e.image
        } else {
            None
        },
        thumbnail: if advanced {
            e.thumbnail
        } else {
            None
        },
        footer: if advanced {
            e.footer
        } else {
            None
        },
    }
}

/// The payload derived from an edit state: the message verbatim, the sender
/// overrides collapsed to empty strings, and no embed at all unless the
/// embed toggle is on — in which case exactly one embed, derived from the
/// stored embed sub-state (or the default embed if it is somehow absent).
pub open spec fn build_model(s: EditModel) -> RequestPayloadModel {
    RequestPayloadModel {
        content: s.message,
        avatar_url: text_or_empty(s.avatar_url),
        username: text_or_empty(s.username),
        embeds: if s.has_embed {
            seq![embed_payload_model(embed_or_default_model(s), s.advanced_mode)]
        } else {
            Seq::empty()
        },
    }
}

/// Collapses an optional string to an owned string, substituting "".
fn string_or_empty(o: &Option<String>) -> (r: String)
    ensures
        r@ == text_or_empty(opt_string_model(*o)),
{
    match o {
        Some(s) => s.clone(),
        None => String::new(),
    }
}

/// Derives the request payload from a snapshot of the edit state.
///
/// Total: it never fails and accepts every state. The payload holds no
/// embed exactly when the embed toggle is off.
pub fn build(state: &EditState) -> (p: RequestPayload)
    ensures
        p@ == build_model(state@),
        p@.embeds.len() == 0 <==> !state@.has_embed,
{
    let content = state.message.clone();
    let avatar_url = string_or_empty(&state.avatar_url);
    let username = string_or_empty(&state.username);
    let embeds: Vec<EmbedPayload> = if state.has_embed {
        let e = state.embed_or_default();
        let embed_payload = EmbedPayload {
            title: e.title,
            description: e.description,
            fields: if state.advanced_mode {
                Some(e.fields)
            } else {
                None
            },
            image: if state.advanced_mode {
                e.image
            } else {
                None
            },
            thumbnail: if state.advanced_mode {
                e.thumbnail
            } else {
                None
            },
            footer: if state.advanced_mode {
                e.footer
            } else {
                None
            },
        };
        let mut v: Vec<EmbedPayload> = Vec::new();
        v.push(embed_payload);
        v
    } else {
        Vec::new()
    };
    let p = RequestPayload { content, avatar_url, username, embeds };
    proof {
        assert(p@.embeds =~= build_model(state@).embeds);
        assert(p@ =~= build_model(state@));
    }
    p
}

} // verus!
