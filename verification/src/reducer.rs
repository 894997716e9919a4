//! The reducer: applies one intent to the edit state, synchronously and
//! with no hidden state, and for exactly one intent kind requests a
//! transport call.
//!
//! Two design points the contracts pin down:
//! - Disabling the embed discards its sub-state destructively and also
//!   clears the footer/image/thumbnail toggles, whose sub-state no longer
//!   exists; re-enabling starts from defaults, losing prior edits.
//! - A transport outcome is recorded in the state's send status rather than
//!   discarded, so a failed send stays visible.

use vstd::prelude::*;

use crate::intent::Effect;
use crate::intent::EffectModel;
use crate::intent::Intent;
use crate::intent::IntentModel;
use crate::payload::build;
use crate::payload::build_model;
use crate::state::EditModel;
use crate::state::EditState;
use crate::state::EmbedModel;
use crate::state::EmbedState;
use crate::state::FooterModel;
use crate::state::FooterState;
use crate::state::ImageModel;
use crate::state::ImageState;
use crate::state::MEDIA_DIM;
use crate::state::SendStatus;
use crate::state::ThumbnailModel;
use crate::state::ThumbnailState;
use crate::state::default_embed_model;
use crate::state::default_footer_model;

verus! {

/// The state after applying one intent, as a mathematical function.
///
/// This is the reducer's whole behavior except the effect: direct field
/// assignments always apply; embed-dependent edits are ignored while their
/// gate is off; turning a toggle on (re)creates the dependent sub-state
/// with default values and turning it off discards that sub-state.
pub open spec fn apply_model(s: EditModel, i: IntentModel) -> EditModel {
    match i {
        IntentModel::ChangeHookUrl(u) => EditModel { hook_url: u, ..s },
        IntentModel::ChangeMessage(m) => EditModel { message: m, ..s },
        IntentModel::ChangeAvatarUrl(u) => EditModel { avatar_url: Some(u), ..s },
        IntentModel::ChangeUsername(u) => EditModel { username: Some(u), ..s },
        IntentModel::SetHasEmbed(b) => if b {
            EditModel { has_embed: true, embed: Some(default_embed_model()), ..s }
        } else {
            EditModel {
                has_embed: false,
                embed: None,
                has_footer: false,
                has_image: false,
                has_thumbnail: false,
                ..s
            }
        },
        IntentModel::ChangeEmbedTitle(t) => match s.embed {
            Some(e) => EditModel { embed: Some(EmbedModel { title: t, ..e }), ..s },
            None => s,
        },
        IntentModel::ChangeEmbedDescription(d) => match s.embed {
            Some(e) => EditModel { embed: Some(EmbedModel { description: d, ..e }), ..s },
            None => s,
        },
        IntentModel::SetAdvancedMode(b) => EditModel { advanced_mode: b, ..s },
        IntentModel::SetHasFooter(b) => match s.embed {
            Some(e) => EditModel {
                has_footer: b,
                embed: Some(
                    EmbedModel {
                        footer: if b {
                            if e.footer is Some {
                                e.footer
                            } else {
                                Some(default_footer_model())
                            }
                        } else {
                            None
                        },
                        ..e
                    },
                ),
                ..s
            },
            None => s,
        },
        IntentModel::ChangeFooterText(t) => match s.embed {
            Some(e) => if s.has_footer {
                EditModel {
                    embed: Some(
                        EmbedModel {
                            footer: Some(
                                FooterModel {
                                    text: Some(t),
                                    icon_url: match e.footer {
                                        Some(f) => f.icon_url,
                                        None => None,
                                    },
                                },
                            ),
                            ..e
                        },
                    ),
                    ..s
                }
            } else {
                s
            },
            None => s,
        },
        IntentModel::ChangeFooterIcon(u) => match s.embed {
            Some(e) => if s.has_footer {
                EditModel {
                    embed: Some(
                        EmbedModel {
                            footer: Some(
                                FooterModel {
                                    text: match e.footer {
                                        Some(f) => f.text,
                                        None => None,
                                    },
                                    icon_url: Some(u),
                                },
                            ),
                            ..e
                        },
                    ),
                    ..s
                }
            } else {
                s
            },
            None => s,
        },
        IntentModel::SetHasImage(b) => EditModel { has_image: b && s.has_embed, ..s },
        IntentModel::ChangeImageUrl(u) => match s.embed {
            Some(e) => EditModel {
                embed: Some(
                    EmbedModel {
                        image: Some(ImageModel { url: u, height: MEDIA_DIM, width: MEDIA_DIM }),
                        ..e
                    },
                ),
                ..s
            },
            None => s,
        },
        IntentModel::SetHasThumbnail(b) => EditModel { has_thumbnail: b && s.has_embed, ..s },
        IntentModel::ChangeThumbnailUrl(u) => match s.embed {
            Some(e) => EditModel {
                embed: Some(
                    EmbedModel {
                        thumbnail: Some(
                            ThumbnailModel { url: u, height: MEDIA_DIM, width: MEDIA_DIM },
                        ),
                        ..e
                    },
                ),
                ..s
            },
            None => s,
        },
        IntentModel::SendNow => s,
        IntentModel::SendCompleted(outcome) => EditModel {
            last_send: match outcome {
                Ok(_) => SendStatus::Succeeded,
                Err(e) => SendStatus::Failed(e),
            },
            ..s
        },
    }
}

impl EditState {
    /// Applies one intent to this state and returns the effect the step
    /// requests, if any.
    ///
    /// The new state is exactly [`apply_model`] of the old state and the
    /// intent. An effect is requested exactly for the send intent, and it
    /// carries the current webhook URL and the payload derived from the
    /// state at this moment.
    pub fn apply(&mut self, intent: Intent) -> (effect: Option<Effect>)
        ensures
            final(self)@ == apply_model(old(self)@, intent@),
            effect is Some <==> intent@ is SendNow,
            effect is Some ==> effect->Some_0@ == (EffectModel {
                url: old(self)@.hook_url,
                payload: build_model(old(self)@),
            }),
    {
        match intent {
            Intent::ChangeHookUrl(u) => {
                self.hook_url = u;
                None
            },
            Intent::ChangeMessage(m) => {
                self.message = m;
                None
            },
            Intent::ChangeAvatarUrl(u) => {
                self.avatar_url = Some(u);
                None
            },
            Intent::ChangeUsername(u) => {
                self.username = Some(u);
                None
            },
            Intent::SetHasEmbed(b) => {
                self.has_embed = b;
                if b {
                    self.embed = Some(EmbedState::default());
                } else {
                    self.embed = None;
                    self.has_footer = false;
                    self.has_image = false;
                    self.has_thumbnail = false;
                }
                None
            },
            Intent::ChangeEmbedTitle(t) => {
                match &mut self.embed {
                    Some(e) => {
                        e.title = t;
                    },
                    None => {},
                }
                None
            },
            Intent::ChangeEmbedDescription(d) => {
                match &mut self.embed {
                    Some(e) => {
                        e.description = d;
                    },
                    None => {},
                }
                None
            },
            Intent::SetAdvancedMode(b) => {
                self.advanced_mode = b;
                None
            },
            Intent::SetHasFooter(b) => {
                match &mut self.embed {
                    Some(e) => {
                        self.has_footer = b;
                        if b {
                            match &e.footer {
                                Some(_) => {},
                                None => {
                                    e.footer = Some(FooterState::default());
                                },
                            }
                        } else {
                            e.footer = None;
                        }
                    },
                    None => {},
                }
                None
            },
            Intent::ChangeFooterText(t) => {
                if self.has_footer {
                    match &mut self.embed {
                        Some(e) => {
                            match &mut e.footer {
                                Some(f) => {
                                    f.text = Some(t);
                                },
                                None => {
                                    e.footer = Some(
                                        FooterState { text: Some(t), icon_url: None },
                                    );
                                },
                            }
                        },
                        None => {},
                    }
                }
                None
            },
            Intent::ChangeFooterIcon(u) => {
                if self.has_footer {
                    match &mut self.embed {
                        Some(e) => {
                            match &mut e.footer {
                                Some(f) => {
                                    f.icon_url = Some(u);
                                },
                                None => {
                                    e.footer = Some(
                                        FooterState { text: None, icon_url: Some(u) },
                                    );
                                },
                            }
                        },
                        None => {},
                    }
                }
                None
            },
            Intent::SetHasImage(b) => {
                self.has_image = b && self.has_embed;
                None
            },
            Intent::ChangeImageUrl(u) => {
                match &mut self.embed {
                    Some(e) => {
                        e.image = Some(ImageState::with_url(u));
                    },
                    None => {},
                }
                None
            },
            Intent::SetHasThumbnail(b) => {
                self.has_thumbnail = b && self.has_embed;
                None
            },
            Intent::ChangeThumbnailUrl(u) => {
                match &mut self.embed {
                    Some(e) => {
                        e.thumbnail = Some(ThumbnailState::with_url(u));
                    },
                    None => {},
                }
                None
            },
            Intent::SendNow => {
                let payload = build(self);
                Some(Effect { url: self.hook_url.clone(), payload })
            },
            Intent::SendCompleted(outcome) => {
                self.last_send = match outcome {
                    Ok(_) => SendStatus::Succeeded,
                    Err(e) => SendStatus::Failed(e),
                };
                None
            },
        }
    }
}

} // verus!
