//! The discrete intents a user or the system can issue against the edit
//! state, and the effect a reducer step can request.

use vstd::prelude::*;

use crate::payload::RequestPayload;
use crate::payload::RequestPayloadModel;
use crate::state::TransportError;

verus! {

/// One discrete action applied to the edit state by the reducer.
pub enum Intent {
    /// Replace the webhook URL.
    ChangeHookUrl(String),
    /// Replace the message content.
    ChangeMessage(String),
    /// Replace the avatar override.
    ChangeAvatarUrl(String),
    /// Replace the username override.
    ChangeUsername(String),
    /// Turn the embed on (re-initializing it to defaults) or off
    /// (discarding it and clearing the dependent toggles).
    SetHasEmbed(bool),
    /// Replace the embed title; ignored while no embed exists.
    ChangeEmbedTitle(String),
    /// Replace the embed description; ignored while no embed exists.
    ChangeEmbedDescription(String),
    /// Set the advanced-mode gate; touches nothing else.
    SetAdvancedMode(bool),
    /// Turn the footer on or off; ignored while no embed exists.
    SetHasFooter(bool),
    /// Replace the footer text; ignored unless an embed exists and the
    /// footer toggle is on.
    ChangeFooterText(String),
    /// Replace the footer icon URL; ignored unless an embed exists and the
    /// footer toggle is on.
    ChangeFooterIcon(String),
    /// Set the image toggle; recorded as off while no embed exists.
    SetHasImage(bool),
    /// Replace the embed image wholesale; ignored while no embed exists.
    ChangeImageUrl(String),
    /// Set the thumbnail toggle; recorded as off while no embed exists.
    SetHasThumbnail(bool),
    /// Replace the embed thumbnail wholesale; ignored while no embed exists.
    ChangeThumbnailUrl(String),
    /// Derive a payload from the current state and request one transport
    /// call; does not itself mutate the state.
    SendNow,
    /// Consume the transport's outcome, recording it in the send status.
    SendCompleted(Result<(), TransportError>),
}

/// Model of an intent, with every carried string as its characters.
pub ghost enum IntentModel {
    ChangeHookUrl(Seq<char>),
    ChangeMessage(Seq<char>),
    ChangeAvatarUrl(Seq<char>),
    ChangeUsername(Seq<char>),
    SetHasEmbed(bool),
    ChangeEmbedTitle(Seq<char>),
    ChangeEmbedDescription(Seq<char>),
    SetAdvancedMode(bool),
    SetHasFooter(bool),
    ChangeFooterText(Seq<char>),
    ChangeFooterIcon(Seq<char>),
    SetHasImage(bool),
    ChangeImageUrl(Seq<char>),
    SetHasThumbnail(bool),
    ChangeThumbnailUrl(Seq<char>),
    SendNow,
    SendCompleted(Result<(), TransportError>),
}

impl View for Intent {
    type V = IntentModel;

    open spec fn view(&self) -> IntentModel {
        match self {
            Intent::ChangeHookUrl(s) => IntentModel::ChangeHookUrl(s@),
            Intent::ChangeMessage(s) => IntentModel::ChangeMessage(s@),
            Intent::ChangeAvatarUrl(s) => IntentModel::ChangeAvatarUrl(s@),
            Intent::ChangeUsername(s) => IntentModel::ChangeUsername(s@),
            Intent::SetHasEmbed(b) => IntentModel::SetHasEmbed(*b),
            Intent::ChangeEmbedTitle(s) => IntentModel::ChangeEmbedTitle(s@),
            Intent::ChangeEmbedDescription(s) => IntentModel::ChangeEmbedDescription(s@),
            Intent::SetAdvancedMode(b) => IntentModel::SetAdvancedMode(*b),
            Intent::SetHasFooter(b) => IntentModel::SetHasFooter(*b),
            Intent::ChangeFooterText(s) => IntentModel::ChangeFooterText(s@),
            Intent::ChangeFooterIcon(s) => IntentModel::ChangeFooterIcon(s@),
            Intent::SetHasImage(b) => IntentModel::SetHasImage(*b),
            Intent::ChangeImageUrl(s) => IntentModel::ChangeImageUrl(s@),
            Intent::SetHasThumbnail(b) => IntentModel::SetHasThumbnail(*b),
            Intent::ChangeThumbnailUrl(s) => IntentModel::ChangeThumbnailUrl(s@),
            Intent::SendNow => IntentModel::SendNow,
            Intent::SendCompleted(r) => IntentModel::SendCompleted(*r),
        }
    }
}

/// The one effect a reducer step can request: invoke the transport once
/// with this payload against this URL.
pub struct Effect {
    pub url: String,
    pub payload: RequestPayload,
}

/// Model of an effect.
#[verifier::ext_equal]
pub ghost struct EffectModel {
    pub url: Seq<char>,
    pub payload: RequestPayloadModel,
}

impl View for Effect {
    type V = EffectModel;

    open spec fn view(&self) -> EffectModel {
        EffectModel { url: self.url@, payload: self.payload@ }
    }
}

} // verus!
