//! The laws the composer core obeys, stated over the models and proved once
//! for every state and intent.

use vstd::prelude::*;

use crate::intent::IntentModel;
use crate::payload::build_model;
use crate::payload::embed_payload_model;
use crate::reducer::apply_model;
use crate::state::EditModel;
use crate::state::default_embed_model;
use crate::state::embed_or_default_model;
use crate::wire::json_embed;
use crate::wire::json_string;

verus! {

/// Applying any intent to a well-formed state yields a well-formed state:
/// the embed sub-state keeps existing exactly while the embed toggle is on,
/// and the dependent toggles stay off while no embed exists.
pub proof fn apply_preserves_wf(s: EditModel, i: IntentModel)
    requires
        s.wf(),
    ensures
        apply_model(s, i).wf(),
{
}

/// The derived payload carries no embed exactly when the embed toggle is
/// off.
pub proof fn embeds_empty_iff_no_embed(s: EditModel)
    ensures
        build_model(s).embeds.len() == 0 <==> !s.has_embed,
{
}

/// Toggling the embed off and on again resets it to all-default values:
/// empty title and description, no fields, and no image, thumbnail or
/// footer. Edits made before the cycle are deliberately lost.
pub proof fn embed_cycle_resets(s: EditModel)
    requires
        s.wf(),
        s.has_embed,
    ensures
        apply_model(
            apply_model(s, IntentModel::SetHasEmbed(false)),
            IntentModel::SetHasEmbed(true),
        ).embed == Some(default_embed_model()),
{
}

/// Outside advanced mode the derived embed carries only its title and
/// description: no fields, image, thumbnail or footer, even if they are
/// populated in the state.
pub proof fn basic_mode_withholds_advanced_data(s: EditModel)
    requires
        s.has_embed,
        !s.advanced_mode,
    ensures
        build_model(s).embeds.len() == 1,
        build_model(s).embeds[0].title == embed_or_default_model(s).title,
        build_model(s).embeds[0].description == embed_or_default_model(s).description,
        build_model(s).embeds[0].fields is None,
        build_model(s).embeds[0].image is None,
        build_model(s).embeds[0].thumbnail is None,
        build_model(s).embeds[0].footer is None,
{
}

/// Whether an intent is an edit whose gate is off: an embed edit while no
/// embed exists, or a footer edit while no embed exists or the footer
/// toggle is off.
pub open spec fn gated_off(s: EditModel, i: IntentModel) -> bool {
    match i {
        IntentModel::ChangeEmbedTitle(_) => s.embed is None,
        IntentModel::ChangeEmbedDescription(_) => s.embed is None,
        IntentModel::ChangeImageUrl(_) => s.embed is None,
        IntentModel::ChangeThumbnailUrl(_) => s.embed is None,
        IntentModel::SetHasFooter(_) => s.embed is None,
        IntentModel::ChangeFooterText(_) => s.embed is None || !s.has_footer,
        IntentModel::ChangeFooterIcon(_) => s.embed is None || !s.has_footer,
        _ => false,
    }
}

/// An edit whose gate is off leaves the state exactly unchanged: no latent
/// value is recorded anywhere.
pub proof fn gated_edit_is_noop(s: EditModel, i: IntentModel)
    requires
        gated_off(s, i),
    ensures
        apply_model(s, i) == s,
{
}

/// In advanced mode the derived embed carries the state's fields, image,
/// thumbnail and footer verbatim.
pub proof fn advanced_mode_carries_data_verbatim(s: EditModel)
    requires
        s.has_embed,
        s.advanced_mode,
    ensures
        build_model(s).embeds.len() == 1,
        build_model(s).embeds[0] == embed_payload_model(embed_or_default_model(s), true),
        build_model(s).embeds[0].fields == Some(embed_or_default_model(s).fields),
        build_model(s).embeds[0].image == embed_or_default_model(s).image,
        build_model(s).embeds[0].thumbnail == embed_or_default_model(s).thumbnail,
        build_model(s).embeds[0].footer == embed_or_default_model(s).footer,
{
}

/// Outside advanced mode the wire form of the one embed object holds
/// exactly three keys — the title, the constant type tag and the
/// description — whatever else is populated in the state.
pub proof fn basic_mode_embed_wire_form(s: EditModel)
    requires
        s.has_embed,
        !s.advanced_mode,
    ensures
        json_embed(build_model(s).embeds[0]) == "{\"title\":"@ + json_string(
            embed_or_default_model(s).title,
        ) + ",\"type\":\"rich\",\"description\":"@ + json_string(embed_or_default_model(s).description)
            + "}"@,
{
    assert(json_embed(build_model(s).embeds[0]) =~= "{\"title\":"@ + json_string(
        embed_or_default_model(s).title,
    ) + ",\"type\":\"rich\",\"description\":"@ + json_string(embed_or_default_model(s).description)
        + "}"@);
}

} // verus!
