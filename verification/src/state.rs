//! The composer's edit state: the message fields, the feature toggles, and
//! the optional embed sub-state, together with their mathematical models.

use vstd::prelude::*;

verus! {

/// Fixed display size (both height and width) stamped on every image and
/// thumbnail attachment. It is not user-editable.
pub const MEDIA_DIM: u32 = 32;

// ---------------------------------------------------------------------------
// Mathematical models. Each executable type below has a ghost counterpart
// over `Seq<char>` and ghost options; every contract in this crate speaks of
// these models through the types' views.
// ---------------------------------------------------------------------------

/// Model of one embed field.
#[verifier::ext_equal]
pub ghost struct FieldModel {
    pub name: Seq<char>,
    pub value: Seq<char>,
    pub inline: bool,
}

/// Model of an image attachment.
#[verifier::ext_equal]
pub ghost struct ImageModel {
    pub url: Seq<char>,
    pub height: u32,
    pub width: u32,
}

/// Model of a thumbnail attachment.
#[verifier::ext_equal]
pub ghost struct ThumbnailModel {
    pub url: Seq<char>,
    pub height: u32,
    pub width: u32,
}

/// Model of an embed footer.
#[verifier::ext_equal]
pub ghost struct FooterModel {
    pub text: Option<Seq<char>>,
    pub icon_url: Option<Seq<char>>,
}

/// Model of the embed sub-state.
#[verifier::ext_equal]
pub ghost struct EmbedModel {
    pub title: Seq<char>,
    pub description: Seq<char>,
    pub fields: Seq<FieldModel>,
    pub image: Option<ImageModel>,
    pub thumbnail: Option<ThumbnailModel>,
    pub footer: Option<FooterModel>,
}

/// Model of the whole edit state.
#[verifier::ext_equal]
pub ghost struct EditModel {
    pub hook_url: Seq<char>,
    pub message: Seq<char>,
    pub avatar_url: Option<Seq<char>>,
    pub username: Option<Seq<char>>,
    pub has_embed: bool,
    pub embed: Option<EmbedModel>,
    pub advanced_mode: bool,
    pub has_footer: bool,
    pub has_image: bool,
    pub has_thumbnail: bool,
    pub last_send: SendStatus,
}

/// The default (all-empty) embed model: empty title and description, no
/// fields, and no image, thumbnail or footer.
pub open spec fn default_embed_model() -> EmbedModel {
    EmbedModel {
        title: Seq::empty(),
        description: Seq::empty(),
        fields: Seq::empty(),
        image: None,
        thumbnail: None,
        footer: None,
    }
}

/// The default footer model: neither text nor icon set.
pub open spec fn default_footer_model() -> FooterModel {
    FooterModel { text: None, icon_url: None }
}

/// The default edit state model: empty strings, no overrides, no embed, all
/// toggles off, and no send attempted yet.
pub open spec fn default_edit_model() -> EditModel {
    EditModel {
        hook_url: Seq::empty(),
        message: Seq::empty(),
        avatar_url: None,
        username: None,
        has_embed: false,
        embed: None,
        advanced_mode: false,
        has_footer: false,
        has_image: false,
        has_thumbnail: false,
        last_send: SendStatus::Idle,
    }
}

impl EditModel {
    /// Well-formedness: the embed sub-state exists exactly while the embed
    /// toggle is on, and the footer/image/thumbnail toggles are only on while
    /// an embed exists.
    pub open spec fn wf(self) -> bool {
        &&& self.has_embed <==> self.embed is Some
        &&& !self.has_embed ==> !self.has_footer && !self.has_image && !self.has_thumbnail
    }
}

// ---------------------------------------------------------------------------
// Transport outcome, as seen by the composer.
// ---------------------------------------------------------------------------

/// The ways a send can fail, as reported by the transport collaborator.
#[derive(Clone, Copy, PartialEq, Eq, Structural, Debug)]
pub enum TransportError {
    /// The network call itself failed.
    Network,
    /// The endpoint answered with a non-success status.
    HttpStatus,
    /// The target URL could not be used at all.
    MalformedUrl,
}

/// The outcome of the most recent send, surfaced so a failure is visible.
#[derive(Clone, Copy, PartialEq, Eq, Structural, Debug)]
pub enum SendStatus {
    /// No send has completed since the composer started.
    Idle,
    /// The last send completed successfully.
    Succeeded,
    /// The last send failed with the given error.
    Failed(TransportError),
}

// ---------------------------------------------------------------------------
// Executable state types.
// ---------------------------------------------------------------------------

/// One embed field: a named value, optionally rendered inline. Not editable
/// through the composer's form, but carried and sent verbatim when set
/// programmatically.
pub struct FieldState {
    pub name: String,
    pub value: String,
    pub inline: bool,
}

/// An image attachment: a URL plus the fixed display size.
pub struct ImageState {
    pub url: String,
    pub height: u32,
    pub width: u32,
}

/// A thumbnail attachment: a URL plus the fixed display size.
pub struct ThumbnailState {
    pub url: String,
    pub height: u32,
    pub width: u32,
}

/// An embed footer: optional text and optional icon URL.
pub struct FooterState {
    pub text: Option<String>,
    pub icon_url: Option<String>,
}

/// The embed sub-state: title, description, fields, and the optional
/// image / thumbnail / footer sub-objects.
pub struct EmbedState {
    pub title: String,
    pub description: String,
    pub fields: Vec<FieldState>,
    pub image: Option<ImageState>,
    pub thumbnail: Option<ThumbnailState>,
    pub footer: Option<FooterState>,
}

/// The full edit state of the composer.
pub struct EditState {
    pub hook_url: String,
    pub message: String,
    pub avatar_url: Option<String>,
    pub username: Option<String>,
    pub has_embed: bool,
    pub embed: Option<EmbedState>,
    pub advanced_mode: bool,
    pub has_footer: bool,
    pub has_image: bool,
    pub has_thumbnail: bool,
    pub last_send: SendStatus,
}

// ---------------------------------------------------------------------------
// Views.
// ---------------------------------------------------------------------------

/// The model of an optional string: the string's characters, if present.
pub open spec fn opt_string_model(o: Option<String>) -> Option<Seq<char>> {
    match o {
        Some(s) => Some(s@),
        None => None,
    }
}

/// The model of a field sequence, element by element.
pub open spec fn fields_model(v: Seq<FieldState>) -> Seq<FieldModel> {
    v.map_values(|f: FieldState| f@)
}

/// The model of an optional image.
pub open spec fn image_opt_model(o: Option<ImageState>) -> Option<ImageModel> {
    match o {
        Some(i) => Some(i@),
        None => None,
    }
}

/// The model of an optional thumbnail.
pub open spec fn thumbnail_opt_model(o: Option<ThumbnailState>) -> Option<ThumbnailModel> {
    match o {
        Some(t) => Some(t@),
        None => None,
    }
}

/// The model of an optional footer.
pub open spec fn footer_opt_model(o: Option<FooterState>) -> Option<FooterModel> {
    match o {
        Some(f) => Some(f@),
        None => None,
    }
}

impl View for FieldState {
    type V = FieldModel;

    open spec fn view(&self) -> FieldModel {
        FieldModel { name: self.name@, value: self.value@, inline: self.inline }
    }
}

impl View for ImageState {
    type V = ImageModel;

    open spec fn view(&self) -> ImageModel {
        ImageModel { url: self.url@, height: self.height, width: self.width }
    }
}

impl View for ThumbnailState {
    type V = ThumbnailModel;

    open spec fn view(&self) -> ThumbnailModel {
        ThumbnailModel { url: self.url@, height: self.height, width: self.width }
    }
}

impl View for FooterState {
    type V = FooterModel;

    open spec fn view(&self) -> FooterModel {
        FooterModel {
            text: opt_string_model(self.text),
            icon_url: opt_string_model(self.icon_url),
        }
    }
}

impl View for EmbedState {
    type V = EmbedModel;

    open spec fn view(&self) -> EmbedModel {
        EmbedModel {
            title: self.title@,
            description: self.description@,
            fields: fields_model(self.fields@),
            image: image_opt_model(self.image),
            thumbnail: thumbnail_opt_model(self.thumbnail),
            footer: footer_opt_model(self.footer),
        }
    }
}

impl View for EditState {
    type V = EditModel;

    open spec fn view(&self) -> EditModel {
        EditModel {
            hook_url: self.hook_url@,
            message: self.message@,
            avatar_url: opt_string_model(self.avatar_url),
            username: opt_string_model(self.username),
            has_embed: self.has_embed,
            embed: match self.embed {
                Some(e) => Some(e@),
                None => None,
            },
            advanced_mode: self.advanced_mode,
            has_footer: self.has_footer,
            has_image: self.has_image,
            has_thumbnail: self.has_thumbnail,
            last_send: self.last_send,
        }
    }
}

// ---------------------------------------------------------------------------
// Construction and duplication.
// ---------------------------------------------------------------------------

/// Duplicates an optional string.
fn clone_opt_string(o: &Option<String>) -> (r: Option<String>)
    ensures
        opt_string_model(r) == opt_string_model(*o),
{
    match o {
        Some(s) => Some(s.clone()),
        None => None,
    }
}

impl Clone for FieldState {
    fn clone(&self) -> (r: Self)
        ensures
            r@ == self@,
    {
        FieldState { name: self.name.clone(), value: self.value.clone(), inline: self.inline }
    }
}

impl Clone for ImageState {
    fn clone(&self) -> (r: Self)
        ensures
            r@ == self@,
    {
        ImageState { url: self.url.clone(), height: self.height, width: self.width }
    }
}

impl Clone for ThumbnailState {
    fn clone(&self) -> (r: Self)
        ensures
            r@ == self@,
    {
        ThumbnailState { url: self.url.clone(), height: self.height, width: self.width }
    }
}

impl Clone for FooterState {
    fn clone(&self) -> (r: Self)
        ensures
            r@ == self@,
    {
        FooterState {
            text: clone_opt_string(&self.text),
            icon_url: clone_opt_string(&self.icon_url),
        }
    }
}

/// Duplicates a field list, element by element.
fn clone_fields(v: &Vec<FieldState>) -> (r: Vec<FieldState>)
    ensures
        fields_model(r@) == fields_model(v@),
{
    let mut out: Vec<FieldState> = Vec::new();
    let mut i: usize = 0;
    while i < v.len()
        invariant
            i <= v.len(),
            out@.len() == i,
            forall|j: int| 0 <= j < i ==> out@[j]@ == v@[j]@,
        decreases v.len() - i,
    {
        out.push(v[i].clone());
        i += 1;
    }
    proof {
        assert(fields_model(out@) =~= fields_model(v@));
    }
    out
}

/// Duplicates an optional image.
fn clone_opt_image(o: &Option<ImageState>) -> (r: Option<ImageState>)
    ensures
        image_opt_model(r) == image_opt_model(*o),
{
    match o {
        Some(i) => Some(i.clone()),
        None => None,
    }
}

/// Duplicates an optional thumbnail.
fn clone_opt_thumbnail(o: &Option<ThumbnailState>) -> (r: Option<ThumbnailState>)
    ensures
        thumbnail_opt_model(r) == thumbnail_opt_model(*o),
{
    match o {
        Some(t) => Some(t.clone()),
        None => None,
    }
}

/// Duplicates an optional footer.
fn clone_opt_footer(o: &Option<FooterState>) -> (r: Option<FooterState>)
    ensures
        footer_opt_model(r) == footer_opt_model(*o),
{
    match o {
        Some(f) => Some(f.clone()),
        None => None,
    }
}

impl Clone for EmbedState {
    fn clone(&self) -> (r: Self)
        ensures
            r@ == self@,
    {
        EmbedState {
            title: self.title.clone(),
            description: self.description.clone(),
            fields: clone_fields(&self.fields),
            image: clone_opt_image(&self.image),
            thumbnail: clone_opt_thumbnail(&self.thumbnail),
            footer: clone_opt_footer(&self.footer),
        }
    }
}

impl Clone for EditState {
    fn clone(&self) -> (r: Self)
        ensures
            r@ == self@,
    {
        EditState {
            hook_url: self.hook_url.clone(),
            message: self.message.clone(),
            avatar_url: clone_opt_string(&self.avatar_url),
            username: clone_opt_string(&self.username),
            has_embed: self.has_embed,
            embed: match &self.embed {
                Some(e) => Some(e.clone()),
                None => None,
            },
            advanced_mode: self.advanced_mode,
            has_footer: self.has_footer,
            has_image: self.has_image,
            has_thumbnail: self.has_thumbnail,
            last_send: self.last_send,
        }
    }
}

impl Default for FooterState {
    /// The default footer: neither text nor icon set.
    fn default() -> (r: Self)
        ensures
            r@ == default_footer_model(),
    {
        FooterState { text: None, icon_url: None }
    }
}

impl Default for EmbedState {
    /// The default embed: empty title and description, no fields, and no
    /// image, thumbnail or footer.
    fn default() -> (r: Self)
        ensures
            r@ == default_embed_model(),
    {
        let r = EmbedState {
            title: String::new(),
            description: String::new(),
            fields: Vec::new(),
            image: None,
            thumbnail: None,
            footer: None,
        };
        proof {
            assert(r@ =~= default_embed_model());
        }
        r
    }
}

impl Default for EditState {
    /// The initial composer state: everything empty, every toggle off.
    fn default() -> (r: Self)
        ensures
            r@ == default_edit_model(),
    {
        EditState {
            hook_url: String::new(),
            message: String::new(),
            avatar_url: None,
            username: None,
            has_embed: false,
            embed: None,
            advanced_mode: false,
            has_footer: false,
            has_image: false,
            has_thumbnail: false,
            last_send: SendStatus::Idle,
        }
    }
}

impl ImageState {
    /// Builds an image attachment from a URL, stamping the fixed display
    /// size.
    pub fn with_url(url: String) -> (r: Self)
        ensures
            r@ == (ImageModel { url: url@, height: MEDIA_DIM, width: MEDIA_DIM }),
    {
        ImageState { url, height: MEDIA_DIM, width: MEDIA_DIM }
    }
}

impl ThumbnailState {
    /// Builds a thumbnail attachment from a URL, stamping the fixed display
    /// size.
    pub fn with_url(url: String) -> (r: Self)
        ensures
            r@ == (ThumbnailModel { url: url@, height: MEDIA_DIM, width: MEDIA_DIM }),
    {
        ThumbnailState { url, height: MEDIA_DIM, width: MEDIA_DIM }
    }
}

// ---------------------------------------------------------------------------
// Read accessors used by a rendering layer.
// ---------------------------------------------------------------------------

/// The embed sub-state a reader sees: the stored one, or the default embed
/// while none exists.
pub open spec fn embed_or_default_model(s: EditModel) -> EmbedModel {
    match s.embed {
        Some(e) => e,
        None => default_embed_model(),
    }
}

/// The footer a reader sees: the stored one, or the default footer while
/// none exists.
pub open spec fn footer_or_default_model(s: EditModel) -> FooterModel {
    match embed_or_default_model(s).footer {
        Some(f) => f,
        None => default_footer_model(),
    }
}

/// The image URL a reader sees: the stored one, or empty while no embed or
/// no image exists.
pub open spec fn image_url_model(s: EditModel) -> Seq<char> {
    match s.embed {
        Some(e) => match e.image {
            Some(i) => i.url,
            None => Seq::empty(),
        },
        None => Seq::empty(),
    }
}

/// The thumbnail URL a reader sees: the stored one, or empty while no embed
/// or no thumbnail exists.
pub open spec fn thumbnail_url_model(s: EditModel) -> Seq<char> {
    match s.embed {
        Some(e) => match e.thumbnail {
            Some(t) => t.url,
            None => Seq::empty(),
        },
        None => Seq::empty(),
    }
}

impl EditState {
    /// Whether this state is well-formed; see [`EditModel::wf`].
    pub open spec fn wf(&self) -> bool {
        self@.wf()
    }

    /// Returns the embed sub-state, or a default embed if none exists.
    pub fn embed_or_default(&self) -> (e: EmbedState)
        ensures
            e@ == embed_or_default_model(self@),
    {
        match &self.embed {
            Some(e) => e.clone(),
            None => EmbedState::default(),
        }
    }

    /// Returns the footer (if any) or a default footer.
    pub fn footer_or_default(&self) -> (f: FooterState)
        ensures
            f@ == footer_or_default_model(self@),
    {
        match &self.embed {
            Some(e) => match &e.footer {
                Some(f) => f.clone(),
                None => FooterState::default(),
            },
            None => FooterState::default(),
        }
    }

    /// Returns the URL for the image if available, and "" otherwise.
    pub fn image_url(&self) -> (r: &str)
        ensures
            r@ == image_url_model(self@),
    {
        proof {
            reveal_strlit("");
            assert(""@ =~= Seq::<char>::empty());
        }
        match &self.embed {
            Some(e) => match &e.image {
                Some(i) => i.url.as_str(),
                None => "",
            },
            None => "",
        }
    }

    /// Returns the URL for the thumbnail if available, and "" otherwise.
    pub fn thumbnail_url(&self) -> (r: &str)
        ensures
            r@ == thumbnail_url_model(self@),
    {
        proof {
            reveal_strlit("");
            assert(""@ =~= Seq::<char>::empty());
        }
        match &self.embed {
            Some(e) => match &e.thumbnail {
                Some(t) => t.url.as_str(),
                None => "",
            },
            None => "",
        }
    }
}

} // verus!
