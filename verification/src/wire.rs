//! The wire form of a request payload: the JSON request body the transport
//! posts to the webhook URL, produced character by character and proved
//! equal to its model.
//!
//! The body is one object with the keys `content`, `avatar_url`, `username`
//! and `embeds`; the single embed, when present, carries `title`, a constant
//! `"type": "rich"` tag and `description`, and in advanced mode also
//! `fields`, and `image` / `thumbnail` / `footer` when set. String values
//! are escaped as JSON requires: quote, backslash and every control
//! character below the space character.

use vstd::prelude::*;

use crate::payload::EmbedPayload;
use crate::payload::EmbedPayloadModel;
use crate::payload::RequestPayload;
use crate::payload::RequestPayloadModel;
use crate::payload::embeds_model;
use crate::payload::fields_opt_model;
use crate::state::FieldModel;
use crate::state::FieldState;
use crate::state::FooterModel;
use crate::state::FooterState;
use crate::state::ImageModel;
use crate::state::ImageState;
use crate::state::ThumbnailModel;
use crate::state::ThumbnailState;
use crate::state::fields_model;
use crate::state::footer_opt_model;
use crate::state::image_opt_model;
use crate::state::thumbnail_opt_model;

verus! {

// ---------------------------------------------------------------------------
// The model: what each part of the body is, as a character sequence.
// ---------------------------------------------------------------------------

/// The digit character for a value below sixteen.
pub open spec fn hex_digit(n: int) -> char {
    if n == 0 {
        '0'
    } else if n == 1 {
        '1'
    } else if n == 2 {
        '2'
    } else if n == 3 {
        '3'
    } else if n == 4 {
        '4'
    } else if n == 5 {
        '5'
    } else if n == 6 {
        '6'
    } else if n == 7 {
        '7'
    } else if n == 8 {
        '8'
    } else if n == 9 {
        '9'
    } else if n == 10 {
        'a'
    } else if n == 11 {
        'b'
    } else if n == 12 {
        'c'
    } else if n == 13 {
        'd'
    } else if n == 14 {
        'e'
    } else {
        'f'
    }
}

/// The decimal form of a number, most significant digit first.
pub open spec fn dec_number(n: nat) -> Seq<char>
    decreases n,
{
    if n < 10 {
        seq![hex_digit(n as int)]
    } else {
        dec_number(n / 10) + seq![hex_digit((n % 10) as int)]
    }
}

/// The escape of one character inside a JSON string: quote and backslash
/// get a backslash escape, the named control characters their short form,
/// every other control character below the space character a `\u00..` form,
/// and everything else stands as itself.
pub open spec fn escape_char(c: char) -> Seq<char> {
    if c == '"' {
        seq!['\\', '"']
    } else if c == '\\' {
        seq!['\\', '\\']
    } else if c == '\n' {
        seq!['\\', 'n']
    } else if c == '\r' {
        seq!['\\', 'r']
    } else if c == '\t' {
        seq!['\\', 't']
    } else if c == '\u{8}' {
        seq!['\\', 'b']
    } else if c == '\u{c}' {
        seq!['\\', 'f']
    } else if (c as u32) < 32 {
        seq!['\\', 'u', '0', '0', hex_digit(((c as u32) / 16) as int), hex_digit(
            ((c as u32) % 16) as int,
        )]
    } else {
        seq![c]
    }
}

/// A whole character sequence escaped, in order.
pub open spec fn escaped(s: Seq<char>) -> Seq<char>
    decreases s.len(),
{
    if s.len() == 0 {
        Seq::empty()
    } else {
        escaped(s.drop_last()) + escape_char(s.last())
    }
}

/// A JSON string: the escaped characters between quotes.
pub open spec fn json_string(s: Seq<char>) -> Seq<char> {
    seq!['"'] + escaped(s) + seq!['"']
}

/// A JSON boolean.
pub open spec fn json_bool(b: bool) -> Seq<char> {
    if b {
        "true"@
    } else {
        "false"@
    }
}

/// One field object.
pub open spec fn json_field(f: FieldModel) -> Seq<char> {
    "{\"name\":"@ + json_string(f.name) + ",\"value\":"@ + json_string(f.value) + ",\"inline\":"@
        + json_bool(f.inline) + "}"@
}

/// A comma-separated field list, in order.
pub open spec fn json_field_list(fs: Seq<FieldModel>) -> Seq<char>
    decreases fs.len(),
{
    if fs.len() == 0 {
        Seq::empty()
    } else if fs.len() == 1 {
        json_field(fs[0])
    } else {
        json_field_list(fs.drop_last()) + ","@ + json_field(fs.last())
    }
}

/// One image object.
pub open spec fn json_image(i: ImageModel) -> Seq<char> {
    "{\"url\":"@ + json_string(i.url) + ",\"height\":"@ + dec_number(i.height as nat)
        + ",\"width\":"@ + dec_number(i.width as nat) + "}"@
}

/// One thumbnail object.
pub open spec fn json_thumbnail(t: ThumbnailModel) -> Seq<char> {
    "{\"url\":"@ + json_string(t.url) + ",\"height\":"@ + dec_number(t.height as nat)
        + ",\"width\":"@ + dec_number(t.width as nat) + "}"@
}

/// One footer object: each of its two keys is present exactly when set.
pub open spec fn json_footer(f: FooterModel) -> Seq<char> {
    "{"@ + match (f.text, f.icon_url) {
        (Some(t), Some(u)) => "\"text\":"@ + json_string(t) + ",\"icon_url\":"@ + json_string(u),
        (Some(t), None) => "\"text\":"@ + json_string(t),
        (None, Some(u)) => "\"icon_url\":"@ + json_string(u),
        (None, None) => Seq::empty(),
    } + "}"@
}

/// The opening part of an embed object: title, the constant type tag and
/// the description, all always present.
pub open spec fn json_embed_head(e: EmbedPayloadModel) -> Seq<char> {
    "{\"title\":"@ + json_string(e.title) + ",\"type\":\"rich\",\"description\":"@ + json_string(
        e.description,
    )
}

/// The field-list part of an embed object: present exactly when the list is
/// included.
pub open spec fn json_fields_part(fs: Option<Seq<FieldModel>>) -> Seq<char> {
    match fs {
        Some(fs) => ",\"fields\":["@ + json_field_list(fs) + "]"@,
        None => Seq::empty(),
    }
}

/// The image part of an embed object: present exactly when set.
pub open spec fn json_image_part(i: Option<ImageModel>) -> Seq<char> {
    match i {
        Some(i) => ",\"image\":"@ + json_image(i),
        None => Seq::empty(),
    }
}

/// The thumbnail part of an embed object: present exactly when set.
pub open spec fn json_thumbnail_part(t: Option<ThumbnailModel>) -> Seq<char> {
    match t {
        Some(t) => ",\"thumbnail\":"@ + json_thumbnail(t),
        None => Seq::empty(),
    }
}

/// The footer part of an embed object: present exactly when set.
pub open spec fn json_footer_part(f: Option<FooterModel>) -> Seq<char> {
    match f {
        Some(f) => ",\"footer\":"@ + json_footer(f),
        None => Seq::empty(),
    }
}

/// One embed object: title, the constant type tag and description always;
/// the field list exactly when included; image, thumbnail and footer
/// exactly when present.
pub open spec fn json_embed(e: EmbedPayloadModel) -> Seq<char> {
    json_embed_head(e) + json_fields_part(e.fields) + json_image_part(e.image)
        + json_thumbnail_part(e.thumbnail) + json_footer_part(e.footer) + "}"@
}

/// A comma-separated embed list, in order.
pub open spec fn json_embed_list(es: Seq<EmbedPayloadModel>) -> Seq<char>
    decreases es.len(),
{
    if es.len() == 0 {
        Seq::empty()
    } else if es.len() == 1 {
        json_embed(es[0])
    } else {
        json_embed_list(es.drop_last()) + ","@ + json_embed(es.last())
    }
}

/// The whole request body.
pub open spec fn json_request_body(p: RequestPayloadModel) -> Seq<char> {
    "{\"content\":"@ + json_string(p.content) + ",\"avatar_url\":"@ + json_string(p.avatar_url)
        + ",\"username\":"@ + json_string(p.username) + ",\"embeds\":["@ + json_embed_list(
        p.embeds,
    ) + "]}"@
}

// ---------------------------------------------------------------------------
// The encoder.
// ---------------------------------------------------------------------------

/// Relies on `String::push`: appends the given character to the end of the
/// string.
#[verifier::external_body]
fn push_char(out: &mut String, c: char)
    ensures
        final(out)@ == old(out)@.push(c),
{
    out.push(c);
}

/// Relies on `String::push_str`: appends the given string slice onto the
/// end of the string.
#[verifier::external_body]
fn push_str(out: &mut String, s: &str)
    ensures
        final(out)@ == old(out)@ + s@,
{
    out.push_str(s);
}

/// The digit character for a value below sixteen.
fn hex_char(d: u32) -> (c: char)
    requires
        d < 16,
    ensures
        c == hex_digit(d as int),
{
    if d == 0 {
        '0'
    } else if d == 1 {
        '1'
    } else if d == 2 {
        '2'
    } else if d == 3 {
        '3'
    } else if d == 4 {
        '4'
    } else if d == 5 {
        '5'
    } else if d == 6 {
        '6'
    } else if d == 7 {
        '7'
    } else if d == 8 {
        '8'
    } else if d == 9 {
        '9'
    } else if d == 10 {
        'a'
    } else if d == 11 {
        'b'
    } else if d == 12 {
        'c'
    } else if d == 13 {
        'd'
    } else if d == 14 {
        'e'
    } else {
        'f'
    }
}

/// Appends the decimal form of a number.
fn push_dec_number(out: &mut String, n: u32)
    ensures
        final(out)@ == old(out)@ + dec_number(n as nat),
    decreases n,
{
    if n < 10 {
        push_char(out, hex_char(n));
        proof {
            assert(out@ =~= old(out)@ + dec_number(n as nat));
        }
    } else {
        push_dec_number(out, n / 10);
        push_char(out, hex_char(n % 10));
        proof {
            assert(out@ =~= old(out)@ + dec_number(n as nat));
        }
    }
}

/// Appends the escape of one character.
fn push_escaped_char(out: &mut String, c: char)
    ensures
        final(out)@ == old(out)@ + escape_char(c),
{
    if c == '"' {
        push_char(out, '\\');
        push_char(out, '"');
    } else if c == '\\' {
        push_char(out, '\\');
        push_char(out, '\\');
    } else if c == '\n' {
        push_char(out, '\\');
        push_char(out, 'n');
    } else if c == '\r' {
        push_char(out, '\\');
        push_char(out, 'r');
    } else if c == '\t' {
        push_char(out, '\\');
        push_char(out, 't');
    } else if c == '\u{8}' {
        push_char(out, '\\');
        push_char(out, 'b');
    } else if c == '\u{c}' {
        push_char(out, '\\');
        push_char(out, 'f');
    } else if (c as u32) < 32 {
        push_char(out, '\\');
        push_char(out, 'u');
        push_char(out, '0');
        push_char(out, '0');
        push_char(out, hex_char((c as u32) / 16));
        push_char(out, hex_char((c as u32) % 16));
    } else {
        push_char(out, c);
    }
    proof {
        assert(out@ =~= old(out)@ + escape_char(c));
    }
}

/// Appends a JSON string.
fn push_json_string(out: &mut String, s: &str)
    ensures
        final(out)@ == old(out)@ + json_string(s@),
{
    push_char(out, '"');
    let n = s.unicode_len();
    let mut i: usize = 0;
    while i < n
        invariant
            n == s@.len(),
            i <= n,
            out@ == old(out)@.push('"') + escaped(s@.take(i as int)),
        decreases n - i,
    {
        let c = s.get_char(i);
        push_escaped_char(out, c);
        proof {
            assert(s@.take(i + 1).drop_last() =~= s@.take(i as int));
            assert(s@.take(i + 1).last() == s@[i as int]);
            assert(out@ =~= old(out)@.push('"') + escaped(s@.take(i + 1)));
        }
        i += 1;
    }
    push_char(out, '"');
    proof {
        assert(s@.take(n as int) =~= s@);
        assert(out@ =~= old(out)@ + json_string(s@));
    }
}

/// Appends a JSON boolean.
fn push_json_bool(out: &mut String, b: bool)
    ensures
        final(out)@ == old(out)@ + json_bool(b),
{
    if b {
        push_str(out, "true");
    } else {
        push_str(out, "false");
    }
}

/// Appends one field object.
fn push_json_field(out: &mut String, f: &FieldState)
    ensures
        final(out)@ == old(out)@ + json_field(f@),
{
    push_str(out, "{\"name\":");
    push_json_string(out, f.name.as_str());
    push_str(out, ",\"value\":");
    push_json_string(out, f.value.as_str());
    push_str(out, ",\"inline\":");
    push_json_bool(out, f.inline);
    push_str(out, "}");
    proof {
        assert(out@ =~= old(out)@ + json_field(f@));
    }
}

/// Appends a comma-separated field list.
fn push_json_field_list(out: &mut String, fs: &Vec<FieldState>)
    ensures
        final(out)@ == old(out)@ + json_field_list(fields_model(fs@)),
{
    let mut i: usize = 0;
    while i < fs.len()
        invariant
            i <= fs@.len(),
            out@ == old(out)@ + json_field_list(fields_model(fs@).take(i as int)),
        decreases fs@.len() - i,
    {
        if i > 0 {
            push_str(out, ",");
        }
        push_json_field(out, &fs[i]);
        proof {
            let fm = fields_model(fs@);
            assert(fm.take(i + 1).drop_last() =~= fm.take(i as int));
            assert(fm.take(i + 1).last() == fm[i as int]);
            assert(fm[i as int] == fs@[i as int]@);
            assert(out@ =~= old(out)@ + json_field_list(fm.take(i + 1)));
        }
        i += 1;
    }
    proof {
        assert(fields_model(fs@).take(fs@.len() as int) =~= fields_model(fs@));
    }
}

/// Appends one image object.
fn push_json_image(out: &mut String, i: &ImageState)
    ensures
        final(out)@ == old(out)@ + json_image(i@),
{
    push_str(out, "{\"url\":");
    push_json_string(out, i.url.as_str());
    push_str(out, ",\"height\":");
    push_dec_number(out, i.height);
    push_str(out, ",\"width\":");
    push_dec_number(out, i.width);
    push_str(out, "}");
    proof {
        assert(out@ =~= old(out)@ + json_image(i@));
    }
}

/// Appends one thumbnail object.
fn push_json_thumbnail(out: &mut String, t: &ThumbnailState)
    ensures
        final(out)@ == old(out)@ + json_thumbnail(t@),
{
    push_str(out, "{\"url\":");
    push_json_string(out, t.url.as_str());
    push_str(out, ",\"height\":");
    push_dec_number(out, t.height);
    push_str(out, ",\"width\":");
    push_dec_number(out, t.width);
    push_str(out, "}");
    proof {
        assert(out@ =~= old(out)@ + json_thumbnail(t@));
    }
}

/// Appends one footer object.
fn push_json_footer(out: &mut String, f: &FooterState)
    ensures
        final(out)@ == old(out)@ + json_footer(f@),
{
    push_str(out, "{");
    match (&f.text, &f.icon_url) {
        (Some(t), Some(u)) => {
            push_str(out, "\"text\":");
            push_json_string(out, t.as_str());
            push_str(out, ",\"icon_url\":");
            push_json_string(out, u.as_str());
        },
        (Some(t), None) => {
            push_str(out, "\"text\":");
            push_json_string(out, t.as_str());
        },
        (None, Some(u)) => {
            push_str(out, "\"icon_url\":");
            push_json_string(out, u.as_str());
        },
        (None, None) => {},
    }
    push_str(out, "}");
    proof {
        assert(out@ =~= old(out)@ + json_footer(f@));
    }
}

/// Concatenation of character sequences shifts over a prefix.
proof fn lemma_concat_shift(o: Seq<char>, a: Seq<char>, b: Seq<char>)
    ensures
        (o + a) + b == o + (a + b),
{
    assert((o + a) + b =~= o + (a + b));
}

/// Appends the field-list part of an embed object.
fn push_fields_part(out: &mut String, fs: &Option<Vec<FieldState>>)
    ensures
        final(out)@ == old(out)@ + json_fields_part(fields_opt_model(*fs)),
{
    match fs {
        Some(fs) => {
            push_str(out, ",\"fields\":[");
            push_json_field_list(out, fs);
            push_str(out, "]");
            proof {
                assert(out@ =~= old(out)@ + json_fields_part(fields_opt_model(Some(*fs))));
            }
        },
        None => {},
    }
}

/// Appends the image part of an embed object.
fn push_image_part(out: &mut String, i: &Option<ImageState>)
    ensures
        final(out)@ == old(out)@ + json_image_part(image_opt_model(*i)),
{
    match i {
        Some(i) => {
            push_str(out, ",\"image\":");
            push_json_image(out, i);
            proof {
                assert(out@ =~= old(out)@ + json_image_part(image_opt_model(Some(*i))));
            }
        },
        None => {},
    }
}

/// Appends the thumbnail part of an embed object.
fn push_thumbnail_part(out: &mut String, t: &Option<ThumbnailState>)
    ensures
        final(out)@ == old(out)@ + json_thumbnail_part(thumbnail_opt_model(*t)),
{
    match t {
        Some(t) => {
            push_str(out, ",\"thumbnail\":");
            push_json_thumbnail(out, t);
            proof {
                assert(out@ =~= old(out)@ + json_thumbnail_part(thumbnail_opt_model(Some(*t))));
            }
        },
        None => {},
    }
}

/// Appends the footer part of an embed object.
fn push_footer_part(out: &mut String, f: &Option<FooterState>)
    ensures
        final(out)@ == old(out)@ + json_footer_part(footer_opt_model(*f)),
{
    match f {
        Some(f) => {
            push_str(out, ",\"footer\":");
            push_json_footer(out, f);
            proof {
                assert(out@ =~= old(out)@ + json_footer_part(footer_opt_model(Some(*f))));
            }
        },
        None => {},
    }
}

/// Appends one embed object.
fn push_json_embed(out: &mut String, e: &EmbedPayload)
    ensures
        final(out)@ == old(out)@ + json_embed(e@),
{
    push_str(out, "{\"title\":");
    push_json_string(out, e.title.as_str());
    push_str(out, ",\"type\":\"rich\",\"description\":");
    push_json_string(out, e.description.as_str());
    proof {
        assert(out@ =~= old(out)@ + json_embed_head(e@));
    }
    push_fields_part(out, &e.fields);
    push_image_part(out, &e.image);
    push_thumbnail_part(out, &e.thumbnail);
    push_footer_part(out, &e.footer);
    push_str(out, "}");
    proof {
        let o = old(out)@;
        let h = json_embed_head(e@);
        let fp = json_fields_part(e@.fields);
        let ip = json_image_part(e@.image);
        let tp = json_thumbnail_part(e@.thumbnail);
        let ftp = json_footer_part(e@.footer);
        lemma_concat_shift(o, h, fp);
        lemma_concat_shift(o, h + fp, ip);
        lemma_concat_shift(o, h + fp + ip, tp);
        lemma_concat_shift(o, h + fp + ip + tp, ftp);
        lemma_concat_shift(o, h + fp + ip + tp + ftp, "}"@);
        assert(out@ == o + json_embed(e@));
    }
}

/// Appends a comma-separated embed list.
fn push_json_embed_list(out: &mut String, es: &Vec<EmbedPayload>)
    ensures
        final(out)@ == old(out)@ + json_embed_list(embeds_model(es@)),
{
    let mut i: usize = 0;
    while i < es.len()
        invariant
            i <= es@.len(),
            out@ == old(out)@ + json_embed_list(embeds_model(es@).take(i as int)),
        decreases es@.len() - i,
    {
        if i > 0 {
            push_str(out, ",");
        }
        push_json_embed(out, &es[i]);
        proof {
            let em = embeds_model(es@);
            assert(em.take(i + 1).drop_last() =~= em.take(i as int));
            assert(em.take(i + 1).last() == em[i as int]);
            assert(em[i as int] == es@[i as int]@);
            assert(out@ =~= old(out)@ + json_embed_list(em.take(i + 1)));
        }
        i += 1;
    }
    proof {
        assert(embeds_model(es@).take(es@.len() as int) =~= embeds_model(es@));
    }
}

/// Encodes a request payload as the JSON request body the transport posts.
pub fn encode_request(p: &RequestPayload) -> (s: String)
    ensures
        s@ == json_request_body(p@),
{
    let mut out = String::new();
    push_str(&mut out, "{\"content\":");
    push_json_string(&mut out, p.content.as_str());
    push_str(&mut out, ",\"avatar_url\":");
    push_json_string(&mut out, p.avatar_url.as_str());
    push_str(&mut out, ",\"username\":");
    push_json_string(&mut out, p.username.as_str());
    push_str(&mut out, ",\"embeds\":[");
    push_json_embed_list(&mut out, &p.embeds);
    push_str(&mut out, "]}");
    proof {
        assert(Seq::<char>::empty() + "{\"content\":"@ =~= "{\"content\":"@);
        assert(out@ == json_request_body(p@));
    }
    out
}

} // verus!
