use vstd::prelude::*;

use crate::client::{Body, Client, FormPart, Method, Request};
use crate::urls::opt_view;
use crate::error::ClientError;
use crate::text::{bool_text, bool_to_text, decimal, u32_to_decimal};

verus! {

/// The metadata of an upload, by value.
pub struct UploadFields {
    pub title: Seq<char>,
    pub asset_data: Seq<u8>,
    pub genre: Option<Seq<char>>,
    pub tags: Option<Seq<char>>,
    pub description: Option<Seq<char>>,
    pub artwork_data: Option<Seq<u8>>,
    pub sharing: Option<Seq<char>>,
    pub downloadable: Option<bool>,
    pub streamable: Option<bool>,
    pub license: Option<Seq<char>>,
    pub purchase_url: Option<Seq<char>>,
    pub purchase_title: Option<Seq<char>>,
    pub release_day: Option<u32>,
    pub release_month: Option<u32>,
    pub release_year: Option<u32>,
    pub bpm: Option<u32>,
    pub key_signature: Option<Seq<char>>,
    pub isrc: Option<Seq<char>>,
}

/// The metadata of an upload with a title and audio and nothing else.
pub open spec fn bare_fields(title: Seq<char>, asset_data: Seq<u8>) -> UploadFields {
    UploadFields {
        title,
        asset_data,
        genre: None,
        tags: None,
        description: None,
        artwork_data: None,
        sharing: None,
        downloadable: None,
        streamable: None,
        license: None,
        purchase_url: None,
        purchase_title: None,
        release_day: None,
        release_month: None,
        release_year: None,
        bpm: None,
        key_signature: None,
        isrc: None,
    }
}

/// Setting one piece of metadata of an upload, by value. A release date sets
/// the day, the month and the year together.
pub enum FieldSet {
    Genre(Seq<char>),
    Tags(Seq<char>),
    Description(Seq<char>),
    Artwork(Seq<u8>),
    Sharing(Seq<char>),
    Downloadable(bool),
    Streamable(bool),
    License(Seq<char>),
    PurchaseUrl(Seq<char>),
    PurchaseTitle(Seq<char>),
    ReleaseDate(u32, u32, u32),
    Bpm(u32),
    KeySignature(Seq<char>),
    Isrc(Seq<char>),
}

/// Which setter a change comes from.
pub open spec fn setter_of(u: FieldSet) -> int {
    match u {
        FieldSet::Genre(_) => 0,
        FieldSet::Tags(_) => 1,
        FieldSet::Description(_) => 2,
        FieldSet::Artwork(_) => 3,
        FieldSet::Sharing(_) => 4,
        FieldSet::Downloadable(_) => 5,
        FieldSet::Streamable(_) => 6,
        FieldSet::License(_) => 7,
        FieldSet::PurchaseUrl(_) => 8,
        FieldSet::PurchaseTitle(_) => 9,
        FieldSet::ReleaseDate(_, _, _) => 10,
        FieldSet::Bpm(_) => 11,
        FieldSet::KeySignature(_) => 12,
        FieldSet::Isrc(_) => 13,
    }
}

/// The metadata after a setter: its field or fields set, the rest unchanged.
pub open spec fn apply_set(f: UploadFields, u: FieldSet) -> UploadFields {
    match u {
        FieldSet::Genre(v) => UploadFields { genre: Some(v), ..f },
        FieldSet::Tags(v) => UploadFields { tags: Some(v), ..f },
        FieldSet::Description(v) => UploadFields { description: Some(v), ..f },
        FieldSet::Artwork(v) => UploadFields { artwork_data: Some(v), ..f },
        FieldSet::Sharing(v) => UploadFields { sharing: Some(v), ..f },
        FieldSet::Downloadable(v) => UploadFields { downloadable: Some(v), ..f },
        FieldSet::Streamable(v) => UploadFields { streamable: Some(v), ..f },
        FieldSet::License(v) => UploadFields { license: Some(v), ..f },
        FieldSet::PurchaseUrl(v) => UploadFields { purchase_url: Some(v), ..f },
        FieldSet::PurchaseTitle(v) => UploadFields { purchase_title: Some(v), ..f },
        FieldSet::ReleaseDate(d, m, y) => UploadFields {
            release_day: Some(d),
            release_month: Some(m),
            release_year: Some(y),
            ..f
        },
        FieldSet::Bpm(v) => UploadFields { bpm: Some(v), ..f },
        FieldSet::KeySignature(v) => UploadFields { key_signature: Some(v), ..f },
        FieldSet::Isrc(v) => UploadFields { isrc: Some(v), ..f },
    }
}

/// Setters of different fields commute: calling them in either order gives
/// the same metadata, and so `send` gives the same request.
pub proof fn setters_commute(f: UploadFields, a: FieldSet, b: FieldSet)
    requires
        setter_of(a) != setter_of(b),
    ensures
        apply_set(apply_set(f, a), b) == apply_set(apply_set(f, b), a),
{
}

/// A later call of the same setter wins.
pub proof fn setter_last_wins(f: UploadFields, a: FieldSet, b: FieldSet)
    requires
        setter_of(a) == setter_of(b),
    ensures
        apply_set(apply_set(f, a), b) == apply_set(f, b),
{
}

/// A form field by value: a text field (name, value), or a file field
/// (name, bytes, file name, MIME type).
pub enum FormField {
    Text(Seq<char>, Seq<char>),
    Bytes(Seq<char>, Seq<u8>, Option<Seq<char>>, Option<Seq<char>>),
}

/// A form field by value.
pub open spec fn part_view(p: FormPart) -> FormField {
    match p {
        FormPart::Text { name, value } => FormField::Text(name@, value@),
        FormPart::Bytes { name, data, file_name, mime } => FormField::Bytes(name@, data@, opt_view(file_name), opt_view(mime)),
    }
}

/// The fields of a form by value.
pub open spec fn parts_view(v: Seq<FormPart>) -> Seq<FormField> {
    v.map_values(|p: FormPart| part_view(p))
}

/// A text field where a value is given.
pub open spec fn opt_text(name: Seq<char>, value: Option<Seq<char>>) -> Seq<FormField> {
    match value {
        Some(v) => seq![FormField::Text(name, v)],
        None => seq![],
    }
}

/// A `true`/`false` field where a value is given.
pub open spec fn opt_flag(name: Seq<char>, value: Option<bool>) -> Seq<FormField> {
    match value {
        Some(b) => seq![FormField::Text(name, bool_text(b))],
        None => seq![],
    }
}

/// A decimal field where a value is given.
pub open spec fn opt_number(name: Seq<char>, value: Option<u32>) -> Seq<FormField> {
    match value {
        Some(n) => seq![FormField::Text(name, decimal(n as nat))],
        None => seq![],
    }
}

/// The artwork field where artwork is given: a JPEG file named `artwork.jpg`.
pub open spec fn artwork_field(data: Option<Seq<u8>>) -> Seq<FormField> {
    match data {
        Some(d) => seq![FormField::Bytes("track[artwork_data]"@, d, Some("artwork.jpg"@), Some("image/jpeg"@))],
        None => seq![],
    }
}

/// The multipart form of an upload: title and audio, then each piece of
/// metadata that was given, in a fixed order.
pub open spec fn upload_form(f: UploadFields) -> Seq<FormField> {
    seq![FormField::Text("track[title]"@, f.title), FormField::Bytes("track[asset_data]"@, f.asset_data, None, None)]
        + opt_text("track[genre]"@, f.genre) + opt_text("track[tag_list]"@, f.tags) + opt_text(
        "track[description]"@,
        f.description,
    ) + artwork_field(f.artwork_data) + opt_text("track[sharing]"@, f.sharing) + opt_flag(
        "track[downloadable]"@,
        f.downloadable,
    ) + opt_flag("track[streamable]"@, f.streamable) + opt_text("track[license]"@, f.license) + opt_text(
        "track[purchase_url]"@,
        f.purchase_url,
    ) + opt_text("track[purchase_title]"@, f.purchase_title) + opt_number("track[release_day]"@, f.release_day)
        + opt_number("track[release_month]"@, f.release_month) + opt_number("track[release_year]"@, f.release_year)
        + opt_number("track[bpm]"@, f.bpm) + opt_text("track[key_signature]"@, f.key_signature) + opt_text(
        "track[isrc]"@,
        f.isrc,
    )
}

/// Whether `x` is the form field of a piece of metadata of `f`: the title,
/// the audio, or a piece that was set, with its value.
pub open spec fn field_sent(f: UploadFields, x: FormField) -> bool {
    ||| x == FormField::Text("track[title]"@, f.title)
    ||| x == FormField::Bytes("track[asset_data]"@, f.asset_data, None, None)
    ||| (f.genre matches Some(v) && x == FormField::Text("track[genre]"@, v))
    ||| (f.tags matches Some(v) && x == FormField::Text("track[tag_list]"@, v))
    ||| (f.description matches Some(v) && x == FormField::Text("track[description]"@, v))
    ||| (f.artwork_data matches Some(d) && x == FormField::Bytes(
        "track[artwork_data]"@,
        d,
        Some("artwork.jpg"@),
        Some("image/jpeg"@),
    ))
    ||| (f.sharing matches Some(v) && x == FormField::Text("track[sharing]"@, v))
    ||| (f.downloadable matches Some(b) && x == FormField::Text("track[downloadable]"@, bool_text(b)))
    ||| (f.streamable matches Some(b) && x == FormField::Text("track[streamable]"@, bool_text(b)))
    ||| (f.license matches Some(v) && x == FormField::Text("track[license]"@, v))
    ||| (f.purchase_url matches Some(v) && x == FormField::Text("track[purchase_url]"@, v))
    ||| (f.purchase_title matches Some(v) && x == FormField::Text("track[purchase_title]"@, v))
    ||| (f.release_day matches Some(n) && x == FormField::Text("track[release_day]"@, decimal(n as nat)))
    ||| (f.release_month matches Some(n) && x == FormField::Text("track[release_month]"@, decimal(n as nat)))
    ||| (f.release_year matches Some(n) && x == FormField::Text("track[release_year]"@, decimal(n as nat)))
    ||| (f.bpm matches Some(n) && x == FormField::Text("track[bpm]"@, decimal(n as nat)))
    ||| (f.key_signature matches Some(v) && x == FormField::Text("track[key_signature]"@, v))
    ||| (f.isrc matches Some(v) && x == FormField::Text("track[isrc]"@, v))
}

/// A field is in two forms one after the other where it is in either.
pub broadcast proof fn lemma_form_concat_contains(a: Seq<FormField>, b: Seq<FormField>, x: FormField)
    ensures
        #[trigger] (a + b).contains(x) == (a.contains(x) || b.contains(x)),
{
    if a.contains(x) {
        let i = choose|i: int| 0 <= i < a.len() && a[i] == x;
        assert((a + b)[i] == x);
    }
    if b.contains(x) {
        let i = choose|i: int| 0 <= i < b.len() && b[i] == x;
        assert((a + b)[a.len() + i] == x);
    }
    if (a + b).contains(x) {
        let i = choose|i: int| 0 <= i < (a + b).len() && (a + b)[i] == x;
        if i < a.len() {
            assert(a[i] == x);
        } else {
            assert(b[i - a.len()] == x);
        }
    }
}

/// A one-field form holds that field alone.
pub broadcast proof fn lemma_single_field_contains(e: FormField, x: FormField)
    ensures
        #[trigger] seq![e].contains(x) == (x == e),
{
    if x == e {
        assert(seq![e][0] == x);
    }
}

/// The form of an upload holds exactly the fields of its metadata: the
/// title first, the audio second, and each piece that was set, with its value.
pub proof fn upload_form_holds_set_fields(f: UploadFields)
    ensures
        forall|x: FormField| #[trigger] upload_form(f).contains(x) == field_sent(f, x),
        upload_form(f).len() >= 2,
        upload_form(f)[0] == FormField::Text("track[title]"@, f.title),
        upload_form(f)[1] == FormField::Bytes("track[asset_data]"@, f.asset_data, None, None),
{
    broadcast use lemma_form_concat_contains, lemma_single_field_contains;
    assert forall|x: FormField| #[trigger] upload_form(f).contains(x) == field_sent(f, x) by {
        let base = seq![FormField::Text("track[title]"@, f.title), FormField::Bytes("track[asset_data]"@, f.asset_data, None, None)];
        assert(base =~= seq![FormField::Text("track[title]"@, f.title)] + seq![FormField::Bytes("track[asset_data]"@, f.asset_data, None, None)]);
    }
}

/// A form that holds exactly the fields of `f` holds the title and the
/// audio, and the field of each piece of metadata that was set, with its
/// value, whichever other pieces were set.
pub proof fn each_set_field_is_sent(f: UploadFields, form: Seq<FormField>)
    requires
        forall|x: FormField| #[trigger] form.contains(x) == field_sent(f, x),
    ensures
        form.contains(FormField::Text("track[title]"@, f.title)),
        form.contains(FormField::Bytes("track[asset_data]"@, f.asset_data, None, None)),
        f.genre matches Some(v) ==> form.contains(FormField::Text("track[genre]"@, v)),
        f.tags matches Some(v) ==> form.contains(FormField::Text("track[tag_list]"@, v)),
        f.description matches Some(v) ==> form.contains(FormField::Text("track[description]"@, v)),
        f.sharing matches Some(v) ==> form.contains(FormField::Text("track[sharing]"@, v)),
        f.downloadable matches Some(b) ==> form.contains(FormField::Text("track[downloadable]"@, bool_text(b))),
        f.streamable matches Some(b) ==> form.contains(FormField::Text("track[streamable]"@, bool_text(b))),
        f.license matches Some(v) ==> form.contains(FormField::Text("track[license]"@, v)),
        f.purchase_url matches Some(v) ==> form.contains(FormField::Text("track[purchase_url]"@, v)),
        f.purchase_title matches Some(v) ==> form.contains(FormField::Text("track[purchase_title]"@, v)),
        f.release_day matches Some(n) ==> form.contains(FormField::Text("track[release_day]"@, decimal(n as nat))),
        f.release_month matches Some(n) ==> form.contains(FormField::Text("track[release_month]"@, decimal(n as nat))),
        f.release_year matches Some(n) ==> form.contains(FormField::Text("track[release_year]"@, decimal(n as nat))),
        f.bpm matches Some(n) ==> form.contains(FormField::Text("track[bpm]"@, decimal(n as nat))),
        f.key_signature matches Some(v) ==> form.contains(FormField::Text("track[key_signature]"@, v)),
        f.isrc matches Some(v) ==> form.contains(FormField::Text("track[isrc]"@, v)),
        f.artwork_data matches Some(d) ==> form.contains(
            FormField::Bytes("track[artwork_data]"@, d, Some("artwork.jpg"@), Some("image/jpeg"@)),
        ),
{
}

fn push_text(out: &mut Vec<FormPart>, name: &str, value: Option<String>)
    ensures
        parts_view(final(out)@) == parts_view(old(out)@) + opt_text(name@, opt_view(value)),
{
    match value {
        Some(v) => {
            out.push(FormPart::Text { name: String::from_str(name), value: v });
            proof {
                assert(parts_view(out@) =~= parts_view(old(out)@) + opt_text(name@, opt_view(value)));
            }
        },
        None => {
            proof {
                assert(parts_view(out@) =~= parts_view(old(out)@) + opt_text(name@, opt_view(value)));
            }
        },
    }
}

fn push_flag(out: &mut Vec<FormPart>, name: &str, value: Option<bool>)
    ensures
        parts_view(final(out)@) == parts_view(old(out)@) + opt_flag(name@, value),
{
    match value {
        Some(b) => {
            out.push(FormPart::Text { name: String::from_str(name), value: bool_to_text(b) });
            proof {
                assert(parts_view(out@) =~= parts_view(old(out)@) + opt_flag(name@, value));
            }
        },
        None => {
            proof {
                assert(parts_view(out@) =~= parts_view(old(out)@) + opt_flag(name@, value));
            }
        },
    }
}

fn push_number(out: &mut Vec<FormPart>, name: &str, value: Option<u32>)
    ensures
        parts_view(final(out)@) == parts_view(old(out)@) + opt_number(name@, value),
{
    match value {
        Some(n) => {
            out.push(FormPart::Text { name: String::from_str(name), value: u32_to_decimal(n) });
            proof {
                assert(parts_view(out@) =~= parts_view(old(out)@) + opt_number(name@, value));
            }
        },
        None => {
            proof {
                assert(parts_view(out@) =~= parts_view(old(out)@) + opt_number(name@, value));
            }
        },
    }
}

fn push_artwork(out: &mut Vec<FormPart>, data: Option<Vec<u8>>)
    ensures
        parts_view(final(out)@) == parts_view(old(out)@) + artwork_field(opt_bytes(data)),
{
    let ghost v = opt_bytes(data);
    match data {
        Some(d) => {
            out.push(
                FormPart::Bytes {
                    name: String::from_str("track[artwork_data]"),
                    data: d,
                    file_name: Some(String::from_str("artwork.jpg")),
                    mime: Some(String::from_str("image/jpeg")),
                },
            );
            proof {
                assert(parts_view(out@) =~= parts_view(old(out)@) + artwork_field(v));
            }
        },
        None => {
            proof {
                assert(parts_view(out@) =~= parts_view(old(out)@) + artwork_field(v));
            }
        },
    }
}

/// Builds the upload of a track with its metadata.
#[derive(Debug)]
pub struct TrackUploadBuilder<'a> {
    client: &'a Client,
    title: String,
    asset_data: Vec<u8>,
    genre: Option<String>,
    tags: Option<String>,
    description: Option<String>,
    artwork_data: Option<Vec<u8>>,
    sharing: Option<String>,
    downloadable: Option<bool>,
    streamable: Option<bool>,
    license: Option<String>,
    purchase_url: Option<String>,
    purchase_title: Option<String>,
    release_day: Option<u32>,
    release_month: Option<u32>,
    release_year: Option<u32>,
    bpm: Option<u32>,
    key_signature: Option<String>,
    isrc: Option<String>,
}

/// The view of optional bytes.
pub open spec fn opt_bytes(b: Option<Vec<u8>>) -> Option<Seq<u8>> {
    match b {
        Some(x) => Some(x@),
        None => None,
    }
}

impl<'a> TrackUploadBuilder<'a> {
    /// The client that sends the upload.
    pub closed spec fn client(&self) -> Client {
        *self.client
    }

    /// The metadata set so far.
    pub closed spec fn fields(&self) -> UploadFields {
        UploadFields {
            title: self.title@,
            asset_data: self.asset_data@,
            genre: opt_view(self.genre),
            tags: opt_view(self.tags),
            description: opt_view(self.description),
            artwork_data: opt_bytes(self.artwork_data),
            sharing: opt_view(self.sharing),
            downloadable: self.downloadable,
            streamable: self.streamable,
            license: opt_view(self.license),
            purchase_url: opt_view(self.purchase_url),
            purchase_title: opt_view(self.purchase_title),
            release_day: self.release_day,
            release_month: self.release_month,
            release_year: self.release_year,
            bpm: self.bpm,
            key_signature: opt_view(self.key_signature),
            isrc: opt_view(self.isrc),
        }
    }

    /// An upload of `asset_data` titled `title`, with no other metadata.
    pub fn new(client: &'a Client, title: &str, asset_data: Vec<u8>) -> (r: Self)
        ensures
            r.client() == *client,
            r.fields() == bare_fields(title@, asset_data@),
    {
        TrackUploadBuilder {
            client,
            title: String::from_str(title),
            asset_data,
            genre: None,
            tags: None,
            description: None,
            artwork_data: None,
            sharing: None,
            downloadable: None,
            streamable: None,
            license: None,
            purchase_url: None,
            purchase_title: None,
            release_day: None,
            release_month: None,
            release_year: None,
            bpm: None,
            key_signature: None,
            isrc: None,
        }
    }

    /// Sets the genre.
    pub fn genre(self, genre: &str) -> (r: Self)
        ensures
            r.client() == self.client(),
            r.fields() == apply_set(self.fields(), FieldSet::Genre(genre@)),
    {
        TrackUploadBuilder { genre: Some(String::from_str(genre)), ..self }
    }

    /// Sets the tags.
    pub fn tags(self, tags: &str) -> (r: Self)
        ensures
            r.client() == self.client(),
            r.fields() == apply_set(self.fields(), FieldSet::Tags(tags@)),
    {
        TrackUploadBuilder { tags: Some(String::from_str(tags)), ..self }
    }

    /// Sets the description.
    pub fn description(self, description: &str) -> (r: Self)
        ensures
            r.client() == self.client(),
            r.fields() == apply_set(self.fields(), FieldSet::Description(description@)),
    {
        TrackUploadBuilder { description: Some(String::from_str(description)), ..self }
    }

    /// Sets the artwork, a JPEG image.
    pub fn artwork(self, artwork_data: Vec<u8>) -> (r: Self)
        ensures
            r.client() == self.client(),
            r.fields() == apply_set(self.fields(), FieldSet::Artwork(artwork_data@)),
    {
        TrackUploadBuilder { artwork_data: Some(artwork_data), ..self }
    }

    /// Sets who may see the track (`public` or `private`).
    pub fn sharing(self, sharing: &str) -> (r: Self)
        ensures
            r.client() == self.client(),
            r.fields() == apply_set(self.fields(), FieldSet::Sharing(sharing@)),
    {
        TrackUploadBuilder { sharing: Some(String::from_str(sharing)), ..self }
    }

    /// Sets whether the track may be downloaded.
    pub fn downloadable(self, downloadable: bool) -> (r: Self)
        ensures
            r.client() == self.client(),
            r.fields() == apply_set(self.fields(), FieldSet::Downloadable(downloadable)),
    {
        TrackUploadBuilder { downloadable: Some(downloadable), ..self }
    }

    /// Sets whether the track may be streamed.
    pub fn streamable(self, streamable: bool) -> (r: Self)
        ensures
            r.client() == self.client(),
            r.fields() == apply_set(self.fields(), FieldSet::Streamable(streamable)),
    {
        TrackUploadBuilder { streamable: Some(streamable), ..self }
    }

    /// Sets the license.
    pub fn license(self, license: &str) -> (r: Self)
        ensures
            r.client() == self.client(),
            r.fields() == apply_set(self.fields(), FieldSet::License(license@)),
    {
        TrackUploadBuilder { license: Some(String::from_str(license)), ..self }
    }

    /// Sets the purchase URL.
    pub fn purchase_url(self, url: &str) -> (r: Self)
        ensures
            r.client() == self.client(),
            r.fields() == apply_set(self.fields(), FieldSet::PurchaseUrl(url@)),
    {
        TrackUploadBuilder { purchase_url: Some(String::from_str(url)), ..self }
    }

    /// Sets the purchase title.
    pub fn purchase_title(self, title: &str) -> (r: Self)
        ensures
            r.client() == self.client(),
            r.fields() == apply_set(self.fields(), FieldSet::PurchaseTitle(title@)),
    {
        TrackUploadBuilder { purchase_title: Some(String::from_str(title)), ..self }
    }

    /// Sets the release date.
    pub fn release_date(self, day: u32, month: u32, year: u32) -> (r: Self)
        ensures
            r.client() == self.client(),
            r.fields() == apply_set(self.fields(), FieldSet::ReleaseDate(day, month, year)),
    {
        TrackUploadBuilder { release_day: Some(day), release_month: Some(month), release_year: Some(year), ..self }
    }

    /// Sets the tempo in beats per minute.
    pub fn bpm(self, bpm: u32) -> (r: Self)
        ensures
            r.client() == self.client(),
            r.fields() == apply_set(self.fields(), FieldSet::Bpm(bpm)),
    {
        TrackUploadBuilder { bpm: Some(bpm), ..self }
    }

    /// Sets the key signature.
    pub fn key_signature(self, key: &str) -> (r: Self)
        ensures
            r.client() == self.client(),
            r.fields() == apply_set(self.fields(), FieldSet::KeySignature(key@)),
    {
        TrackUploadBuilder { key_signature: Some(String::from_str(key)), ..self }
    }

    /// Sets the ISRC.
    pub fn isrc(self, isrc: &str) -> (r: Self)
        ensures
            r.client() == self.client(),
            r.fields() == apply_set(self.fields(), FieldSet::Isrc(isrc@)),
    {
        TrackUploadBuilder { isrc: Some(String::from_str(isrc)), ..self }
    }

    /// The upload request: a POST of the multipart form of the metadata to
    /// `/tracks` with the client id appended.
    pub fn send(self) -> (r: Result<Request, ClientError>)
        ensures
            self.client().id_outcome(r, Method::Post, "/tracks"@, false),
            r matches Ok(q) ==> q.body matches Body::Form(f) && parts_view(f@) == upload_form(self.fields()),
            r matches Ok(q) ==> q.body matches Body::Form(f) && forall|x: FormField|
                #[trigger] parts_view(f@).contains(x) == field_sent(self.fields(), x),
    {
        let ghost fields = self.fields();
        let client = self.client;
        let mut form: Vec<FormPart> = Vec::new();
        form.push(FormPart::Text { name: String::from_str("track[title]"), value: self.title });
        form.push(
            FormPart::Bytes {
                name: String::from_str("track[asset_data]"),
                data: self.asset_data,
                file_name: None,
                mime: None,
            },
        );
        proof {
            assert(parts_view(form@) =~= seq![
                FormField::Text("track[title]"@, fields.title),
                FormField::Bytes("track[asset_data]"@, fields.asset_data, None, None),
            ]);
        }
        push_text(&mut form, "track[genre]", self.genre);
        push_text(&mut form, "track[tag_list]", self.tags);
        push_text(&mut form, "track[description]", self.description);
        push_artwork(&mut form, self.artwork_data);
        push_text(&mut form, "track[sharing]", self.sharing);
        push_flag(&mut form, "track[downloadable]", self.downloadable);
        push_flag(&mut form, "track[streamable]", self.streamable);
        push_text(&mut form, "track[license]", self.license);
        push_text(&mut form, "track[purchase_url]", self.purchase_url);
        push_text(&mut form, "track[purchase_title]", self.purchase_title);
        push_number(&mut form, "track[release_day]", self.release_day);
        push_number(&mut form, "track[release_month]", self.release_month);
        push_number(&mut form, "track[release_year]", self.release_year);
        push_number(&mut form, "track[bpm]", self.bpm);
        push_text(&mut form, "track[key_signature]", self.key_signature);
        push_text(&mut form, "track[isrc]", self.isrc);
        proof {
            assert(parts_view(form@) =~= upload_form(fields));
            upload_form_holds_set_fields(fields);
        }
        client.with_client_id(Method::Post, "/tracks", false, Body::Form(form))
    }
}

impl Client {
    /// A builder for uploading a track with its metadata.
    pub fn upload_track(&self, title: &str, asset_data: Vec<u8>) -> (r: TrackUploadBuilder<'_>)
        ensures
            r.client() == *self,
            r.fields() == bare_fields(title@, asset_data@),
    {
        TrackUploadBuilder::new(self, title, asset_data)
    }
}

} // verus!
