//! The index of cached images.
//!
//! The index maps an image reference to what is cached for it. It is kept
//! newest first. A row of the index is stored with its layers written as a
//! JSON array; reading a row back refuses layers that are not one.

use vstd::prelude::*;

use crate::error::BoxliteError;
use crate::error::ErrorKind;
use crate::error::ErrorView;
use crate::text::chars_eq;
use crate::text::chars_of;
use crate::text::clone_strings;
use crate::text::push_str;
use crate::text::string_of;
use crate::text::sub_vec;

verus! {

/// What is cached for one image.
#[derive(Clone, Debug)]
pub struct CachedImage {
    /// The digest of the manifest, `sha256:...`. For an image of several
    /// platforms, the manifest of this platform.
    pub manifest_digest: String,
    /// The digest of the configuration blob.
    pub config_digest: String,
    /// The digests of the layers, lowest first.
    pub layers: Vec<String>,
    /// When the image was cached, in ISO 8601 form.
    pub cached_at: String,
    /// Whether every layer is there. An image that is not complete is
    /// being pulled: it is not served, but the pull can be resumed.
    pub complete: bool,
}

pub struct CachedImageView {
    pub manifest_digest: Seq<char>,
    pub config_digest: Seq<char>,
    pub layers: Seq<Seq<char>>,
    pub cached_at: Seq<char>,
    pub complete: bool,
}

impl DeepView for CachedImage {
    type V = CachedImageView;

    open spec fn deep_view(&self) -> CachedImageView {
        CachedImageView {
            manifest_digest: self.manifest_digest@,
            config_digest: self.config_digest@,
            layers: self.layers.deep_view(),
            cached_at: self.cached_at@,
            complete: self.complete,
        }
    }
}

impl CachedImage {
    pub fn duplicate(&self) -> (r: CachedImage)
        ensures
            r.deep_view() == self.deep_view(),
    {
        CachedImage {
            manifest_digest: self.manifest_digest.clone(),
            config_digest: self.config_digest.clone(),
            layers: clone_strings(&self.layers),
            cached_at: self.cached_at.clone(),
            complete: self.complete,
        }
    }
}

// ============================================================================
// Short identifiers
// ============================================================================

/// The short form of an image identifier: the identifier without a leading
/// `sha256:`, cut to 12 characters.
pub open spec fn short_id(id: Seq<char>) -> Seq<char> {
    let prefix = "sha256:"@;
    let clean = if prefix.is_prefix_of(id) {
        id.skip(prefix.len() as int)
    } else {
        id
    };
    if clean.len() > 12 {
        clean.take(12)
    } else {
        clean
    }
}

/// The short form of an image identifier.
pub fn get_short_id(id: &str) -> (r: String)
    ensures
        r@ == short_id(id@),
{
    let v = chars_of(id);
    let prefix = chars_of("sha256:");
    let n = prefix.len();
    let has_prefix = v.len() >= n && chars_eq(&sub_vec(&v, 0, n), &prefix);
    proof {
        if has_prefix {
            assert(prefix@ =~= v@.subrange(0, n as int));
        }
        if prefix@.is_prefix_of(v@) {
            assert(v@.subrange(0, n as int) =~= prefix@);
        }
    }
    let clean = if has_prefix {
        sub_vec(&v, n, v.len())
    } else {
        v
    };
    if clean.len() > 12 {
        string_of(&sub_vec(&clean, 0, 12))
    } else {
        string_of(&clean)
    }
}

// ============================================================================
// Layers
// ============================================================================

/// What to do with a layer archive found in the cache.
#[derive(Clone, Copy, Debug, PartialEq, Eq, Structural)]
pub enum LayerAction {
    /// The archive is what its name says: use it.
    Serve,
    /// The archive is damaged: fetch it again.
    Refetch,
}

/// A layer archive is intact when its file name is the SHA-256 digest of
/// its content, in lowercase hexadecimal.
pub open spec fn layer_intact(file_name: Seq<char>, content: Seq<u8>) -> bool {
    file_name == crate::ids::hex_text(crate::ids::sha256(content))
}

/// What to do with a layer archive found in the cache under the given
/// file name. Only an intact archive is served.
pub fn check_layer(file_name: &str, content: &Vec<u8>) -> (r: LayerAction)
    ensures
        r == if layer_intact(file_name@, content@) {
            LayerAction::Serve
        } else {
            LayerAction::Refetch
        },
{
    let actual = crate::ids::sha256_hex(content);
    if chars_eq(&chars_of(file_name), &chars_of(actual.as_str())) {
        LayerAction::Serve
    } else {
        LayerAction::Refetch
    }
}

/// The file name of the archive of a layer: its digest without the
/// leading `sha256:`.
pub open spec fn digest_file_name(digest: Seq<char>) -> Seq<char> {
    let prefix = "sha256:"@;
    if prefix.is_prefix_of(digest) {
        digest.skip(prefix.len() as int)
    } else {
        digest
    }
}

/// The file name of the archive of a layer.
pub fn layer_file_name(digest: &str) -> (r: String)
    ensures
        r@ == digest_file_name(digest@),
{
    let v = chars_of(digest);
    let prefix = chars_of("sha256:");
    let n = prefix.len();
    let has_prefix = v.len() >= n && chars_eq(&sub_vec(&v, 0, n), &prefix);
    proof {
        if has_prefix {
            assert(prefix@ =~= v@.subrange(0, n as int));
        }
        if prefix@.is_prefix_of(v@) {
            assert(v@.subrange(0, n as int) =~= prefix@);
        }
    }
    if has_prefix {
        string_of(&sub_vec(&v, n, v.len()))
    } else {
        string_of(&v)
    }
}

/// The failure reported for a layer that is damaged as it was fetched.
pub open spec fn damaged_layer_failure(digest: Seq<char>) -> ErrorView {
    ErrorView {
        kind: ErrorKind::Image,
        message: "layer "@ + digest + " failed verification"@,
    }
}

/// Takes in a layer archive that was just fetched for the digest. Only an
/// archive whose SHA-256 digest is its file name is taken; any other is
/// refused with `Image`, never extracted and never served.
pub fn accept_fetched_layer(digest: &str, content: &Vec<u8>) -> (r: Result<(), BoxliteError>)
    ensures
        r is Ok <==> layer_intact(digest_file_name(digest@), content@),
        r matches Err(e) ==> e.deep_view() == damaged_layer_failure(digest@),
{
    let name = layer_file_name(digest);
    match check_layer(name.as_str(), content) {
        LayerAction::Serve => Ok(()),
        LayerAction::Refetch => {
            let mut m = chars_of("layer ");
            push_str(&mut m, digest);
            push_str(&mut m, " failed verification");
            Err(BoxliteError::Image(string_of(&m)))
        },
    }
}

/// Whether every layer has an intact archive. `archives[i]` is what the
/// cache holds under the file name of layer `i`, if it holds anything.
pub open spec fn layers_intact(layers: Seq<Seq<char>>, archives: Seq<Option<Seq<u8>>>) -> bool {
    &&& archives.len() == layers.len()
    &&& forall|i: int|
        0 <= i < layers.len() ==> (#[trigger] archives[i] matches Some(content) && layer_intact(
            digest_file_name(layers[i]),
            content,
        ))
}

/// The image as it is written to the index once its layers were looked
/// at: complete exactly when every layer has an intact archive, and
/// otherwise as it was. An image with a layer that is missing or damaged
/// stays incomplete, so that it is not served and its pull is resumed.
pub fn settle_image(image: &CachedImage, archives: &Vec<Option<Vec<u8>>>) -> (r: CachedImage)
    ensures
        r.deep_view() == (CachedImageView {
            complete: layers_intact(image.deep_view().layers, archives.deep_view()),
            ..image.deep_view()
        }),
{
    let mut complete = archives.len() == image.layers.len();
    let mut i: usize = 0;
    while complete && i < image.layers.len()
        invariant
            i <= image.layers.len(),
            complete ==> archives.len() == image.layers.len(),
            complete ==> forall|j: int|
                0 <= j < i ==> (#[trigger] archives.deep_view()[j] matches Some(content)
                    && layer_intact(digest_file_name(image.deep_view().layers[j]), content)),
            !complete ==> !layers_intact(image.deep_view().layers, archives.deep_view()),
        decreases
                image.layers.len() - i + (if complete {
                    1int
                } else {
                    0int
                }),
    {
        assert(image.deep_view().layers[i as int] == image.layers@[i as int]@);
        assert(archives.deep_view()[i as int] == archives@[i as int].deep_view());
        let name = layer_file_name(image.layers[i].as_str());
        match &archives[i] {
            Some(content) => {
                assert(archives.deep_view()[i as int] == Some(content.deep_view()));
                assert(content.deep_view() =~= content@);
                match check_layer(name.as_str(), content) {
                    LayerAction::Serve => {
                        i += 1;
                    },
                    LayerAction::Refetch => {
                        complete = false;
                    },
                }
            },
            None => {
                assert(archives.deep_view()[i as int] is None);
                complete = false;
            },
        }
    }
    let mut r = image.duplicate();
    r.complete = complete;
    r
}

/// Only intact layers are served: an image that is complete once its
/// layers were looked at has, for each layer, an archive whose SHA-256
/// digest in lowercase hexadecimal is its file name.
pub proof fn lemma_served_layers_are_intact(image: CachedImageView, archives: Seq<Option<Seq<u8>>>, i: int)
    requires
        layers_intact(image.layers, archives),
        0 <= i < image.layers.len(),
    ensures
        archives[i] is Some,
        crate::ids::hex_text(crate::ids::sha256(archives[i]->0)) == digest_file_name(
            image.layers[i],
        ),
{
}

/// The images that may be served: those that are complete. An image that
/// is not complete is being pulled.
pub fn servable(image: &CachedImage) -> (r: bool)
    ensures
        r == image.complete,
{
    image.complete
}

// ============================================================================
// Rows
// ============================================================================

/// The JSON text of a list of texts, as the `serde_json` crate writes it.
pub uninterp spec fn json_of_strings(items: Seq<Seq<char>>) -> Seq<char>;

/// The list of texts that a JSON text stands for, as the `serde_json` crate
/// reads it; nothing where it refuses the text.
pub uninterp spec fn strings_of_json(json: Seq<char>) -> Option<Seq<Seq<char>>>;

/// `serde_json::to_string` of the `serde_json` crate, for a list of texts.
/// The JSON text is a function of the list alone and is given the name
/// [`json_of_strings`]. The call succeeds: the crate writes into a buffer
/// in memory, and fails only where writing fails or where the value
/// refuses to be written, which a list of texts never does.
#[verifier::external_body]
fn strings_to_json(items: &Vec<String>) -> (r: Result<String, String>)
    ensures
        r is Ok,
        r matches Ok(json) ==> json@ == json_of_strings(items.deep_view()),
{
    serde_json::to_string(items).map_err(|e| e.to_string())
}

/// `serde_json::from_str` of the `serde_json` crate, for a list of texts.
/// Whether the text is accepted, and the list read from it, are functions
/// of the text alone and are given the name [`strings_of_json`]. A failure
/// carries the crate's message.
#[verifier::external_body]
fn strings_from_json(json: &str) -> (r: Result<Vec<String>, String>)
    ensures
        match r {
            Ok(items) => strings_of_json(json@) == Some(items.deep_view()),
            Err(_) => strings_of_json(json@) is None,
        },
{
    serde_json::from_str::<Vec<String>>(json).map_err(|e| e.to_string())
}

/// One row of the image index as the database stores it.
#[derive(Clone, Debug)]
pub struct ImageRow {
    pub reference: String,
    pub manifest_digest: String,
    pub config_digest: String,
    /// The layers as a JSON array of texts.
    pub layers_json: String,
    pub cached_at: String,
    /// Zero for an image that is not complete.
    pub complete: i32,
}

pub struct ImageRowView {
    pub reference: Seq<char>,
    pub manifest_digest: Seq<char>,
    pub config_digest: Seq<char>,
    pub layers_json: Seq<char>,
    pub cached_at: Seq<char>,
    pub complete: i32,
}

impl DeepView for ImageRow {
    type V = ImageRowView;

    open spec fn deep_view(&self) -> ImageRowView {
        ImageRowView {
            reference: self.reference@,
            manifest_digest: self.manifest_digest@,
            config_digest: self.config_digest@,
            layers_json: self.layers_json@,
            cached_at: self.cached_at@,
            complete: self.complete,
        }
    }
}

/// A database failure with the given message.
pub open spec fn database_failure(message: Seq<char>) -> ErrorView {
    ErrorView { kind: ErrorKind::Database, message }
}

/// The image that a row holds, given the layers read from its JSON text.
pub open spec fn image_of_row(row: ImageRowView, layers: Seq<Seq<char>>) -> CachedImageView {
    CachedImageView {
        manifest_digest: row.manifest_digest,
        config_digest: row.config_digest,
        layers,
        cached_at: row.cached_at,
        complete: row.complete != 0,
    }
}

/// The row that stores an image, given the JSON text of its layers.
pub open spec fn row_of_image(reference: Seq<char>, image: CachedImageView, layers_json: Seq<char>) -> ImageRowView {
    ImageRowView {
        reference,
        manifest_digest: image.manifest_digest,
        config_digest: image.config_digest,
        layers_json,
        cached_at: image.cached_at,
        complete: if image.complete {
            1
        } else {
            0
        },
    }
}

/// The image of a row, given what reading the layers gave: the list, or
/// the message of the failure.
pub fn image_from_row(row: &ImageRow, layers: Result<Vec<String>, String>) -> (r: Result<
    (String, CachedImage),
    BoxliteError,
>)
    ensures
        match (r, layers) {
            (Ok((reference, image)), Ok(l)) => reference@ == row.reference@ && image.deep_view()
                == image_of_row(row.deep_view(), l.deep_view()),
            (Err(e), Err(cause)) => e.deep_view() == database_failure(
                "Failed to deserialize layers: "@ + cause@,
            ),
            _ => false,
        },
{
    match layers {
        Ok(l) => Ok(
            (
                row.reference.clone(),
                CachedImage {
                    manifest_digest: row.manifest_digest.clone(),
                    config_digest: row.config_digest.clone(),
                    layers: l,
                    cached_at: row.cached_at.clone(),
                    complete: row.complete != 0,
                },
            ),
        ),
        Err(cause) => {
            let mut m = chars_of("Failed to deserialize layers: ");
            push_str(&mut m, cause.as_str());
            Err(BoxliteError::Database(string_of(&m)))
        },
    }
}

/// The image that a row holds. Fails with `Database` where the layers of
/// the row are not a JSON array of texts.
pub fn decode_image_row(row: &ImageRow) -> (r: Result<(String, CachedImage), BoxliteError>)
    ensures
        match r {
            Ok((reference, image)) => {
                &&& strings_of_json(row.layers_json@) is Some
                &&& reference@ == row.reference@
                &&& image.deep_view() == image_of_row(
                    row.deep_view(),
                    strings_of_json(row.layers_json@)->0,
                )
            },
            Err(e) => strings_of_json(row.layers_json@) is None && e.spec_kind()
                == ErrorKind::Database,
        },
{
    let layers = strings_from_json(row.layers_json.as_str());
    image_from_row(row, layers)
}

/// The images that rows hold, in the order of the rows. Fails with the
/// failure of the first row that does not hold one.
pub fn decode_image_rows(rows: &Vec<ImageRow>) -> (r: Result<Vec<(String, CachedImage)>, BoxliteError>)
    ensures
        match r {
            Ok(images) => {
                &&& images.len() == rows.len()
                &&& forall|i: int|
                    0 <= i < rows.len() ==> {
                        &&& strings_of_json(#[trigger] rows[i].layers_json@) is Some
                        &&& images[i].0@ == rows[i].reference@
                        &&& images[i].1.deep_view() == image_of_row(
                            rows[i].deep_view(),
                            strings_of_json(rows[i].layers_json@)->0,
                        )
                    }
            },
            Err(e) => e.spec_kind() == ErrorKind::Database && exists|k: int|
                0 <= k < rows.len() && strings_of_json(#[trigger] rows[k].layers_json@) is None
                    && forall|i: int|
                    0 <= i < k ==> strings_of_json(#[trigger] rows[i].layers_json@) is Some,
        },
{
    let mut images: Vec<(String, CachedImage)> = Vec::new();
    let mut i: usize = 0;
    while i < rows.len()
        invariant
            i <= rows.len(),
            images.len() == i,
            forall|j: int|
                0 <= j < i ==> {
                    &&& strings_of_json(#[trigger] rows[j].layers_json@) is Some
                    &&& images[j].0@ == rows[j].reference@
                    &&& images[j].1.deep_view() == image_of_row(
                        rows[j].deep_view(),
                        strings_of_json(rows[j].layers_json@)->0,
                    )
                },
        decreases rows.len() - i,
    {
        match decode_image_row(&rows[i]) {
            Ok(entry) => {
                images.push(entry);
            },
            Err(e) => {
                return Err(e);
            },
        }
        i += 1;
    }
    Ok(images)
}

/// The row that stores an image, given what writing the layers gave: the
/// JSON text, or the message of the failure.
pub fn row_from_image(reference: &str, image: &CachedImage, layers_json: Result<String, String>) -> (r:
    Result<ImageRow, BoxliteError>)
    ensures
        match (r, layers_json) {
            (Ok(row), Ok(json)) => row.deep_view() == row_of_image(
                reference@,
                image.deep_view(),
                json@,
            ),
            (Err(e), Err(cause)) => e.deep_view() == database_failure(
                "Failed to serialize layers: "@ + cause@,
            ),
            _ => false,
        },
{
    match layers_json {
        Ok(json) => Ok(
            ImageRow {
                reference: reference.to_string(),
                manifest_digest: image.manifest_digest.clone(),
                config_digest: image.config_digest.clone(),
                layers_json: json,
                cached_at: image.cached_at.clone(),
                complete: if image.complete {
                    1
                } else {
                    0
                },
            },
        ),
        Err(cause) => {
            let mut m = chars_of("Failed to serialize layers: ");
            push_str(&mut m, cause.as_str());
            Err(BoxliteError::Database(string_of(&m)))
        },
    }
}

/// The row that stores an image under a reference. Every image has one.
pub fn encode_image_row(reference: &str, image: &CachedImage) -> (r: Result<ImageRow, BoxliteError>)
    ensures
        r matches Ok(row) && row.deep_view() == row_of_image(
            reference@,
            image.deep_view(),
            json_of_strings(image.deep_view().layers),
        ),
{
    let json = strings_to_json(&image.layers);
    row_from_image(reference, image, json)
}

} // verus!
