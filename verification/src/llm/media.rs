//! Media preparation: what is sent for an asset, and when it is refused.
//!
//! Reading the file is left to the caller, who hands over what the file system
//! said as a [`MediaFile`].

use base64::Engine;
use vstd::prelude::*;

use super::common::{has_leading_slash, starts_with_slash};
use super::types::{
    llm_error, AssetKind, LlmError, LlmErrorV, MediaAsset, ModelProfile, Prepared, PreparedKind, PreparedV,
};
use crate::errname::{
    ESP_ERR_INVALID_ARG, ESP_ERR_INVALID_SIZE, ESP_ERR_NOT_FOUND, ESP_ERR_NOT_SUPPORTED, ESP_FAIL,
};
use crate::text::{chars_of, concat2, concat3, decimal, decimal_text, opt_view};

verus! {

/// The base64 text of some bytes, in the standard alphabet with padding.
pub uninterp spec fn base64_text(raw: Seq<u8>) -> Seq<char>;

/// Calls `Engine::encode` of the standard engine of `base64`. The result is
/// named [`base64_text`]; its length is four characters for each three bytes
/// begun. The bound keeps the text within what a buffer can hold.
#[verifier::external_body]
fn encode_standard(raw: &Vec<u8>) -> (r: String)
    requires
        raw@.len() <= isize::MAX / 2,
    ensures
        r@ == base64_text(raw@),
        r@.len() == 4 * ((raw@.len() + 2) / 3),
{
    base64::engine::general_purpose::STANDARD.encode(raw)
}

/// What the file system says of a media file: its size, and its bytes if it could be read.
pub struct MediaFile {
    pub size: usize,
    pub content: Option<Vec<u8>>,
}

/// Whether the base64 text of what was read fits into memory.
pub open spec fn can_be_encoded(file: Option<MediaFile>) -> bool {
    file matches Some(f) ==> (f.content matches Some(raw) ==> raw@.len() <= isize::MAX / 2)
}

/// The lower-case form of an ASCII letter; other characters stay.
pub open spec fn ascii_lower(c: char) -> char {
    if 65 <= c as u32 <= 90 {
        ((c as u32) + 32) as char
    } else {
        c
    }
}

/// `s` with its ASCII letters in lower case.
pub open spec fn lower(s: Seq<char>) -> Seq<char> {
    s.map_values(|c: char| ascii_lower(c))
}

/// `s` from its last dot on.
pub open spec fn extension(s: Seq<char>) -> Option<Seq<char>>
    decreases s.len(),
{
    if s.len() == 0 {
        None
    } else if s.last() == '.' {
        Some(seq!['.'])
    } else {
        match extension(s.drop_last()) {
            Some(e) => Some(e.push(s.last())),
            None => None,
        }
    }
}

/// The image type that a file extension stands for.
pub open spec fn mime_of_extension(e: Seq<char>) -> Option<Seq<char>> {
    let l = lower(e);
    if l == ".jpg"@ || l == ".jpeg"@ {
        Some("image/jpeg"@)
    } else if l == ".png"@ {
        Some("image/png"@)
    } else if l == ".gif"@ {
        Some("image/gif"@)
    } else if l == ".webp"@ {
        Some("image/webp"@)
    } else {
        None
    }
}

/// The image type that a path's extension stands for.
pub open spec fn mime_of_path(path: Seq<char>) -> Option<Seq<char>> {
    match extension(path) {
        Some(e) => mime_of_extension(e),
        None => None,
    }
}

proof fn lemma_extension_at(s: Seq<char>, dot: int)
    requires
        0 <= dot < s.len(),
        s[dot] == '.',
        forall|j: int| dot < j < s.len() ==> s[j] != '.',
    ensures
        extension(s) == Some(s.subrange(dot, s.len() as int)),
    decreases s.len(),
{
    if dot == s.len() - 1 {
        assert(s.subrange(dot, s.len() as int) =~= seq!['.']);
    } else {
        let t = s.drop_last();
        lemma_extension_at(t, dot);
        assert(t.subrange(dot, t.len() as int).push(s.last()) =~= s.subrange(dot, s.len() as int));
    }
}

proof fn lemma_no_extension(s: Seq<char>)
    requires
        forall|j: int| 0 <= j < s.len() ==> s[j] != '.',
    ensures
        extension(s) is None,
    decreases s.len(),
{
    if s.len() > 0 {
        lemma_no_extension(s.drop_last());
    }
}

/// Whether the characters of `v` from `from` on are `lit`, ASCII letters compared in lower case.
fn lower_eq(v: &Vec<char>, from: usize, lit: &str) -> (r: bool)
    requires
        from <= v@.len(),
    ensures
        r == (lower(v@.subrange(from as int, v@.len() as int)) == lit@),
{
    let l = chars_of(lit);
    let ghost s = lower(v@.subrange(from as int, v@.len() as int));
    let n: usize = v.len();
    if n - from != l.len() {
        assert(s.len() != lit@.len());
        return false;
    }
    let mut i: usize = 0;
    while i < l.len()
        invariant
            from <= n,
            n == v@.len(),
            n - from == l@.len(),
            l@ == lit@,
            i <= l@.len(),
            s == lower(v@.subrange(from as int, v@.len() as int)),
            forall|j: int| 0 <= j < i ==> s[j] == lit@[j],
        decreases l@.len() - i,
    {
        let c = v[from + i];
        let d = l[i];
        let u = c as u32;
        let lowered: u32 = if u >= 65 && u <= 90 {
            u + 32
        } else {
            u
        };
        assert(s[i as int] == ascii_lower(c));
        if lowered != d as u32 {
            assert(ascii_lower(c) != d);
            return false;
        }
        proof {
            vstd::utf8::char_u32_cast(d, lowered);
            vstd::utf8::char_u32_cast(c, u);
        }
        assert(ascii_lower(c) == d);
        i = i + 1;
    }
    assert(s =~= lit@);
    true
}

/// The image type that a path's extension stands for, upper and lower case alike.
pub fn image_mime_from_path(path: &str) -> (r: Option<&'static str>)
    ensures
        match r {
            Some(m) => mime_of_path(path@) == Some(m@),
            None => mime_of_path(path@) is None,
        },
{
    let v = chars_of(path);
    let mut dot: usize = v.len();
    while dot > 0
        invariant
            dot <= v@.len(),
            v@ == path@,
            forall|j: int| dot <= j < v@.len() ==> v@[j] != '.',
        decreases dot,
    {
        dot = dot - 1;
        if v[dot] == '.' {
            proof {
                lemma_extension_at(v@, dot as int);
            }
            if lower_eq(&v, dot, ".jpg") || lower_eq(&v, dot, ".jpeg") {
                return Some("image/jpeg");
            }
            if lower_eq(&v, dot, ".png") {
                return Some("image/png");
            }
            if lower_eq(&v, dot, ".gif") {
                return Some("image/gif");
            }
            if lower_eq(&v, dot, ".webp") {
                return Some("image/webp");
            }
            return None;
        }
    }
    proof {
        lemma_no_extension(v@);
    }
    None
}

/// The type under which a local asset is sent: its own, else that of its extension.
pub open spec fn asset_mime(mime_type: Option<Seq<char>>, path: Seq<char>) -> Option<Seq<char>> {
    match mime_type {
        Some(m) => Some(m),
        None => mime_of_path(path),
    }
}

/// What is sent for the local file `path`.
pub open spec fn prepared_local(
    path: Option<Seq<char>>,
    mime_type: Option<Seq<char>>,
    max: nat,
    file: Option<MediaFile>,
) -> Result<PreparedV, LlmErrorV> {
    match path {
        None => Err(llm_error(ESP_ERR_INVALID_ARG as int, "media path is empty"@)),
        Some(p) => if p.len() == 0 {
            Err(llm_error(ESP_ERR_INVALID_ARG as int, "media path is empty"@))
        } else if !starts_with_slash(p) {
            Err(llm_error(ESP_ERR_INVALID_ARG as int, "media path must be an absolute path"@))
        } else {
            match asset_mime(mime_type, p) {
                None => Err(
                    llm_error(ESP_ERR_NOT_SUPPORTED as int, "Only local jpg/jpeg/png/gif/webp files are supported"@),
                ),
                Some(mime) => match file {
                    None => Err(llm_error(ESP_ERR_NOT_FOUND as int, "Media file not found: "@ + p)),
                    Some(f) => if f.size == 0 {
                        Err(llm_error(ESP_ERR_INVALID_SIZE as int, "Media file is empty: "@ + p))
                    } else if f.size > max {
                        Err(
                            llm_error(
                                ESP_ERR_INVALID_SIZE as int,
                                "Media file is too large ("@ + decimal(f.size as nat) + " bytes > "@ + decimal(max)
                                    + " bytes)"@,
                            ),
                        )
                    } else {
                        match f.content {
                            Some(raw) => if raw@.len() == f.size {
                                Ok(
                                    PreparedV {
                                        kind: PreparedKind::DataUrl,
                                        payload: "data:"@ + mime + ";base64,"@ + base64_text(raw@),
                                        mime_type: mime,
                                        original_size: f.size as nat,
                                    },
                                )
                            } else {
                                Err(llm_error(ESP_FAIL as int, "Failed to read full media file: "@ + p))
                            },
                            None => Err(llm_error(ESP_FAIL as int, "Failed to read full media file: "@ + p)),
                        }
                    },
                },
            }
        },
    }
}

/// What is sent for an asset.
pub open spec fn prepared_asset(
    asset: MediaAsset,
    remote_only: bool,
    max: nat,
    file: Option<MediaFile>,
) -> Result<PreparedV, LlmErrorV> {
    match asset.kind {
        AssetKind::RemoteUrl => match opt_view(asset.url) {
            Some(u) => if u.len() > 0 {
                Ok(
                    PreparedV {
                        kind: PreparedKind::RemoteUrl,
                        payload: u,
                        mime_type: Seq::empty(),
                        original_size: 0,
                    },
                )
            } else {
                Err(llm_error(ESP_ERR_INVALID_ARG as int, "media url is empty"@))
            },
            None => Err(llm_error(ESP_ERR_INVALID_ARG as int, "media url is empty"@)),
        },
        AssetKind::InlineBytes => Err(llm_error(ESP_ERR_NOT_SUPPORTED as int, "Unsupported media asset kind"@)),
        AssetKind::LocalPath => if remote_only {
            Err(llm_error(ESP_ERR_NOT_SUPPORTED as int, "Selected profile only supports remote image URLs"@))
        } else {
            prepared_local(opt_view(asset.path), opt_view(asset.mime_type), max, file)
        },
    }
}

/// What a preparation gives.
pub open spec fn prepared_view(r: Result<Prepared, LlmError>) -> Result<PreparedV, LlmErrorV> {
    match r {
        Ok(p) => Ok(p@),
        Err(e) => Err(e@),
    }
}

/// Whether the file of a local asset is worth reading: not empty and not too large.
pub fn media_size_accepted(size: usize, image_max_bytes: usize) -> (r: bool)
    ensures
        r == (0 < size <= image_max_bytes),
{
    size > 0 && size <= image_max_bytes
}

fn prepare_local_path_asset(
    asset: &MediaAsset,
    image_max_bytes: usize,
    file: &Option<MediaFile>,
) -> (r: Result<Prepared, LlmError>)
    requires
        can_be_encoded(*file),
    ensures
        prepared_view(r) == prepared_local(
            opt_view(asset.path),
            opt_view(asset.mime_type),
            image_max_bytes as nat,
            *file,
        ),
{
    let path: &str = match &asset.path {
        Some(p) => p.as_str(),
        None => "",
    };
    proof {
        reveal_strlit("");
    }
    if path.is_empty() {
        return Err(LlmError::new(ESP_ERR_INVALID_ARG, "media path is empty"));
    }
    if !has_leading_slash(path) {
        return Err(LlmError::new(ESP_ERR_INVALID_ARG, "media path must be an absolute path"));
    }
    let mime: &str = match &asset.mime_type {
        Some(m) => m.as_str(),
        None => match image_mime_from_path(path) {
            Some(m) => m,
            None => {
                return Err(
                    LlmError::new(
                        ESP_ERR_NOT_SUPPORTED,
                        "Only local jpg/jpeg/png/gif/webp files are supported",
                    ),
                );
            },
        },
    };
    let found = match file {
        Some(f) => f,
        None => {
            return Err(LlmError::new(ESP_ERR_NOT_FOUND, concat2("Media file not found: ", path).as_str()));
        },
    };
    if found.size == 0 {
        return Err(LlmError::new(ESP_ERR_INVALID_SIZE, concat2("Media file is empty: ", path).as_str()));
    }
    if found.size > image_max_bytes {
        let mut message = concat3(
            "Media file is too large (",
            decimal_text(found.size).as_str(),
            " bytes > ",
        );
        message.append(decimal_text(image_max_bytes).as_str());
        message.append(" bytes)");
        return Err(LlmError { err: ESP_ERR_INVALID_SIZE, message });
    }
    let raw = match &found.content {
        Some(raw) => raw,
        None => {
            return Err(LlmError::new(ESP_FAIL, concat2("Failed to read full media file: ", path).as_str()));
        },
    };
    if raw.len() != found.size {
        return Err(LlmError::new(ESP_FAIL, concat2("Failed to read full media file: ", path).as_str()));
    }
    let encoded = encode_standard(raw);
    let mut payload = concat3("data:", mime, ";base64,");
    payload.append(encoded.as_str());
    Ok(
        Prepared {
            kind: PreparedKind::DataUrl,
            payload,
            mime_type: mime.to_owned(),
            original_size: found.size,
        },
    )
}

/// Prepares an asset. Of `file` only a local asset is a matter: it says what the
/// file system holds under the asset's path.
pub fn prepare_asset(
    asset: &MediaAsset,
    profile: &ModelProfile,
    image_max_bytes: usize,
    file: &Option<MediaFile>,
) -> (r: Result<Prepared, LlmError>)
    requires
        can_be_encoded(*file),
    ensures
        prepared_view(r) == prepared_asset(*asset, profile.image_remote_url_only, image_max_bytes as nat, *file),
{
    match asset.kind {
        AssetKind::RemoteUrl => {
            let url: &str = match &asset.url {
                Some(u) => u.as_str(),
                None => "",
            };
            proof {
                reveal_strlit("");
            }
            if url.is_empty() {
                return Err(LlmError::new(ESP_ERR_INVALID_ARG, "media url is empty"));
            }
            Ok(
                Prepared {
                    kind: PreparedKind::RemoteUrl,
                    payload: url.to_owned(),
                    mime_type: String::new(),
                    original_size: 0,
                },
            )
        },
        AssetKind::InlineBytes => Err(LlmError::new(ESP_ERR_NOT_SUPPORTED, "Unsupported media asset kind")),
        AssetKind::LocalPath => {
            if profile.image_remote_url_only {
                return Err(
                    LlmError::new(ESP_ERR_NOT_SUPPORTED, "Selected profile only supports remote image URLs"),
                );
            }
            prepare_local_path_asset(asset, image_max_bytes, file)
        },
    }
}

/// The type of a picture goes by the end of its name, whatever its case.
pub proof fn law_type_goes_by_the_ending(stem: Seq<char>, ending: Seq<char>)
    requires
        forall|i: int| 0 <= i < ending.len() ==> #[trigger] ending[i] != '.',
    ensures
        mime_of_path(stem + seq!['.'] + ending) == mime_of_extension(seq!['.'] + ending),
        lower(seq!['.'] + ending) == ".jpg"@ || lower(seq!['.'] + ending) == ".jpeg"@ ==> mime_of_path(
            stem + seq!['.'] + ending,
        ) == Some("image/jpeg"@),
        lower(seq!['.'] + ending) == ".png"@ ==> mime_of_path(stem + seq!['.'] + ending) == Some("image/png"@),
        lower(seq!['.'] + ending) == ".gif"@ ==> mime_of_path(stem + seq!['.'] + ending) == Some("image/gif"@),
        lower(seq!['.'] + ending) == ".webp"@ ==> mime_of_path(stem + seq!['.'] + ending) == Some("image/webp"@),
        mime_of_path(stem + seq!['.'] + ending) matches Some(mime) ==> mime == "image/jpeg"@ || mime == "image/png"@
            || mime == "image/gif"@ || mime == "image/webp"@,
    decreases ending.len(),
{
    lemma_extension_is(stem, ending);
    reveal_strlit(".jpg");
    reveal_strlit(".jpeg");
    reveal_strlit(".png");
    reveal_strlit(".gif");
    reveal_strlit(".webp");
    assert(".jpg"@[1] == 'j' && ".jpeg"@[1] == 'j' && ".png"@[1] == 'p' && ".gif"@[1] == 'g' && ".webp"@[1] == 'w');
}

proof fn lemma_extension_is(stem: Seq<char>, ending: Seq<char>)
    requires
        forall|i: int| 0 <= i < ending.len() ==> #[trigger] ending[i] != '.',
    ensures
        extension(stem + seq!['.'] + ending) == Some(seq!['.'] + ending),
    decreases ending.len(),
{
    let path = stem + seq!['.'] + ending;
    if ending.len() == 0 {
        assert(path.last() == '.');
        assert(seq!['.'] + ending =~= seq!['.']);
    } else {
        let short = ending.drop_last();
        assert(path.drop_last() =~= stem + seq!['.'] + short);
        assert(path.last() == ending.last());
        assert(ending[ending.len() - 1] != '.');
        lemma_extension_is(stem, short);
        assert((seq!['.'] + short).push(ending.last()) =~= seq!['.'] + ending);
    }
}

/// A picture at a URL is shown by that URL as it is, and one without a URL is refused.
pub proof fn law_remote_picture_is_shown_by_its_url(asset: MediaAsset, remote_only: bool, max: nat, file: Option<MediaFile>)
    requires
        asset.kind is RemoteUrl,
    ensures
        asset.url is Some && asset.url->Some_0@.len() > 0 ==> (prepared_asset(asset, remote_only, max, file) matches Ok(p)
            && p.payload == asset.url->Some_0@ && p.kind == PreparedKind::RemoteUrl && p.original_size == 0),
        asset.url is None || asset.url->Some_0@.len() == 0 ==> prepared_asset(asset, remote_only, max, file) == Err::<
            PreparedV,
            LlmErrorV,
        >(LlmErrorV { err: ESP_ERR_INVALID_ARG as int, message: "media url is empty"@ }),
{
}

/// A picture on disk is shown whole, as its own bytes under its own type, where it is not
/// empty and not too large. Its type is the one that is given, and else goes by its name.
pub proof fn law_local_picture_is_shown_whole(asset: MediaAsset, remote_only: bool, max: nat, file: Option<MediaFile>, p: PreparedV)
    requires
        asset.kind is LocalPath,
        prepared_asset(asset, remote_only, max, file) == Ok::<PreparedV, LlmErrorV>(p),
    ensures
        !remote_only,
        asset.path is Some,
        asset.path->Some_0@.len() > 0,
        asset.path->Some_0@[0] == '/',
        file matches Some(f) && 0 < f.size <= max && (f.content matches Some(raw) && raw@.len() == f.size && p.payload
            == "data:"@ + p.mime_type + ";base64,"@ + base64_text(raw@)),
        asset.mime_type is Some ==> p.mime_type == asset.mime_type->Some_0@,
        asset.mime_type is None ==> mime_of_path(asset.path->Some_0@) == Some(p.mime_type),
        p.kind == PreparedKind::DataUrl,
        p.original_size == file->Some_0.size,
{
}

/// What keeps a picture on disk from being shown is said: only URLs are taken, no path or
/// no absolute one is given, its type is not known, it is not there, it is empty or too
/// large, or it could not be read whole.
pub proof fn law_unusable_picture_says_why(asset: MediaAsset, remote_only: bool, max: nat, file: Option<MediaFile>, e: LlmErrorV)
    requires
        asset.kind is LocalPath,
        prepared_asset(asset, remote_only, max, file) == Err::<PreparedV, LlmErrorV>(e),
    ensures
        remote_only ==> e == (LlmErrorV {
            err: ESP_ERR_NOT_SUPPORTED as int,
            message: "Selected profile only supports remote image URLs"@,
        }),
        !remote_only && (asset.path is None || asset.path->Some_0@.len() == 0) ==> e == (LlmErrorV {
            err: ESP_ERR_INVALID_ARG as int,
            message: "media path is empty"@,
        }),
        !remote_only && asset.path is Some && asset.path->Some_0@.len() > 0 && asset.path->Some_0@[0] != '/' ==> e == (
        LlmErrorV { err: ESP_ERR_INVALID_ARG as int, message: "media path must be an absolute path"@ }),
        !remote_only && asset.path is Some && asset.path->Some_0@.len() > 0 && asset.path->Some_0@[0] == '/' ==> {
            let path = asset.path->Some_0@;
            if asset.mime_type is None && mime_of_path(path) is None {
                e == (LlmErrorV {
                    err: ESP_ERR_NOT_SUPPORTED as int,
                    message: "Only local jpg/jpeg/png/gif/webp files are supported"@,
                })
            } else if file is None {
                e == (LlmErrorV { err: ESP_ERR_NOT_FOUND as int, message: "Media file not found: "@ + path })
            } else if file->Some_0.size == 0 {
                e == (LlmErrorV { err: ESP_ERR_INVALID_SIZE as int, message: "Media file is empty: "@ + path })
            } else if file->Some_0.size > max {
                e.err == ESP_ERR_INVALID_SIZE && e.message == "Media file is too large ("@ + decimal(
                    file->Some_0.size as nat,
                ) + " bytes > "@ + decimal(max) + " bytes)"@
            } else {
                e == (LlmErrorV { err: ESP_FAIL as int, message: "Failed to read full media file: "@ + path })
                    && (file->Some_0.content is None || file->Some_0.content->Some_0@.len() != file->Some_0.size)
            }
        },
{
}

/// A picture that is neither at a URL nor on disk is refused.
pub proof fn law_inline_picture_is_refused(asset: MediaAsset, remote_only: bool, max: nat, file: Option<MediaFile>)
    requires
        asset.kind is InlineBytes,
    ensures
        prepared_asset(asset, remote_only, max, file) == Err::<PreparedV, LlmErrorV>(
            LlmErrorV { err: ESP_ERR_NOT_SUPPORTED as int, message: "Unsupported media asset kind"@ },
        ),
{
}

} // verus!
