//! Media requests as C hands them over.

#![allow(non_camel_case_types)]

use vstd::prelude::*;

use crate::capi::strings::{
    c_input, c_nonempty, cstr_input, cstr_nonempty, holds_text, law_text_reads_as_written,
};
use crate::errname::{EspErr, ESP_ERR_INVALID_ARG};
use crate::llm::types::{AssetKind, MediaAsset};
use crate::text::opt_view;

verus! {

/// The kind of an asset that is a URL.
pub const CLAW_MEDIA_ASSET_KIND_REMOTE_URL: i32 = 1;

/// The kind of an asset that is its bytes.
pub const CLAW_MEDIA_ASSET_KIND_INLINE_BYTES: i32 = 2;

/// A media asset as C hands it over.
#[derive(Debug, PartialEq, Eq)]
pub struct claw_media_asset_t {
    pub kind: i32,
    pub path: Option<Vec<u8>>,
    pub url: Option<Vec<u8>>,
    /// The asset's bytes, none for a null pointer.
    pub bytes: Vec<u8>,
    pub mime_type: Option<Vec<u8>>,
}

/// A media request as C hands it over.
#[derive(Debug, PartialEq, Eq)]
pub struct claw_llm_media_request_t {
    pub system_prompt: Option<Vec<u8>>,
    pub user_prompt: Option<Vec<u8>>,
    /// The assets, none for a null pointer.
    pub media: Vec<claw_media_asset_t>,
}

/// What a [`MediaAsset`] holds.
#[verifier::ext_equal]
pub struct AssetV {
    pub kind: AssetKind,
    pub path: Option<Seq<char>>,
    pub url: Option<Seq<char>>,
    pub bytes: Option<Seq<u8>>,
    pub mime_type: Option<Seq<char>>,
}

/// What an asset holds.
pub open spec fn asset_view(a: MediaAsset) -> AssetV {
    AssetV {
        kind: a.kind,
        path: opt_view(a.path),
        url: opt_view(a.url),
        bytes: match a.bytes {
            Some(b) => Some(b@),
            None => None,
        },
        mime_type: opt_view(a.mime_type),
    }
}

/// A text, empty where there is none.
pub open spec fn or_empty(o: Option<Seq<char>>) -> Seq<char> {
    match o {
        Some(s) => s,
        None => Seq::empty(),
    }
}

/// The asset that C means. A kind that is not known is a path.
pub open spec fn asset_from_c(a: claw_media_asset_t) -> AssetV {
    if a.kind == CLAW_MEDIA_ASSET_KIND_REMOTE_URL {
        AssetV {
            kind: AssetKind::RemoteUrl,
            path: None,
            url: Some(or_empty(c_input(a.url))),
            bytes: None,
            mime_type: None,
        }
    } else if a.kind == CLAW_MEDIA_ASSET_KIND_INLINE_BYTES {
        AssetV {
            kind: AssetKind::InlineBytes,
            path: None,
            url: None,
            bytes: Some(a.bytes@),
            mime_type: Some(or_empty(c_nonempty(a.mime_type))),
        }
    } else {
        AssetV {
            kind: AssetKind::LocalPath,
            path: Some(or_empty(c_input(a.path))),
            url: None,
            bytes: None,
            mime_type: None,
        }
    }
}

fn text_or_empty(o: Option<String>) -> (r: String)
    ensures
        r@ == or_empty(opt_view(o)),
{
    match o {
        Some(s) => s,
        None => {
            let r = String::new();
            assert(r@ =~= Seq::<char>::empty());
            r
        },
    }
}

fn copy_bytes(b: &Vec<u8>) -> (r: Vec<u8>)
    ensures
        r@ == b@,
{
    let mut out: Vec<u8> = Vec::new();
    let mut i: usize = 0;
    while i < b.len()
        invariant
            i <= b@.len(),
            out@ == b@.take(i as int),
        decreases b@.len() - i,
    {
        out.push(b[i]);
        i = i + 1;
        assert(out@ =~= b@.take(i as int));
    }
    assert(out@ =~= b@);
    out
}

fn build_asset(asset: &claw_media_asset_t) -> (r: MediaAsset)
    ensures
        asset_view(r) == asset_from_c(*asset),
{
    if asset.kind == CLAW_MEDIA_ASSET_KIND_REMOTE_URL {
        MediaAsset {
            kind: AssetKind::RemoteUrl,
            path: None,
            url: Some(text_or_empty(cstr_input(&asset.url))),
            bytes: None,
            mime_type: None,
        }
    } else if asset.kind == CLAW_MEDIA_ASSET_KIND_INLINE_BYTES {
        MediaAsset {
            kind: AssetKind::InlineBytes,
            path: None,
            url: None,
            bytes: Some(copy_bytes(&asset.bytes)),
            mime_type: Some(text_or_empty(cstr_nonempty(&asset.mime_type))),
        }
    } else {
        MediaAsset {
            kind: AssetKind::LocalPath,
            path: Some(text_or_empty(cstr_input(&asset.path))),
            url: None,
            bytes: None,
            mime_type: None,
        }
    }
}

/// The assets that C means, in order.
pub fn build_assets(req: &claw_llm_media_request_t) -> (r: Vec<MediaAsset>)
    ensures
        r@.len() == req.media@.len(),
        forall|i: int| 0 <= i < r@.len() ==> asset_view(#[trigger] r@[i]) == asset_from_c(req.media@[i]),
{
    let mut assets: Vec<MediaAsset> = Vec::new();
    let mut i: usize = 0;
    while i < req.media.len()
        invariant
            i <= req.media@.len(),
            assets@.len() == i,
            forall|j: int| 0 <= j < i ==> asset_view(#[trigger] assets@[j]) == asset_from_c(req.media@[j]),
        decreases req.media@.len() - i,
    {
        assets.push(build_asset(&req.media[i]));
        i = i + 1;
    }
    assets
}

/// The prompts of a request: an empty one is none.
pub fn request_prompts(req: &claw_llm_media_request_t) -> (r: (Option<String>, Option<String>))
    ensures
        opt_view(r.0) == c_nonempty(req.system_prompt),
        opt_view(r.1) == c_nonempty(req.user_prompt),
{
    (cstr_nonempty(&req.system_prompt), cstr_nonempty(&req.user_prompt))
}

/// What the model is asked about media.
#[derive(Debug, PartialEq, Eq)]
pub struct MediaCall {
    pub system_prompt: Option<String>,
    pub user_prompt: Option<String>,
    pub assets: Vec<MediaAsset>,
}

/// What the model of a loop is asked about media; it takes a loop and a request.
pub fn claw_core_llm_infer_media(has_core: bool, request: Option<&claw_llm_media_request_t>) -> (r: Result<
    MediaCall,
    EspErr,
>)
    ensures
        match r {
            Ok(call) => {
                &&& has_core
                &&& request is Some
                &&& opt_view(call.system_prompt) == c_nonempty(request.unwrap().system_prompt)
                &&& opt_view(call.user_prompt) == c_nonempty(request.unwrap().user_prompt)
                &&& call.assets@.len() == request.unwrap().media@.len()
                &&& forall|i: int|
                    0 <= i < call.assets@.len() ==> asset_view(#[trigger] call.assets@[i]) == asset_from_c(
                        request.unwrap().media@[i],
                    )
            },
            Err(e) => e == ESP_ERR_INVALID_ARG && (!has_core || request is None),
        },
{
    if !has_core {
        return Err(ESP_ERR_INVALID_ARG);
    }
    match request {
        Some(req) => {
            let (system_prompt, user_prompt) = request_prompts(req);
            Ok(MediaCall { system_prompt, user_prompt, assets: build_assets(req) })
        },
        None => Err(ESP_ERR_INVALID_ARG),
    }
}

/// A picture that C names by a URL is found there, one that it hands over is its bytes
/// with their type, and any other is a file on disk.
pub proof fn law_picture_is_found_where_c_says(a: claw_media_asset_t, text: Seq<char>)
    ensures
        a.kind == 1 ==> asset_from_c(a).kind is RemoteUrl && (holds_text(a.url, text) ==> asset_from_c(a).url == Some(
            text,
        )),
        a.kind == 2 ==> asset_from_c(a).kind is InlineBytes && asset_from_c(a).bytes == Some(a.bytes@) && (holds_text(
            a.mime_type,
            text,
        ) ==> asset_from_c(a).mime_type == Some(text)),
        a.kind != 1 && a.kind != 2 ==> asset_from_c(a).kind is LocalPath && (holds_text(a.path, text)
            ==> asset_from_c(a).path == Some(text)),
{
    law_text_reads_as_written(a.url, text);
    law_text_reads_as_written(a.path, text);
    law_text_reads_as_written(a.mime_type, text);
    if text.len() == 0 {
        assert(text =~= Seq::<char>::empty());
    }
}

/// A picture from C holds what it held there, each part under its own name.
pub proof fn law_picture_view_shows_its_parts(a: MediaAsset)
    ensures
        asset_view(a).kind == a.kind,
        asset_view(a).path == opt_view(a.path),
        asset_view(a).url == opt_view(a.url),
        asset_view(a).mime_type == opt_view(a.mime_type),
        a.bytes is None <==> asset_view(a).bytes is None,
        a.bytes matches Some(b) ==> asset_view(a).bytes == Some(b@),
{
}

} // verus!
