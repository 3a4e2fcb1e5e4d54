use claw_core::errname::{ESP_ERR_INVALID_ARG, ESP_ERR_INVALID_SIZE, ESP_ERR_NOT_FOUND, ESP_ERR_NOT_SUPPORTED};
use claw_core::llm::media::{image_mime_from_path, media_size_accepted, prepare_asset, MediaFile};
use claw_core::llm::types::{AssetKind, MediaAsset, ModelProfile, PreparedKind};

fn profile() -> ModelProfile {
    ModelProfile { supports_vision: true, ..Default::default() }
}

fn local(path: &str) -> MediaAsset {
    MediaAsset { kind: AssetKind::LocalPath, path: Some(path.into()), url: None, bytes: None, mime_type: None }
}

#[test]
fn remote_url_passthrough() {
    let asset = MediaAsset {
        kind: AssetKind::RemoteUrl,
        path: None,
        url: Some("https://example.com/a.png".into()),
        bytes: None,
        mime_type: None,
    };
    let p = prepare_asset(&asset, &profile(), 1024, &None).unwrap();
    assert_eq!(p.kind, PreparedKind::RemoteUrl);
    assert_eq!(p.payload, "https://example.com/a.png");
}

#[test]
fn local_path_data_url() {
    let content = b"\x89PNG\r\n\x1a\nABCDE".to_vec();
    let file = Some(MediaFile { size: content.len(), content: Some(content) });
    let p = prepare_asset(&local("/tmp/claw_media_test.png"), &profile(), 1024, &file).unwrap();
    assert_eq!(p.kind, PreparedKind::DataUrl);
    assert!(p.payload.starts_with("data:image/png;base64,"));
    assert_eq!(p.payload, "data:image/png;base64,iVBORw0KGgpBQkNERQ==");
    assert_eq!(p.mime_type, "image/png");
    assert_eq!(p.original_size, 13);
}

#[test]
fn rejects_relative_path() {
    let e = prepare_asset(&local("rel/a.png"), &profile(), 1024, &None).unwrap_err();
    assert_eq!(e.err, ESP_ERR_INVALID_ARG);
}

#[test]
fn rejects_unknown_extension() {
    let e = prepare_asset(&local("/tmp/a.bmp"), &profile(), 1024, &None).unwrap_err();
    assert_eq!(e.err, ESP_ERR_NOT_SUPPORTED);
}

#[test]
fn files_must_be_there_and_fit() {
    let missing = prepare_asset(&local("/a.jpg"), &profile(), 4, &None).unwrap_err();
    assert_eq!(missing.err, ESP_ERR_NOT_FOUND);
    let empty = Some(MediaFile { size: 0, content: Some(Vec::new()) });
    assert_eq!(prepare_asset(&local("/a.jpg"), &profile(), 4, &empty).unwrap_err().err, ESP_ERR_INVALID_SIZE);
    let large = Some(MediaFile { size: 5, content: Some(vec![0; 5]) });
    assert_eq!(prepare_asset(&local("/a.jpg"), &profile(), 4, &large).unwrap_err().err, ESP_ERR_INVALID_SIZE);
    let exact = Some(MediaFile { size: 4, content: Some(vec![0; 4]) });
    assert_eq!(
        prepare_asset(&local("/a.jpg"), &profile(), 4, &exact).unwrap().payload,
        "data:image/jpeg;base64,AAAAAA=="
    );
    assert!(media_size_accepted(4, 4) && !media_size_accepted(5, 4) && !media_size_accepted(0, 4));
}

#[test]
fn assets_the_profile_cannot_take_are_refused() {
    let inline = MediaAsset {
        kind: AssetKind::InlineBytes,
        path: None,
        url: None,
        bytes: Some(vec![1]),
        mime_type: Some("image/png".into()),
    };
    assert_eq!(prepare_asset(&inline, &profile(), 4, &None).unwrap_err().err, ESP_ERR_NOT_SUPPORTED);
    let remote_only = ModelProfile { image_remote_url_only: true, ..profile() };
    assert_eq!(prepare_asset(&local("/a.png"), &remote_only, 4, &None).unwrap_err().err, ESP_ERR_NOT_SUPPORTED);
    let no_url = MediaAsset { kind: AssetKind::RemoteUrl, path: None, url: Some(String::new()), bytes: None, mime_type: None };
    assert_eq!(prepare_asset(&no_url, &profile(), 4, &None).unwrap_err().err, ESP_ERR_INVALID_ARG);
}

#[test]
fn extensions_are_read_without_case() {
    assert_eq!(image_mime_from_path("/a/b.PNG"), Some("image/png"));
    assert_eq!(image_mime_from_path("/a/b.JpEg"), Some("image/jpeg"));
    assert_eq!(image_mime_from_path("/a/b.webp"), Some("image/webp"));
    assert_eq!(image_mime_from_path("/a/b"), None);
}
