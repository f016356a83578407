use zeropi::release::{
    asset_name_matches, fallback_llama_url, llama_download_url, llama_url_from_release, select_llama_asset,
    LlamaUrlError, ReleaseAsset,
};

const CPU: &str = "https://github.com/ggml-org/llama.cpp/releases/download/b3611/llama-b3611-bin-win-x64.zip";
const VULKAN: &str = "https://github.com/ggml-org/llama.cpp/releases/download/b3611/llama-b3611-bin-win-vulkan-x64.zip";

fn asset(name: &str, url: &str) -> ReleaseAsset {
    ReleaseAsset { name: Some(name.to_string()), download_url: Some(url.to_string()) }
}

const RELEASE: &str = r#"{
  "tag_name": "b6000",
  "assets": [
    {"name": "llama-b6000-bin-macos-arm64.zip", "browser_download_url": "u-mac"},
    {"name": "llama-b6000-bin-win-cuda-12.4-x64.zip", "browser_download_url": "u-cuda"},
    {"name": "llama-b6000-bin-win-vulkan-x64.zip", "browser_download_url": 7},
    {"name": "llama-b6000-bin-win-vulkan-x64.zip", "browser_download_url": "u-vulkan"},
    {"name": "llama-b6000-bin-win-arm64.zip", "browser_download_url": "u-arm"},
    {"name": "llama-b6000-bin-win-cpu-x64.zip", "browser_download_url": "u-cpu"}
  ]
}"#;

#[test]
fn asset_names() {
    assert!(asset_name_matches("llama-b1-bin-win-vulkan-x64.zip", "vulkan"));
    assert!(!asset_name_matches("llama-b1-bin-win-cpu-x64.zip", "vulkan"));
    assert!(asset_name_matches("llama-b1-bin-win-cpu-x64.zip", "cpu"));
    assert!(!asset_name_matches("llama-b1-bin-win-sycl-x64.zip", "cpu"));
    assert!(!asset_name_matches("llama-b1-bin-win-openvino-x64.zip", "cpu"));
    assert!(!asset_name_matches("llama-b1-bin-win-cpu-x64.tar.gz", "cpu"));
    assert!(!asset_name_matches("llama-b1-bin-ubuntu-x64.zip", "cpu"));
}

#[test]
fn first_usable_asset_wins() {
    let assets = vec![
        ReleaseAsset { name: None, download_url: Some("u0".to_string()) },
        ReleaseAsset { name: Some("llama-bin-win-vulkan-x64.zip".to_string()), download_url: None },
        asset("llama-bin-win-vulkan-x64.zip", "u2"),
        asset("llama-bin-win-vulkan-x64.zip", "u3"),
    ];
    assert_eq!(select_llama_asset(&assets, "vulkan"), Some("u2".to_string()));
    assert_eq!(select_llama_asset(&assets, "cpu"), None);
}

#[test]
fn url_from_release_listing() {
    assert_eq!(llama_url_from_release(RELEASE.as_bytes(), "vulkan"), Ok("u-vulkan".to_string()));
    assert_eq!(llama_url_from_release(RELEASE.as_bytes(), "cpu"), Ok("u-cpu".to_string()));
}

#[test]
fn release_listing_errors() {
    assert_eq!(llama_url_from_release(b"not json", "cpu"), Err(LlamaUrlError::InvalidResponse));
    assert_eq!(llama_url_from_release(br#"{"message": "rate limited"}"#, "cpu"), Err(LlamaUrlError::NoAssets));
    assert_eq!(llama_url_from_release(br#"{"assets": {}}"#, "cpu"), Err(LlamaUrlError::NoAssets));
    assert_eq!(
        llama_url_from_release(br#"{"assets": [{"name": "x.zip", "browser_download_url": "u"}]}"#, "cpu"),
        Err(LlamaUrlError::NoSuitableAsset)
    );
}

#[test]
fn fallback_urls() {
    assert_eq!(fallback_llama_url("vulkan"), VULKAN);
    assert_eq!(fallback_llama_url("cpu"), CPU);
    assert_eq!(fallback_llama_url("anything"), CPU);
    assert_eq!(llama_download_url(None, "vulkan"), VULKAN);
    assert_eq!(llama_download_url(Some("u".to_string()), "vulkan"), "u");
}
