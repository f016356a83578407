//! Choosing the llama.cpp build to download from a GitHub release listing.

use vstd::prelude::*;
use vstd::string::*;
use crate::text::{contains, contains_text, ends_with_text, has_suffix, same_text};

verus! {

#[verifier::external_type_specification]
#[verifier::external_body]
pub struct ExJsonError(serde_json::Error);

/// One asset of a release: its file name and download URL, each present only
/// when the release listing gives it as a JSON string.
pub struct ReleaseAsset {
    pub name: Option<String>,
    pub download_url: Option<String>,
}

/// An asset as a mathematical value: (name, download URL).
pub open spec fn asset_info(a: ReleaseAsset) -> (Option<Seq<char>>, Option<Seq<char>>) {
    (
        match a.name {
            Some(n) => Some(n@),
            None => None,
        },
        match a.download_url {
            Some(u) => Some(u@),
            None => None,
        },
    )
}

/// The mathematical values of a list of assets.
pub open spec fn asset_infos(assets: Seq<ReleaseAsset>) -> Seq<(Option<Seq<char>>, Option<Seq<char>>)> {
    assets.map_values(|a: ReleaseAsset| asset_info(a))
}

/// What `serde_json::from_slice` makes of a release listing `body`, read as
/// far as this library needs it: `None` when the body is not JSON;
/// `Some(None)` when it has no `assets` array; otherwise, for each element of
/// `assets`, its `name` and `browser_download_url` where they are strings.
pub uninterp spec fn release_assets_in(body: Seq<u8>) -> Option<Option<Seq<(Option<Seq<char>>, Option<Seq<char>>)>>>;

/// Calls `serde_json::from_slice` on the body of a GitHub release listing and
/// reads the `assets` array, and in each of its elements the `name` and
/// `browser_download_url` strings. Returns the parser's error when the body is
/// not JSON. The contract ties the result to the body through a name; it does
/// not restate JSON's grammar.
#[verifier::external_body]
fn read_release_assets(body: &[u8]) -> (res: Result<Option<Vec<ReleaseAsset>>, serde_json::Error>)
    ensures
        match res {
            Ok(Some(v)) => release_assets_in(body@) == Some(Some(asset_infos(v@))),
            Ok(None) => release_assets_in(body@) == Some(None::<Seq<(Option<Seq<char>>, Option<Seq<char>>)>>),
            Err(_) => release_assets_in(body@) is None,
        },
{
    let value: serde_json::Value = serde_json::from_slice(body)?;
    Ok(value.get("assets").and_then(|a| a.as_array()).map(|list| list.iter().map(|a| ReleaseAsset {
        name: a.get("name").and_then(|n| n.as_str()).map(|s| s.to_string()),
        download_url: a.get("browser_download_url").and_then(|u| u.as_str()).map(|s| s.to_string()),
    }).collect()))
}

/// An asset name is a Windows x64 zip build for `backend`: a Vulkan build for
/// `vulkan`, and for any other backend a plain CPU build (no Vulkan, CUDA,
/// SYCL, OpenVINO or ARM64 build).
pub open spec fn asset_name_fits(name: Seq<char>, backend: Seq<char>) -> bool {
    &&& contains_text(name, "bin-win"@)
    &&& contains_text(name, "x64"@)
    &&& has_suffix(name, ".zip"@)
    &&& if backend == "vulkan"@ {
        contains_text(name, "vulkan"@)
    } else {
        &&& !contains_text(name, "vulkan"@)
        &&& !contains_text(name, "cuda"@)
        &&& !contains_text(name, "sycl"@)
        &&& !contains_text(name, "openvino"@)
        &&& !contains_text(name, "arm64"@)
    }
}

/// An asset can be taken: it has a fitting name and a download URL.
pub open spec fn asset_usable(a: (Option<Seq<char>>, Option<Seq<char>>), backend: Seq<char>) -> bool {
    a.0 is Some && asset_name_fits(a.0->0, backend) && a.1 is Some
}

/// The download URL of the first usable asset, in listing order.
pub open spec fn pick_asset(assets: Seq<(Option<Seq<char>>, Option<Seq<char>>)>, backend: Seq<char>) -> Option<Seq<char>>
    decreases assets.len(),
{
    if assets.len() == 0 {
        None
    } else if asset_usable(assets[0], backend) {
        assets[0].1
    } else {
        pick_asset(assets.drop_first(), backend)
    }
}

/// Whether a release asset named `name` is the build wanted for `backend`.
pub fn asset_name_matches(name: &str, backend: &str) -> (res: bool)
    ensures
        res == asset_name_fits(name@, backend@),
        res ==> contains_text(name@, "bin-win"@) && contains_text(name@, "x64"@) && has_suffix(name@, ".zip"@),
        res && backend@ == "vulkan"@ ==> contains_text(name@, "vulkan"@),
        res && backend@ != "vulkan"@ ==> !contains_text(name@, "vulkan"@) && !contains_text(name@, "cuda"@)
            && !contains_text(name@, "sycl"@) && !contains_text(name@, "openvino"@) && !contains_text(name@, "arm64"@),
{
    if !(contains(name, "bin-win") && contains(name, "x64") && ends_with_text(name, ".zip")) {
        return false;
    }
    if same_text(backend, "vulkan") {
        contains(name, "vulkan")
    } else {
        !contains(name, "vulkan") && !contains(name, "cuda") && !contains(name, "sycl")
            && !contains(name, "openvino") && !contains(name, "arm64")
    }
}

/// The download URL of the first asset that is the wanted build for `backend`
/// and has a URL; `None` when no asset is.
pub fn select_llama_asset(assets: &Vec<ReleaseAsset>, backend: &str) -> (res: Option<String>)
    ensures
        match res {
            Some(u) => pick_asset(asset_infos(assets@), backend@) == Some(u@),
            None => pick_asset(asset_infos(assets@), backend@) is None,
        },
        res matches Some(u) ==> exists|i: int|
            0 <= i < assets@.len() && (#[trigger] assets@[i]).name is Some && assets@[i].download_url is Some
                && assets@[i].download_url->0@ == u@ && contains_text(assets@[i].name->0@, "bin-win"@)
                && contains_text(assets@[i].name->0@, "x64"@) && has_suffix(assets@[i].name->0@, ".zip"@)
                && (backend@ == "vulkan"@ ==> contains_text(assets@[i].name->0@, "vulkan"@)),
{
    let ghost infos = asset_infos(assets@);
    let mut i: usize = 0;
    assert(infos.skip(0) =~= infos);
    while i < assets.len()
        invariant
            i <= assets@.len(),
            infos == asset_infos(assets@),
            pick_asset(infos, backend@) == pick_asset(infos.skip(i as int), backend@),
        decreases assets@.len() - i,
    {
        assert(infos.skip(i as int)[0] == asset_info(assets@[i as int]));
        assert(infos.skip(i as int).drop_first() =~= infos.skip(i + 1));
        let asset = &assets[i];
        match &asset.name {
            Some(name) => {
                if asset_name_matches(name.as_str(), backend) {
                    match &asset.download_url {
                        Some(url) => {
                            assert(assets@[i as int].name is Some && assets@[i as int].download_url is Some);
                            return Some(url.clone());
                        },
                        None => {},
                    }
                }
            },
            None => {},
        }
        i = i + 1;
    }
    assert(infos.skip(i as int) =~= Seq::<(Option<Seq<char>>, Option<Seq<char>>)>::empty());
    None
}

/// Why no llama.cpp download URL came out of a release listing.
#[derive(Debug, PartialEq, Eq, Structural)]
pub enum LlamaUrlError {
    /// The listing is not JSON.
    InvalidResponse,
    /// The listing has no `assets` array.
    NoAssets,
    /// No asset is the wanted build for the backend.
    NoSuitableAsset,
}

/// The download URL for `backend` in a GitHub release listing `body`.
pub fn llama_url_from_release(body: &[u8], backend: &str) -> (res: Result<String, LlamaUrlError>)
    ensures
        match release_assets_in(body@) {
            None => res == Err::<String, LlamaUrlError>(LlamaUrlError::InvalidResponse),
            Some(None) => res == Err::<String, LlamaUrlError>(LlamaUrlError::NoAssets),
            Some(Some(assets)) => match pick_asset(assets, backend@) {
                Some(u) => res is Ok && res->Ok_0@ == u,
                None => res == Err::<String, LlamaUrlError>(LlamaUrlError::NoSuitableAsset),
            },
        },
        res is Ok ==> (release_assets_in(body@) matches Some(Some(assets)) && exists|i: int|
            0 <= i < assets.len() && (#[trigger] assets[i]).0 is Some && assets[i].1 == Some(res->Ok_0@)
                && contains_text(assets[i].0->0, "bin-win"@) && contains_text(assets[i].0->0, "x64"@)
                && has_suffix(assets[i].0->0, ".zip"@)
                && (backend@ == "vulkan"@ ==> contains_text(assets[i].0->0, "vulkan"@))),
{
    match read_release_assets(body) {
        Err(_) => Err(LlamaUrlError::InvalidResponse),
        Ok(None) => Err(LlamaUrlError::NoAssets),
        Ok(Some(assets)) => match select_llama_asset(&assets, backend) {
            Some(u) => {
                proof {
                    picked_asset_is_windows_build(asset_infos(assets@), backend@, u@);
                }
                Ok(u)
            },
            None => Err(LlamaUrlError::NoSuitableAsset),
        },
    }
}

/// The pinned CPU build used when the latest release cannot be queried.
pub open spec fn fallback_cpu_url() -> Seq<char> {
    "https://github.com/ggml-org/llama.cpp/releases/download/b3611/llama-b3611-bin-win-x64.zip"@
}

/// The pinned Vulkan build used when the latest release cannot be queried.
pub open spec fn fallback_vulkan_url() -> Seq<char> {
    "https://github.com/ggml-org/llama.cpp/releases/download/b3611/llama-b3611-bin-win-vulkan-x64.zip"@
}

/// The pinned build for `backend`.
pub open spec fn fallback_url(backend: Seq<char>) -> Seq<char> {
    if backend == "vulkan"@ {
        fallback_vulkan_url()
    } else {
        fallback_cpu_url()
    }
}

/// The pinned llama.cpp build for `backend`.
pub fn fallback_llama_url(backend: &str) -> (res: String)
    ensures
        res@ == fallback_url(backend@),
        backend@ == "vulkan"@ ==> res@
            == "https://github.com/ggml-org/llama.cpp/releases/download/b3611/llama-b3611-bin-win-vulkan-x64.zip"@,
        backend@ != "vulkan"@ ==> res@
            == "https://github.com/ggml-org/llama.cpp/releases/download/b3611/llama-b3611-bin-win-x64.zip"@,
{
    if same_text(backend, "vulkan") {
        String::from_str("https://github.com/ggml-org/llama.cpp/releases/download/b3611/llama-b3611-bin-win-vulkan-x64.zip")
    } else {
        String::from_str("https://github.com/ggml-org/llama.cpp/releases/download/b3611/llama-b3611-bin-win-x64.zip")
    }
}

/// The URL to download the backend from: the latest release's build when the
/// query found one, the pinned build otherwise.
pub fn llama_download_url(latest: Option<String>, backend: &str) -> (res: String)
    ensures
        match latest {
            Some(u) => res@ == u@,
            None => res@ == fallback_url(backend@),
        },
        latest is None && backend@ == "vulkan"@ ==> res@
            == "https://github.com/ggml-org/llama.cpp/releases/download/b3611/llama-b3611-bin-win-vulkan-x64.zip"@,
        latest is None && backend@ != "vulkan"@ ==> res@
            == "https://github.com/ggml-org/llama.cpp/releases/download/b3611/llama-b3611-bin-win-x64.zip"@,
{
    match latest {
        Some(u) => u,
        None => fallback_llama_url(backend),
    }
}

/// Whatever URL the selection takes comes from an asset that is the wanted
/// build for the backend, and no earlier asset was usable.
pub proof fn picked_asset_fits(assets: Seq<(Option<Seq<char>>, Option<Seq<char>>)>, backend: Seq<char>, url: Seq<char>)
    requires
        pick_asset(assets, backend) == Some(url),
    ensures
        exists|i: int|
            0 <= i < assets.len() && #[trigger] asset_usable(assets[i], backend) && assets[i].1 == Some(url)
                && forall|j: int| 0 <= j < i ==> !asset_usable(#[trigger] assets[j], backend),
    decreases assets.len(),
{
    if asset_usable(assets[0], backend) {
        assert(asset_usable(assets[0], backend) && assets[0].1 == Some(url));
    } else {
        let rest = assets.drop_first();
        picked_asset_fits(rest, backend, url);
        let i = choose|i: int|
            0 <= i < rest.len() && #[trigger] asset_usable(rest[i], backend) && rest[i].1 == Some(url)
                && forall|j: int| 0 <= j < i ==> !asset_usable(#[trigger] rest[j], backend);
        assert(assets[i + 1] == rest[i]);
        assert forall|j: int| 0 <= j < i + 1 implies !asset_usable(#[trigger] assets[j], backend) by {
            if j > 0 {
                assert(assets[j] == rest[j - 1]);
            }
        }
        assert(asset_usable(assets[i + 1], backend));
    }
}

/// When no asset is usable, the selection finds nothing.
pub proof fn no_usable_asset_picks_nothing(assets: Seq<(Option<Seq<char>>, Option<Seq<char>>)>, backend: Seq<char>)
    requires
        forall|i: int| 0 <= i < assets.len() ==> !asset_usable(#[trigger] assets[i], backend),
    ensures
        pick_asset(assets, backend) is None,
    decreases assets.len(),
{
    if assets.len() > 0 {
        let rest = assets.drop_first();
        assert forall|i: int| 0 <= i < rest.len() implies !asset_usable(#[trigger] rest[i], backend) by {
            assert(rest[i] == assets[i + 1]);
        }
        no_usable_asset_picks_nothing(rest, backend);
    }
}

/// Every name accepted for any backend is a Windows x64 zip build; for
/// `vulkan` it is a Vulkan build, for any other backend it is none of the
/// Vulkan, CUDA, SYCL, OpenVINO or ARM64 builds.
pub proof fn fitting_names_are_windows_builds(name: Seq<char>, backend: Seq<char>)
    requires
        asset_name_fits(name, backend),
    ensures
        contains_text(name, "bin-win"@),
        contains_text(name, "x64"@),
        has_suffix(name, ".zip"@),
        backend == "vulkan"@ ==> contains_text(name, "vulkan"@),
        backend != "vulkan"@ ==> !contains_text(name, "vulkan"@) && !contains_text(name, "cuda"@)
            && !contains_text(name, "sycl"@) && !contains_text(name, "openvino"@) && !contains_text(name, "arm64"@),
{
}

/// The URL the selection takes belongs to a listed asset whose name is a
/// Windows x64 zip build (a Vulkan one for `vulkan`).
pub proof fn picked_asset_is_windows_build(
    assets: Seq<(Option<Seq<char>>, Option<Seq<char>>)>,
    backend: Seq<char>,
    url: Seq<char>,
)
    requires
        pick_asset(assets, backend) == Some(url),
    ensures
        exists|i: int|
            0 <= i < assets.len() && (#[trigger] assets[i]).0 is Some && assets[i].1 == Some(url)
                && contains_text(assets[i].0->0, "bin-win"@) && contains_text(assets[i].0->0, "x64"@)
                && has_suffix(assets[i].0->0, ".zip"@)
                && (backend == "vulkan"@ ==> contains_text(assets[i].0->0, "vulkan"@)),
{
    picked_asset_fits(assets, backend, url);
    let i = choose|i: int|
        0 <= i < assets.len() && #[trigger] asset_usable(assets[i], backend) && assets[i].1 == Some(url)
            && forall|j: int| 0 <= j < i ==> !asset_usable(#[trigger] assets[j], backend);
    fitting_names_are_windows_builds(assets[i].0->0, backend);
    assert((assets[i]).0 is Some && assets[i].1 == Some(url));
}

} // verus!
