//! Where a library build comes from: the release it is taken from, the local
//! file it is kept in, and the plan that decides whether to fetch it again.
//!
//! Fetching and writing files stand outside; what a release says is handed
//! in as a `Release`, and what the local file holds as its bytes.

use vstd::prelude::*;
use vstd::string::*;

use crate::text::same_text;

verus! {

/// Which build of the library to provision.
#[derive(PartialEq, Eq, Structural, Clone, Copy, Debug)]
pub enum HachimiVersion {
    Original,
    Edge,
}

pub open spec fn directory_of(v: HachimiVersion) -> Seq<char> {
    match v {
        HachimiVersion::Original => "external/hachimi"@,
        HachimiVersion::Edge => "external/hachimi-edge"@,
    }
}

pub open spec fn file_name_of(v: HachimiVersion) -> Seq<char> {
    match v {
        HachimiVersion::Original => "external/hachimi/hachimi.dll"@,
        HachimiVersion::Edge => "external/hachimi-edge/hachimi.dll"@,
    }
}

pub open spec fn api_url_of(v: HachimiVersion) -> Seq<char> {
    match v {
        HachimiVersion::Original => "https://api.github.com/repos/Hachimi-Hachimi/Hachimi/releases/latest"@,
        HachimiVersion::Edge => "https://api.github.com/repos/kairusds/Hachimi-Edge/releases/latest"@,
    }
}

/// The directory that holds every provisioned build.
pub fn external_directory() -> (r: &'static str)
    ensures
        r@ == "external"@,
{
    "external"
}

/// The name of the release asset that holds the library.
pub fn asset_name() -> (r: &'static str)
    ensures
        r@ == "hachimi.dll"@,
{
    "hachimi.dll"
}

impl HachimiVersion {
    /// The directory the build is kept in.
    pub fn directory(&self) -> (r: &'static str)
        ensures
            r@ == directory_of(*self),
    {
        match self {
            HachimiVersion::Original => "external/hachimi",
            HachimiVersion::Edge => "external/hachimi-edge",
        }
    }

    /// The file the build is kept in.
    pub fn file_name(&self) -> (r: &'static str)
        ensures
            r@ == file_name_of(*self),
    {
        match self {
            HachimiVersion::Original => "external/hachimi/hachimi.dll",
            HachimiVersion::Edge => "external/hachimi-edge/hachimi.dll",
        }
    }

    /// Where the description of the build's latest release is served.
    pub fn api_url(&self) -> (r: &'static str)
        ensures
            r@ == api_url_of(*self),
    {
        match self {
            HachimiVersion::Original => "https://api.github.com/repos/Hachimi-Hachimi/Hachimi/releases/latest",
            HachimiVersion::Edge => "https://api.github.com/repos/kairusds/Hachimi-Edge/releases/latest",
        }
    }
}

// ---------------------------------------------------------------------------
// Releases
// ---------------------------------------------------------------------------

/// One asset of a release, with the fields that are text where the release
/// gives them as text.
pub struct ReleaseAsset {
    pub name: Option<String>,
    pub digest: Option<String>,
    pub download_url: Option<String>,
}

/// A release, with its list of assets where it gives one.
pub struct Release {
    pub assets: Option<Vec<ReleaseAsset>>,
}

/// Why a release cannot provide the library.
#[derive(PartialEq, Eq, Structural, Clone, Copy, Debug)]
pub enum ReleaseError {
    NoAssets,
    AssetNameNotString,
    NoDownloadUrl,
    DllNotFound,
}

impl ReleaseError {
    /// The message shown for the error.
    pub fn message(&self) -> (r: String)
        ensures
            r@ == match *self {
                ReleaseError::NoAssets => "No assets found in release"@,
                ReleaseError::AssetNameNotString => "Asset name is not a string"@,
                ReleaseError::NoDownloadUrl => "No download URL found"@,
                ReleaseError::DllNotFound => "Failed to find hachimi.dll in the latest release."@,
            },
    {
        match self {
            ReleaseError::NoAssets => String::from_str("No assets found in release"),
            ReleaseError::AssetNameNotString => String::from_str("Asset name is not a string"),
            ReleaseError::NoDownloadUrl => String::from_str("No download URL found"),
            ReleaseError::DllNotFound => String::from_str(
                "Failed to find hachimi.dll in the latest release.",
            ),
        }
    }
}

/// The asset is the library.
pub open spec fn is_library_asset(a: ReleaseAsset) -> bool {
    a.name is Some && a.name->Some_0@ == "hachimi.dll"@
}

/// The asset has a text name, and it is another asset.
pub open spec fn is_other_asset(a: ReleaseAsset) -> bool {
    a.name is Some && a.name->Some_0@ != "hachimi.dll"@
}

/// Picks the library's asset: the first asset named like the library. The
/// assets before it must all have a text name.
pub fn select_asset(release: &Release) -> (r: Result<usize, ReleaseError>)
    ensures
        match r {
            Ok(i) => release.assets is Some && i < release.assets->Some_0@.len()
                && is_library_asset(release.assets->Some_0@[i as int]) && forall|j: int|
                0 <= j < i ==> is_other_asset(#[trigger] release.assets->Some_0@[j]),
            Err(ReleaseError::NoAssets) => release.assets is None,
            Err(ReleaseError::AssetNameNotString) => release.assets is Some && exists|i: int|
                0 <= i < release.assets->Some_0@.len()
                    && release.assets->Some_0@[i].name is None
                    && forall|j: int| 0 <= j < i ==> is_other_asset(#[trigger] release.assets->Some_0@[j]),
            Err(ReleaseError::DllNotFound) => release.assets is Some && forall|j: int|
                0 <= j < release.assets->Some_0@.len() ==> is_other_asset(
                    #[trigger] release.assets->Some_0@[j],
                ),
            Err(ReleaseError::NoDownloadUrl) => false,
        },
{
    let assets = match &release.assets {
        Some(a) => a,
        None => {
            return Err(ReleaseError::NoAssets);
        },
    };
    let mut i: usize = 0;
    while i < assets.len()
        invariant
            release.assets == Some(*assets),
            i <= assets@.len(),
            forall|j: int| 0 <= j < i ==> is_other_asset(#[trigger] assets@[j]),
        decreases assets@.len() - i,
    {
        match &assets[i].name {
            None => {
                assert(release.assets->Some_0@[i as int].name is None);
                assert(forall|j: int|
                    0 <= j < i ==> is_other_asset(#[trigger] release.assets->Some_0@[j]));
                return Err(ReleaseError::AssetNameNotString);
            },
            Some(n) => {
                if same_text(n.as_str(), asset_name()) {
                    return Ok(i);
                }
            },
        }
        i = i + 1;
    }
    Err(ReleaseError::DllNotFound)
}

// ---------------------------------------------------------------------------
// Digests
// ---------------------------------------------------------------------------

/// The SHA-256 digest of a byte string, as sha2 computes it.
pub uninterp spec fn sha256_of(data: Seq<u8>) -> Seq<u8>;

/// Relies on sha2's `Sha256::digest`: the SHA-256 digest of the bytes,
/// whose output size is 32 bytes.
#[verifier::external_body]
fn sha256(data: &[u8]) -> (r: Vec<u8>)
    ensures
        r@ == sha256_of(data@),
        r@.len() == 32,
{
    <sha2::Sha256 as sha2::Digest>::digest(data).to_vec()
}

/// The lower-case hexadecimal digit of a value below 16.
pub open spec fn hex_digit(n: nat) -> char {
    if n < 10 {
        (('0' as u8) + n) as char
    } else {
        (('a' as u8) + (n - 10)) as char
    }
}

/// Lower-case hexadecimal, two digits per byte, high digit first.
pub open spec fn hex_lower(b: Seq<u8>) -> Seq<char>
    decreases b.len(),
{
    if b.len() == 0 {
        Seq::empty()
    } else {
        hex_lower(b.drop_last()) + seq![hex_digit((b.last() / 16) as nat), hex_digit((b.last() % 16) as nat)]
    }
}

fn hex_char(n: u8) -> (r: char)
    requires
        n < 16,
    ensures
        r == hex_digit(n as nat),
{
    if n < 10 {
        (48u8 + n) as char
    } else {
        (97u8 + (n - 10)) as char
    }
}

/// The digest text a release gives for a file with this digest.
pub open spec fn digest_text(digest: Seq<u8>) -> Seq<char> {
    "sha256:"@ + hex_lower(digest)
}

/// Whether a release's digest text names this digest.
pub fn digest_is_current(remote: &str, digest: &[u8]) -> (r: bool)
    ensures
        r == (remote@ == digest_text(digest@)),
{
    proof {
        reveal_strlit("sha256:");
    }
    let n = remote.unicode_len();
    if n < 7 || (n - 7) / 2 != digest.len() || (n - 7) % 2 != 0 {
        proof {
            lemma_hex_len(digest@);
        }
        return false;
    }
    if !same_text(remote.substring_char(0, 7), "sha256:") {
        proof {
            if remote@ == digest_text(digest@) {
                assert(remote@.subrange(0, 7) =~= "sha256:"@);
            }
        }
        return false;
    }
    let mut i: usize = 0;
    while i < digest.len()
        invariant
            n == remote@.len(),
            n == 7 + 2 * digest@.len(),
            remote@.subrange(0, 7) == "sha256:"@,
            i <= digest@.len(),
            remote@.subrange(7, 7 + 2 * i) == hex_lower(digest@.subrange(0, i as int)),
        decreases digest@.len() - i,
    {
        let b = digest[i];
        let hi = hex_char(b / 16);
        let lo = hex_char(b % 16);
        let ghost pre = digest@.subrange(0, i + 1);
        assert(pre.drop_last() =~= digest@.subrange(0, i as int));
        if remote.get_char(7 + 2 * i) != hi || remote.get_char(8 + 2 * i) != lo {
            proof {
                lemma_hex_len(digest@);
                if remote@ == digest_text(digest@) {
                    lemma_hex_prefix(digest@, i as int + 1);
                    assert(remote@.subrange(7, 9 + 2 * i) =~= hex_lower(pre));
                    assert(remote@[7 + 2 * i] == remote@.subrange(7, 9 + 2 * i)[2 * i]);
                    assert(remote@[8 + 2 * i] == remote@.subrange(7, 9 + 2 * i)[2 * i + 1]);
                }
            }
            return false;
        }
        proof {
            assert(remote@.subrange(7, 9 + 2 * i) =~= remote@.subrange(7, 7 + 2 * i) + seq![
                remote@[7 + 2 * i],
                remote@[8 + 2 * i],
            ]);
        }
        i = i + 1;
    }
    proof {
        assert(digest@.subrange(0, digest@.len() as int) =~= digest@);
        assert(remote@ =~= remote@.subrange(0, 7) + remote@.subrange(7, n as int));
    }
    true
}

pub proof fn lemma_hex_len(b: Seq<u8>)
    ensures
        hex_lower(b).len() == 2 * b.len(),
    decreases b.len(),
{
    if b.len() > 0 {
        lemma_hex_len(b.drop_last());
    }
}

pub proof fn lemma_hex_prefix(b: Seq<u8>, k: int)
    requires
        0 <= k <= b.len(),
    ensures
        hex_lower(b).subrange(0, 2 * k) == hex_lower(b.subrange(0, k)),
    decreases b.len(),
{
    lemma_hex_len(b);
    if k == b.len() {
        assert(b.subrange(0, k) =~= b);
        assert(hex_lower(b).subrange(0, 2 * k) =~= hex_lower(b));
    } else {
        lemma_hex_prefix(b.drop_last(), k);
        lemma_hex_len(b.drop_last());
        assert(b.drop_last().subrange(0, k) =~= b.subrange(0, k));
        assert(hex_lower(b).subrange(0, 2 * k) =~= hex_lower(b.drop_last()).subrange(0, 2 * k));
    }
}


// ---------------------------------------------------------------------------
// The fetch plan
// ---------------------------------------------------------------------------

/// What to do about the library's asset.
pub enum FetchPlan {
    /// The local file already holds the release's build.
    UpToDate,
    /// Download the build from this address.
    Download(String),
}

pub open spec fn bytes_of(o: Option<&[u8]>) -> Option<Seq<u8>> {
    match o {
        Some(d) => Some(d@),
        None => None,
    }
}

/// The local file is kept where it was checked and its digest is the one
/// the release gives for the asset.
pub open spec fn local_is_current(asset: ReleaseAsset, local_digest: Option<Seq<u8>>) -> bool {
    &&& local_digest is Some
    &&& asset.digest is Some
    &&& asset.digest->Some_0@ == digest_text(local_digest->Some_0)
}

/// The plan for the library's asset.
pub open spec fn plan_is(
    r: Result<FetchPlan, ReleaseError>,
    asset: ReleaseAsset,
    local_digest: Option<Seq<u8>>,
) -> bool {
    if local_is_current(asset, local_digest) {
        r matches Ok(FetchPlan::UpToDate)
    } else {
        match asset.download_url {
            Some(u) => match r {
                Ok(FetchPlan::Download(v)) => v@ == u@,
                _ => false,
            },
            None => r == Err::<FetchPlan, ReleaseError>(ReleaseError::NoDownloadUrl),
        }
    }
}

/// Decides about the asset given the digest of the local file, where that
/// file was checked and could be read.
pub fn plan_with_digest(asset: &ReleaseAsset, local_digest: Option<&[u8]>) -> (r: Result<
    FetchPlan,
    ReleaseError,
>)
    ensures
        plan_is(r, *asset, bytes_of(local_digest)),
{
    if let Some(d) = local_digest {
        if let Some(remote) = &asset.digest {
            if digest_is_current(remote.as_str(), d) {
                return Ok(FetchPlan::UpToDate);
            }
        }
    }
    match &asset.download_url {
        Some(u) => Ok(FetchPlan::Download(u.clone())),
        None => Err(ReleaseError::NoDownloadUrl),
    }
}

/// Decides about the asset given the local file's bytes, where that file
/// was checked and could be read.
pub fn fetch_plan(asset: &ReleaseAsset, existing: Option<&[u8]>) -> (r: Result<
    FetchPlan,
    ReleaseError,
>)
    ensures
        plan_is(
            r,
            *asset,
            match existing {
                Some(c) => Some(sha256_of(c@)),
                None => None,
            },
        ),
{
    match existing {
        Some(c) => {
            let d = sha256(c);
            plan_with_digest(asset, Some(d.as_slice()))
        },
        None => plan_with_digest(asset, None),
    }
}

} // verus!
