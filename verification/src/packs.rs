//! OCR language packs: the catalogue of downloadable recognition models, when a
//! pack counts as downloaded, what a download still has to fetch and from
//! where, and when a fetched file is accepted.
//!
//! A pack is one recognition model plus its dictionary; the detection model is
//! shared with the built-in languages. Each file's exact size is known, and a
//! file counts only when its size matches. Where the catalogue carries a
//! published SHA-256 digest for a file, a downloaded file is also checked
//! against it and discarded when the digest differs; the catalogue carries
//! none yet, so today files are accepted by size.
use vstd::prelude::*;

use sha2::Digest;

verus! {

/// The built-in language (Simplified/Traditional Chinese, English, Japanese,
/// pinyin), shipped with the app and never deleted.
pub const BUILTIN_LANGUAGE_ID: &'static str = "zhEn";

/// Main download source.
pub const GITHUB_BASE: &'static str = "https://github.com/GreatV/oar-ocr/releases/download/v0.3.0";

/// Mirror tried when the main source fails.
pub const MODELSCOPE_BASE: &'static str = "https://www.modelscope.cn/models/greatv/oar-ocr/resolve/master";

/// A downloadable language pack.
#[derive(Debug, Clone, Copy)]
pub struct LanguagePack {
    /// Stable identifier, used in settings and as the directory name.
    pub id: &'static str,
    pub rec_file: &'static str,
    pub rec_bytes: u64,
    pub dict_file: &'static str,
    pub dict_bytes: u64,
    /// Published SHA-256 digest of the model file, when the catalogue has one.
    pub rec_sha256: Option<[u8; 32]>,
    /// Published SHA-256 digest of the dictionary file, when the catalogue has one.
    pub dict_sha256: Option<[u8; 32]>,
}

/// Everything a catalogue entry says: identifier, model file and size,
/// dictionary file and size, model digest, dictionary digest.
pub type PackSpec = (Seq<char>, Seq<char>, u64, Seq<char>, u64, Option<[u8; 32]>, Option<[u8; 32]>);

impl View for LanguagePack {
    type V = PackSpec;

    open spec fn view(&self) -> PackSpec {
        (self.id@, self.rec_file@, self.rec_bytes, self.dict_file@, self.dict_bytes, self.rec_sha256, self.dict_sha256)
    }
}

/// The state of one pack, as the settings page shows it.
pub struct PackStatus {
    pub id: String,
    pub downloaded: bool,
    pub total_bytes: u64,
}

/// Why a pack operation failed.
#[derive(Debug, Clone, Copy, PartialEq, Eq, Structural)]
pub enum PackError {
    /// No pack has the requested identifier.
    UnknownPack,
    /// A downloaded file does not have the expected size and was discarded.
    SizeMismatch { written: u64, expected: u64 },
    /// A downloaded file does not have the published digest (corrupt or
    /// tampered) and was discarded.
    HashMismatch,
}

/// One file a download still has to fetch: its name, its exact size, how
/// many bytes of the pack come before it (for progress reporting), and its
/// published digest, if any.
#[derive(Debug, Clone, Copy)]
pub struct FetchStep {
    pub file: &'static str,
    pub expected: u64,
    pub base: u64,
    pub sha256: Option<[u8; 32]>,
}

/// Number of packs in the catalogue.
pub open spec fn pack_count() -> nat {
    5
}

/// The `i`-th pack of the catalogue: identifier, model file and size,
/// dictionary file and size.
pub open spec fn pack_spec(i: int) -> PackSpec {
    if i == 0 {
        ("korean"@, "korean_pp-ocrv5_mobile_rec.onnx"@, 13_446_374, "ppocrv5_korean_dict.txt"@, 47_451, None, None)
    } else if i == 1 {
        ("latin"@, "latin_pp-ocrv5_mobile_rec.onnx"@, 8_069_614, "ppocrv5_latin_dict.txt"@, 2_616, None, None)
    } else if i == 2 {
        ("eslav"@, "eslav_pp-ocrv5_mobile_rec.onnx"@, 7_915_218, "ppocrv5_eslav_dict.txt"@, 1_663, None, None)
    } else if i == 3 {
        ("th"@, "th_pp-ocrv5_mobile_rec.onnx"@, 7_918_606, "ppocrv5_th_dict.txt"@, 1_767, None, None)
    } else {
        ("arabic"@, "arabic_pp-ocrv5_mobile_rec.onnx"@, 8_026_538, "ppocrv5_arabic_dict.txt"@, 2_369, None, None)
    }
}

/// The catalogue position of the first pack called `id`, if any.
pub open spec fn pack_index(id: Seq<char>) -> Option<int> {
    if pack_spec(0).0 == id {
        Some(0)
    } else if pack_spec(1).0 == id {
        Some(1)
    } else if pack_spec(2).0 == id {
        Some(2)
    } else if pack_spec(3).0 == id {
        Some(3)
    } else if pack_spec(4).0 == id {
        Some(4)
    } else {
        None
    }
}

/// Whether the files on disk (their sizes, when they exist) make `pack` complete.
pub open spec fn spec_is_downloaded(pack: PackSpec, rec_len: Option<u64>, dict_len: Option<u64>) -> bool {
    rec_len == Some(pack.2) && dict_len == Some(pack.4)
}

/// The catalogue of downloadable packs.
pub fn language_packs() -> (packs: Vec<LanguagePack>)
    ensures
        packs@.len() == pack_count(),
        forall|i: int| 0 <= i < pack_count() ==> #[trigger] packs@[i]@ == pack_spec(i),
{
    let mut packs: Vec<LanguagePack> = Vec::new();
    packs.push(LanguagePack {
        id: "korean",
        rec_file: "korean_pp-ocrv5_mobile_rec.onnx",
        rec_bytes: 13_446_374,
        dict_file: "ppocrv5_korean_dict.txt",
        dict_bytes: 47_451,
        rec_sha256: None,
        dict_sha256: None,
    });
    packs.push(LanguagePack {
        id: "latin",
        rec_file: "latin_pp-ocrv5_mobile_rec.onnx",
        rec_bytes: 8_069_614,
        dict_file: "ppocrv5_latin_dict.txt",
        dict_bytes: 2_616,
        rec_sha256: None,
        dict_sha256: None,
    });
    packs.push(LanguagePack {
        id: "eslav",
        rec_file: "eslav_pp-ocrv5_mobile_rec.onnx",
        rec_bytes: 7_915_218,
        dict_file: "ppocrv5_eslav_dict.txt",
        dict_bytes: 1_663,
        rec_sha256: None,
        dict_sha256: None,
    });
    packs.push(LanguagePack {
        id: "th",
        rec_file: "th_pp-ocrv5_mobile_rec.onnx",
        rec_bytes: 7_918_606,
        dict_file: "ppocrv5_th_dict.txt",
        dict_bytes: 1_767,
        rec_sha256: None,
        dict_sha256: None,
    });
    packs.push(LanguagePack {
        id: "arabic",
        rec_file: "arabic_pp-ocrv5_mobile_rec.onnx",
        rec_bytes: 8_026_538,
        dict_file: "ppocrv5_arabic_dict.txt",
        dict_bytes: 2_369,
        rec_sha256: None,
        dict_sha256: None,
    });
    packs
}

impl LanguagePack {
    /// Bytes of the model and the dictionary together.
    pub fn total_bytes(&self) -> (total: u64)
        requires
            self.rec_bytes + self.dict_bytes <= u64::MAX,
        ensures
            total == self.rec_bytes + self.dict_bytes,
    {
        self.rec_bytes + self.dict_bytes
    }
}

/// The pack called `id`; `UnknownPack` when the catalogue has none.
pub fn find(id: &str) -> (pack: Result<LanguagePack, PackError>)
    ensures
        pack_index(id@) is None ==> pack == Err::<LanguagePack, PackError>(PackError::UnknownPack),
        pack_index(id@) matches Some(i) ==> (pack matches Ok(p) && p@ == pack_spec(i)),
{
    let packs = language_packs();
    let wanted = id.to_owned();
    let mut i: usize = 0;
    while i < packs.len()
        invariant
            packs@.len() == pack_count(),
            forall|k: int| 0 <= k < pack_count() ==> #[trigger] packs@[k]@ == pack_spec(k),
            wanted@ == id@,
            i <= packs@.len(),
            forall|j: int| 0 <= j < i ==> #[trigger] pack_spec(j).0 != id@,
        decreases packs.len() - i,
    {
        assert(packs@[i as int]@ == pack_spec(i as int));
        let candidate = packs[i].id.to_owned();
        if candidate == wanted {
            assert(pack_spec(i as int).0 == id@);
            assert(pack_index(id@) == Some(i as int)) by {
                assert(forall|j: int| 0 <= j < i ==> #[trigger] pack_spec(j).0 != id@);
                if i > 0 {
                    assert(pack_spec(0).0 != id@);
                }
                if i > 1 {
                    assert(pack_spec(1).0 != id@);
                }
                if i > 2 {
                    assert(pack_spec(2).0 != id@);
                }
                if i > 3 {
                    assert(pack_spec(3).0 != id@);
                }
            }
            return Ok(packs[i]);
        }
        i = i + 1;
    }
    assert(pack_index(id@) is None) by {
        assert(pack_spec(0).0 != id@);
        assert(pack_spec(1).0 != id@);
        assert(pack_spec(2).0 != id@);
        assert(pack_spec(3).0 != id@);
        assert(pack_spec(4).0 != id@);
    }
    Err(PackError::UnknownPack)
}

/// Whether `pack` is complete on disk, given the sizes of its model and
/// dictionary files (`None` for a file that cannot be read).
pub fn is_downloaded(pack: &LanguagePack, rec_len: Option<u64>, dict_len: Option<u64>) -> (done: bool)
    ensures
        done == spec_is_downloaded(pack@, rec_len, dict_len),
{
    let rec_ok = match rec_len {
        Some(n) => n == pack.rec_bytes,
        None => false,
    };
    let dict_ok = match dict_len {
        Some(n) => n == pack.dict_bytes,
        None => false,
    };
    rec_ok && dict_ok
}

/// The status of every pack, in catalogue order; `sizes[i]` holds the sizes
/// found on disk for the `i`-th pack's model and dictionary (a pack with no
/// entry counts as not downloaded).
pub fn list(sizes: &Vec<(Option<u64>, Option<u64>)>) -> (statuses: Vec<PackStatus>)
    ensures
        statuses@.len() == pack_count(),
        forall|i: int| 0 <= i < pack_count() ==> {
            &&& (#[trigger] statuses@[i]).id@ == pack_spec(i).0
            &&& statuses@[i].total_bytes == pack_spec(i).2 + pack_spec(i).4
            &&& statuses@[i].downloaded == (i < sizes@.len() && spec_is_downloaded(
                pack_spec(i),
                sizes@[i].0,
                sizes@[i].1,
            ))
        },
{
    let packs = language_packs();
    let mut statuses: Vec<PackStatus> = Vec::new();
    let mut i: usize = 0;
    while i < packs.len()
        invariant
            packs@.len() == pack_count(),
            forall|k: int| 0 <= k < pack_count() ==> #[trigger] packs@[k]@ == pack_spec(k),
            i <= packs@.len(),
            statuses@.len() == i,
            forall|k: int| 0 <= k < i ==> {
                &&& (#[trigger] statuses@[k]).id@ == pack_spec(k).0
                &&& statuses@[k].total_bytes == pack_spec(k).2 + pack_spec(k).4
                &&& statuses@[k].downloaded == (k < sizes@.len() && spec_is_downloaded(
                    pack_spec(k),
                    sizes@[k].0,
                    sizes@[k].1,
                ))
            },
        decreases packs.len() - i,
    {
        let pack = packs[i];
        assert(pack@ == pack_spec(i as int));
        let downloaded = if i < sizes.len() {
            is_downloaded(&pack, sizes[i].0, sizes[i].1)
        } else {
            false
        };
        statuses.push(PackStatus { id: pack.id.to_owned(), downloaded, total_bytes: pack.total_bytes() });
        i = i + 1;
    }
    statuses
}

/// The files a download of `pack` still has to fetch, model first: a file
/// whose size on disk already matches is skipped. Each step carries the bytes
/// of the pack that come before it.
pub fn download_plan(pack: &LanguagePack, rec_len: Option<u64>, dict_len: Option<u64>) -> (steps: Vec<FetchStep>)
    ensures
        steps@.len() == (if rec_len == Some(pack.rec_bytes) { 0int } else { 1int }) + (if dict_len == Some(
            pack.dict_bytes,
        ) {
            0int
        } else {
            1int
        }),
        rec_len != Some(pack.rec_bytes) ==> steps@[0].file@ == pack.rec_file@ && steps@[0].expected
            == pack.rec_bytes && steps@[0].base == 0 && steps@[0].sha256 == pack.rec_sha256,
        dict_len != Some(pack.dict_bytes) ==> steps@.last().file@ == pack.dict_file@
            && steps@.last().expected == pack.dict_bytes && steps@.last().base == pack.rec_bytes
            && steps@.last().sha256 == pack.dict_sha256,
{
    let mut steps: Vec<FetchStep> = Vec::new();
    let rec_ok = match rec_len {
        Some(n) => n == pack.rec_bytes,
        None => false,
    };
    if !rec_ok {
        steps.push(FetchStep {
            file: pack.rec_file,
            expected: pack.rec_bytes,
            base: 0,
            sha256: pack.rec_sha256,
        });
    }
    let dict_ok = match dict_len {
        Some(n) => n == pack.dict_bytes,
        None => false,
    };
    if !dict_ok {
        steps.push(FetchStep {
            file: pack.dict_file,
            expected: pack.dict_bytes,
            base: pack.rec_bytes,
            sha256: pack.dict_sha256,
        });
    }
    steps
}

/// Where `file` can be downloaded from, in the order to try: the main source,
/// then the mirror.
pub fn source_urls(file: &str) -> (urls: Vec<String>)
    ensures
        urls@.len() == 2,
        urls@[0]@ == GITHUB_BASE@ + "/"@ + file@,
        urls@[1]@ == MODELSCOPE_BASE@ + "/"@ + file@,
{
    let mut main = GITHUB_BASE.to_owned();
    main.append("/");
    main.append(file);
    let mut mirror = MODELSCOPE_BASE.to_owned();
    mirror.append("/");
    mirror.append(file);
    let mut urls: Vec<String> = Vec::new();
    urls.push(main);
    urls.push(mirror);
    urls
}

/// What to do next while fetching one file.
pub enum SourceStep {
    /// Fetch the file from this URL.
    Try(String),
    /// The last attempt succeeded: the file is done.
    Done,
    /// Every source failed: give up with the last error.
    GiveUp,
}

/// The sources of one file still to try: the main source, then the mirror.
pub struct SourceFallback {
    urls: Vec<String>,
    tried: usize,
}

impl SourceFallback {
    /// The URLs of the file, in the order they are tried.
    pub closed spec fn urls(&self) -> Seq<Seq<char>> {
        self.urls@.map_values(|u: String| u@)
    }

    /// How many of them were tried so far.
    pub closed spec fn tried(&self) -> nat {
        self.tried as nat
    }

    /// The sources of `file`, none tried yet.
    pub fn new(file: &str) -> (sources: Self)
        ensures
            sources.urls() == seq![GITHUB_BASE@ + "/"@ + file@, MODELSCOPE_BASE@ + "/"@ + file@],
            sources.tried() == 0,
    {
        let urls = source_urls(file);
        let sources = SourceFallback { urls, tried: 0 };
        assert(sources.urls() =~= seq![GITHUB_BASE@ + "/"@ + file@, MODELSCOPE_BASE@ + "/"@ + file@]);
        sources
    }

    /// The next step after an attempt (`previous_ok` tells whether it
    /// succeeded; pass `false` before the first attempt): stop at the first
    /// success, otherwise try the next source in order, and give up once
    /// every source has failed.
    pub fn next_step(&mut self, previous_ok: bool) -> (step: SourceStep)
        ensures
            final(self).urls() == old(self).urls(),
            previous_ok ==> step is Done && final(self).tried() == old(self).tried(),
            !previous_ok && old(self).tried() < old(self).urls().len() ==> (step matches SourceStep::Try(
                url,
            ) && url@ == old(self).urls()[old(self).tried() as int]) && final(self).tried() == old(
                self,
            ).tried() + 1,
            !previous_ok && old(self).tried() >= old(self).urls().len() ==> step is GiveUp
                && final(self).tried() == old(self).tried(),
    {
        if previous_ok {
            SourceStep::Done
        } else if self.tried < self.urls.len() {
            let url = self.urls[self.tried].clone();
            self.tried = self.tried + 1;
            SourceStep::Try(url)
        } else {
            SourceStep::GiveUp
        }
    }
}

/// The SHA-256 digest of `bytes`.
pub uninterp spec fn spec_sha256(bytes: Seq<u8>) -> Seq<u8>;

/// `sha2::Sha256::digest`: the SHA-256 digest of `bytes`.
#[verifier::external_body]
fn sha256_digest(bytes: &[u8]) -> (digest: [u8; 32])
    ensures
        digest@ == spec_sha256(bytes@),
{
    sha2::Sha256::digest(bytes).into()
}

/// Whether a fetched file of content `content` is accepted: exactly
/// `expected` bytes, and, when a digest is published, that digest.
pub open spec fn spec_check_download(content: Seq<u8>, expected: u64, sha256: Option<[u8; 32]>) -> Result<(), PackError> {
    if content.len() != expected {
        Err(PackError::SizeMismatch { written: content.len() as u64, expected })
    } else {
        match sha256 {
            Some(d) => if spec_sha256(content) == d@ {
                Ok(())
            } else {
                Err(PackError::HashMismatch)
            },
            None => Ok(()),
        }
    }
}

/// Accepts a fetched file only when it has exactly `expected` bytes and, when
/// the pack publishes a digest for it, the SHA-256 digest of its content is
/// that digest; otherwise the file is to be discarded.
pub fn check_download(content: &[u8], expected: u64, sha256: Option<[u8; 32]>) -> (checked: Result<(), PackError>)
    ensures
        checked == spec_check_download(content@, expected, sha256),
{
    let written = content.len() as u64;
    if written != expected {
        return Err(PackError::SizeMismatch { written, expected });
    }
    match sha256 {
        None => Ok(()),
        Some(published) => {
            let actual = sha256_digest(content);
            let mut i: usize = 0;
            while i < 32
                invariant
                    i <= 32,
                    content@.len() == expected,
                    sha256 == Some(published),
                    actual@ == spec_sha256(content@),
                    forall|j: int| 0 <= j < i ==> actual@[j] == published@[j],
                decreases 32 - i,
            {
                if actual[i] != published[i] {
                    assert(actual@ != published@);
                    return Err(PackError::HashMismatch);
                }
                i = i + 1;
            }
            assert(actual@ =~= published@);
            Ok(())
        },
    }
}

/// A pack counts as downloaded exactly when a download of it has nothing left
/// to fetch.
pub proof fn lemma_downloaded_iff_nothing_to_fetch(
    pack: PackSpec,
    rec_len: Option<u64>,
    dict_len: Option<u64>,
)
    ensures
        spec_is_downloaded(pack, rec_len, dict_len) <==> (if rec_len == Some(pack.2) {
            0int
        } else {
            1int
        }) + (if dict_len == Some(pack.4) {
            0int
        } else {
            1int
        }) == 0,
{
}

} // verus!
