//! Splits the media files into blobs, shared between accounts, and each account's
//! references to them.

use vstd::prelude::*;

use crate::whitenoise::database::rust_migrations::migration::GlobalMigration;

verus! {

pub struct Migration;

impl GlobalMigration for Migration {
    open spec fn spec_version(&self) -> u32 {
        13
    }

    open spec fn spec_description(&self) -> Seq<char> {
        "Split media_files into media_blobs (shared) and media_references (account-scoped)"@
    }

    fn version(&self) -> (v: u32) {
        13
    }

    fn description(&self) -> (d: &'static str) {
        "Split media_files into media_blobs (shared) and media_references (account-scoped)"
    }
}

/// A media file before the migration.
#[derive(Debug)]
pub struct MediaFile {
    pub mls_group_id: Vec<u8>,
    pub account_pubkey: String,
    pub file_path: String,
    pub original_file_hash: Option<String>,
    pub encrypted_file_hash: String,
    pub mime_type: String,
    pub media_type: String,
    pub blossom_url: Option<String>,
    pub nostr_key: Option<String>,
    pub file_metadata: Option<Vec<u8>>,
    pub nonce: Option<String>,
    pub scheme_version: Option<String>,
    pub created_at: i64,
}

/// A file that is stored once, whoever refers to it.
#[derive(Debug)]
pub struct MediaBlob {
    pub encrypted_file_hash: String,
    pub file_path: String,
    pub mime_type: String,
    pub blossom_url: Option<String>,
    pub created_at: i64,
}

/// An account's reference to a blob.
#[derive(Debug)]
pub struct MediaReference {
    pub mls_group_id: Vec<u8>,
    pub account_pubkey: String,
    pub encrypted_file_hash: String,
    pub media_type: String,
    pub nostr_key: Option<String>,
    pub file_metadata: Option<Vec<u8>>,
    pub original_file_hash: Option<String>,
    pub nonce: Option<String>,
    pub scheme_version: Option<String>,
    pub created_at: i64,
}

impl MediaFile {
    pub open spec fn reference(self) -> MediaReference {
        MediaReference {
            mls_group_id: self.mls_group_id,
            account_pubkey: self.account_pubkey,
            encrypted_file_hash: self.encrypted_file_hash,
            media_type: self.media_type,
            nostr_key: self.nostr_key,
            file_metadata: self.file_metadata,
            original_file_hash: self.original_file_hash,
            nonce: self.nonce,
            scheme_version: self.scheme_version,
            created_at: self.created_at,
        }
    }

    pub open spec fn has_hash(self, hash: Seq<char>) -> bool {
        self.encrypted_file_hash@ == hash
    }
}

/// `at` is the first file with the hash.
pub open spec fn first_file(files: Seq<MediaFile>, hash: Seq<char>, at: int) -> bool {
    0 <= at < files.len() && files[at].has_hash(hash) && forall|i: int|
        0 <= i < at ==> !(#[trigger] files[i]).has_hash(hash)
}

/// `at` is the first file with the hash that has a path.
pub open spec fn first_with_path(files: Seq<MediaFile>, hash: Seq<char>, at: int) -> bool {
    0 <= at < files.len() && files[at].has_hash(hash) && files[at].file_path@.len() > 0 && forall|
        i: int,
    |
        0 <= i < at && (#[trigger] files[i]).has_hash(hash) ==> files[i].file_path@.len() == 0
}

/// `at` is the first file with the hash that has a URL.
pub open spec fn first_with_url(files: Seq<MediaFile>, hash: Seq<char>, at: int) -> bool {
    0 <= at < files.len() && files[at].has_hash(hash) && files[at].blossom_url is Some && forall|
        i: int,
    |
        0 <= i < at && (#[trigger] files[i]).has_hash(hash) ==> files[i].blossom_url is None
}

/// The blob gathers what the files with its hash know: the first path that is
/// not empty, the first type, the first URL and the earliest time.
pub open spec fn gathers(blob: MediaBlob, files: Seq<MediaFile>) -> bool {
    let hash = blob.encrypted_file_hash@;
    &&& exists|at: int| first_file(files, hash, at) && files[at].mime_type@ == blob.mime_type@
    &&& if blob.file_path@.len() > 0 {
        exists|at: int| first_with_path(files, hash, at) && files[at].file_path@ == blob.file_path@
    } else {
        forall|i: int|
            0 <= i < files.len() && (#[trigger] files[i]).has_hash(hash) ==> files[i].file_path@.len()
                == 0
    }
    &&& match blob.blossom_url {
        Some(url) => exists|at: int|
            first_with_url(files, hash, at) && files[at].blossom_url->0@ == url@,
        None => forall|i: int|
            0 <= i < files.len() && (#[trigger] files[i]).has_hash(hash) ==> files[i].blossom_url is None,
    }
    &&& exists|at: int|
        0 <= at < files.len() && (#[trigger] files[at]).has_hash(hash) && files[at].created_at
            == blob.created_at
    &&& forall|i: int|
        0 <= i < files.len() && (#[trigger] files[i]).has_hash(hash) ==> blob.created_at
            <= files[i].created_at
}

/// One blob for every hash that occurs.
pub open spec fn blobs_of(blobs: Seq<MediaBlob>, files: Seq<MediaFile>) -> bool {
    &&& forall|i: int| 0 <= i < blobs.len() ==> gathers(#[trigger] blobs[i], files)
    &&& forall|i: int, j: int|
        0 <= i < j < blobs.len() ==> blobs[i].encrypted_file_hash@ != blobs[j].encrypted_file_hash@
    &&& forall|i: int|
        0 <= i < files.len() ==> has_blob(blobs, (#[trigger] files[i]).encrypted_file_hash@)
}

/// Whether one of `blobs` has the hash.
pub open spec fn has_blob(blobs: Seq<MediaBlob>, hash: Seq<char>) -> bool {
    exists|k: int| 0 <= k < blobs.len() && (#[trigger] blobs[k]).encrypted_file_hash@ == hash
}

/// Whether one of the first `n` files has the hash.
spec fn has_file(files: Seq<MediaFile>, n: int, hash: Seq<char>) -> bool {
    exists|i: int| 0 <= i < n && (#[trigger] files[i]).has_hash(hash)
}

fn find_blob(blobs: &Vec<MediaBlob>, hash: &String) -> (found: bool)
    ensures
        found == has_blob(blobs@, hash@),
{
    let mut k: usize = 0;
    while k < blobs.len()
        invariant
            k <= blobs.len(),
            forall|j: int| 0 <= j < k ==> (#[trigger] blobs[j]).encrypted_file_hash@ != hash@,
        decreases blobs.len() - k,
    {
        if blobs[k].encrypted_file_hash == *hash {
            return true;
        }
        k = k + 1;
    }
    false
}

/// Gathers the blob of the hash that first occurs at `at`.
fn gather(files: &Vec<MediaFile>, at: usize) -> (blob: MediaBlob)
    requires
        at < files.len(),
        first_file(files@, files[at as int].encrypted_file_hash@, at as int),
    ensures
        blob.encrypted_file_hash@ == files[at as int].encrypted_file_hash@,
        gathers(blob, files@),
{
    let ghost hash = files[at as int].encrypted_file_hash@;
    let mut file_path = String::new();
    let mut blossom_url: Option<String> = None;
    let mut created_at: i64 = files[at].created_at;
    let ghost mut earliest = at as int;
    let ghost mut path_at = 0int;
    let ghost mut url_at = 0int;
    let mut i: usize = 0;
    while i < files.len()
        invariant
            at < files.len(),
            i <= files.len(),
            hash == files[at as int].encrypted_file_hash@,
            0 <= earliest < files.len() && files[earliest].has_hash(hash) && files[earliest].created_at
                == created_at,
            forall|k: int|
                0 <= k < i && (#[trigger] files[k]).has_hash(hash) ==> created_at <= files[k].created_at,
            file_path@.len() > 0 ==> first_with_path(files@, hash, path_at) && files[path_at].file_path@
                == file_path@,
            file_path@.len() == 0 ==> forall|k: int|
                0 <= k < i && (#[trigger] files[k]).has_hash(hash) ==> files[k].file_path@.len() == 0,
            blossom_url matches Some(url) ==> first_with_url(files@, hash, url_at)
                && files[url_at].blossom_url->0@ == url@,
            blossom_url is None ==> forall|k: int|
                0 <= k < i && (#[trigger] files[k]).has_hash(hash) ==> files[k].blossom_url is None,
        decreases files.len() - i,
    {
        if files[i].encrypted_file_hash == files[at].encrypted_file_hash {
            if file_path.as_str().is_empty() && !files[i].file_path.as_str().is_empty() {
                file_path = files[i].file_path.clone();
                proof {
                    path_at = i as int;
                }
            }
            if blossom_url.is_none() {
                if let Some(url) = &files[i].blossom_url {
                    blossom_url = Some(url.clone());
                    proof {
                        url_at = i as int;
                    }
                }
            }
            if files[i].created_at < created_at {
                created_at = files[i].created_at;
                proof {
                    earliest = i as int;
                }
            }
        }
        i = i + 1;
    }
    let blob = MediaBlob {
        encrypted_file_hash: files[at].encrypted_file_hash.clone(),
        file_path,
        mime_type: files[at].mime_type.clone(),
        blossom_url,
        created_at,
    };
    proof {
        assert(blob.encrypted_file_hash@ == hash);
        assert(first_file(files@, hash, at as int) && files@[at as int].mime_type@
            == blob.mime_type@);
        assert(files@[earliest].has_hash(hash) && files@[earliest].created_at == blob.created_at);
        if blob.file_path@.len() > 0 {
            assert(first_with_path(files@, hash, path_at) && files@[path_at].file_path@
                == blob.file_path@);
        }
        if blob.blossom_url is Some {
            assert(first_with_url(files@, hash, url_at) && files@[url_at].blossom_url->0@
                == blob.blossom_url->0@);
        }
        assert(forall|k: int|
            0 <= k < files@.len() && (#[trigger] files@[k]).has_hash(hash) ==> blob.created_at
                <= files@[k].created_at);
    }
    assert(gathers(blob, files@));
    blob
}

impl Migration {
    /// The blobs and the references, one of the latter for each file.
    pub fn run_global(&self, files: Vec<MediaFile>) -> (split: (Vec<MediaBlob>, Vec<MediaReference>))
        ensures
            blobs_of(split.0@, files@),
            split.1@ == files@.map_values(|f: MediaFile| f.reference()),
            split.1@.len() == files@.len(),
            forall|i: int|
                0 <= i < files@.len() ==> {
                    &&& (#[trigger] split.1@[i]).mls_group_id == files@[i].mls_group_id
                    &&& split.1@[i].account_pubkey == files@[i].account_pubkey
                    &&& split.1@[i].encrypted_file_hash == files@[i].encrypted_file_hash
                    &&& split.1@[i].original_file_hash == files@[i].original_file_hash
                    &&& split.1@[i].media_type == files@[i].media_type
                    &&& split.1@[i].nostr_key == files@[i].nostr_key
                    &&& split.1@[i].file_metadata == files@[i].file_metadata
                    &&& split.1@[i].nonce == files@[i].nonce
                    &&& split.1@[i].scheme_version == files@[i].scheme_version
                    &&& split.1@[i].created_at == files@[i].created_at
                },
    {
        let mut blobs: Vec<MediaBlob> = Vec::new();
        let mut n: usize = 0;
        while n < files.len()
            invariant
                n <= files.len(),
                forall|i: int| 0 <= i < blobs.len() ==> gathers(#[trigger] blobs[i], files@),
                forall|i: int, j: int|
                    0 <= i < j < blobs.len() ==> blobs[i].encrypted_file_hash@
                        != blobs[j].encrypted_file_hash@,
                forall|hash: Seq<char>| #[trigger]
                    has_blob(blobs@, hash) <==> has_file(files@, n as int, hash),
            decreases files.len() - n,
        {
            let ghost before = blobs@;
            let ghost hash = files[n as int].encrypted_file_hash@;
            let known = find_blob(&blobs, &files[n].encrypted_file_hash);
            if !known {
                assert(first_file(files@, hash, n as int)) by {
                    assert(!has_file(files@, n as int, hash));
                }
                let blob = gather(&files, n);
                blobs.push(blob);
                assert forall|i: int, j: int| 0 <= i < j < blobs.len() implies blobs[i].encrypted_file_hash@
                    != blobs[j].encrypted_file_hash@ by {
                    if j == before.len() {
                        assert(before[i].encrypted_file_hash@ != hash);
                    }
                }
            }
            assert forall|h: Seq<char>| #[trigger] has_blob(blobs@, h) <==> has_file(
                files@,
                n + 1,
                h,
            ) by {
                assert(has_blob(before, h) <==> has_file(files@, n as int, h));
                if has_blob(before, h) {
                    let k = choose|k: int|
                        0 <= k < before.len() && (#[trigger] before[k]).encrypted_file_hash@ == h;
                    assert(blobs@[k] == before[k]);
                    let i = choose|i: int| 0 <= i < n && (#[trigger] files@[i]).has_hash(h);
                    assert(files@[i].has_hash(h));
                }
                if h == hash {
                    assert(files@[n as int].has_hash(h));
                    if !known {
                        assert(blobs@[before.len() as int].encrypted_file_hash@ == h);
                    }
                }
                if has_blob(blobs@, h) && h != hash {
                    let k = choose|k: int|
                        0 <= k < blobs@.len() && (#[trigger] blobs@[k]).encrypted_file_hash@ == h;
                    assert(before[k] == blobs@[k]);
                }
                if has_file(files@, n + 1, h) && h != hash {
                    let i = choose|i: int| 0 <= i < n + 1 && (#[trigger] files@[i]).has_hash(h);
                    assert(i < n);
                    assert(has_file(files@, n as int, h));
                }
            }
            n = n + 1;
        }
        assert forall|i: int| 0 <= i < files@.len() implies has_blob(
            blobs@,
            (#[trigger] files@[i]).encrypted_file_hash@,
        ) by {
            assert(files@[i].has_hash(files@[i].encrypted_file_hash@));
            assert(has_file(files@, files@.len() as int, files@[i].encrypted_file_hash@));
        }
        assert(blobs_of(blobs@, files@));
        let ghost all = files@;
        let mut references: Vec<MediaReference> = Vec::new();
        for file in it: files
            invariant
                it.seq() == all,
                references.len() == it.index(),
                forall|i: int| 0 <= i < it.index() ==> #[trigger] references[i] == all[i].reference(),
        {
            references.push(
                MediaReference {
                    mls_group_id: file.mls_group_id,
                    account_pubkey: file.account_pubkey,
                    encrypted_file_hash: file.encrypted_file_hash,
                    media_type: file.media_type,
                    nostr_key: file.nostr_key,
                    file_metadata: file.file_metadata,
                    original_file_hash: file.original_file_hash,
                    nonce: file.nonce,
                    scheme_version: file.scheme_version,
                    created_at: file.created_at,
                },
            );
        }
        assert(references@ =~= all.map_values(|f: MediaFile| f.reference()));
        (blobs, references)
    }
}

/// The reference to a file agrees with the file in every column that both
/// have.
pub proof fn a_reference_keeps_every_column(file: MediaFile)
    ensures
        file.reference().mls_group_id == file.mls_group_id,
        file.reference().account_pubkey == file.account_pubkey,
        file.reference().encrypted_file_hash == file.encrypted_file_hash,
        file.reference().original_file_hash == file.original_file_hash,
        file.reference().media_type == file.media_type,
        file.reference().nostr_key == file.nostr_key,
        file.reference().file_metadata == file.file_metadata,
        file.reference().nonce == file.nonce,
        file.reference().scheme_version == file.scheme_version,
        file.reference().created_at == file.created_at,
{
}

/// Every file has one blob, and every blob is of some file. A blob has the
/// type of the first file with its hash, the path and the URL of the first one
/// that has them, and none where no file has, and the earliest time of all.
pub proof fn a_blob_gathers_what_its_files_know(blobs: Seq<MediaBlob>, files: Seq<MediaFile>, b: int, f: int)
    requires
        blobs_of(blobs, files),
        0 <= b < blobs.len(),
        0 <= f < files.len(),
    ensures
        exists|k: int|
            0 <= k < blobs.len() && (#[trigger] blobs[k]).encrypted_file_hash@ == files[f].encrypted_file_hash@,
        exists|k: int|
            0 <= k < files.len() && (#[trigger] files[k]).encrypted_file_hash@ == blobs[b].encrypted_file_hash@,
        forall|k: int|
            0 <= k < blobs.len() && k != b ==> (#[trigger] blobs[k]).encrypted_file_hash@
                != blobs[b].encrypted_file_hash@,
        files[f].encrypted_file_hash@ == blobs[b].encrypted_file_hash@ ==> {
            &&& blobs[b].created_at <= files[f].created_at
            &&& (forall|k: int|
                0 <= k < f ==> (#[trigger] files[k]).encrypted_file_hash@ != blobs[b].encrypted_file_hash@)
                ==> blobs[b].mime_type@ == files[f].mime_type@
            &&& files[f].file_path@.len() > 0 && (forall|k: int|
                0 <= k < f && (#[trigger] files[k]).encrypted_file_hash@ == blobs[b].encrypted_file_hash@
                    ==> files[k].file_path@.len() == 0) ==> blobs[b].file_path@ == files[f].file_path@
            &&& files[f].blossom_url is Some && (forall|k: int|
                0 <= k < f && (#[trigger] files[k]).encrypted_file_hash@ == blobs[b].encrypted_file_hash@
                    ==> files[k].blossom_url is None) ==> blobs[b].blossom_url is Some
                && blobs[b].blossom_url->0@ == files[f].blossom_url->0@
        },
        (forall|k: int|
            0 <= k < files.len() && (#[trigger] files[k]).encrypted_file_hash@ == blobs[b].encrypted_file_hash@
                ==> files[k].file_path@.len() == 0) ==> blobs[b].file_path@.len() == 0,
        (forall|k: int|
            0 <= k < files.len() && (#[trigger] files[k]).encrypted_file_hash@ == blobs[b].encrypted_file_hash@
                ==> files[k].blossom_url is None) ==> blobs[b].blossom_url is None,
        exists|k: int|
            0 <= k < files.len() && (#[trigger] files[k]).encrypted_file_hash@ == blobs[b].encrypted_file_hash@
                && files[k].created_at == blobs[b].created_at,
{
    let blob = blobs[b];
    let hash = blob.encrypted_file_hash@;
    assert(gathers(blob, files));
    assert(has_blob(blobs, files[f].encrypted_file_hash@));
    let first = choose|at: int| first_file(files, hash, at) && files[at].mime_type@ == blob.mime_type@;
    assert(files[first].has_hash(hash));
    assert forall|k: int| 0 <= k < blobs.len() && k != b implies (#[trigger] blobs[k]).encrypted_file_hash@ != hash by {
        if k < b {
            assert(blobs[k].encrypted_file_hash@ != blobs[b].encrypted_file_hash@);
        } else {
            assert(blobs[b].encrypted_file_hash@ != blobs[k].encrypted_file_hash@);
        }
    }
    let earliest = choose|at: int|
        0 <= at < files.len() && (#[trigger] files[at]).has_hash(hash) && files[at].created_at
            == blob.created_at;
    assert(files[earliest].encrypted_file_hash@ == hash);
    if files[f].encrypted_file_hash@ == hash {
        assert(files[f].has_hash(hash));
        if forall|k: int| 0 <= k < f ==> (#[trigger] files[k]).encrypted_file_hash@ != hash {
            if first < f {
                assert(files[first].encrypted_file_hash@ != hash);
            } else if f < first {
                assert(!files[f].has_hash(hash));
            }
        }
        if files[f].file_path@.len() > 0 && forall|k: int|
            0 <= k < f && (#[trigger] files[k]).encrypted_file_hash@ == hash ==> files[k].file_path@.len()
                == 0 {
            assert(blob.file_path@.len() > 0);
            let at = choose|at: int| first_with_path(files, hash, at) && files[at].file_path@ == blob.file_path@;
            if at < f {
                assert(files[at].encrypted_file_hash@ == hash);
            } else if f < at {
                assert(files[f].file_path@.len() == 0);
            }
        }
        if files[f].blossom_url is Some && forall|k: int|
            0 <= k < f && (#[trigger] files[k]).encrypted_file_hash@ == hash ==> files[k].blossom_url is None {
            assert(blob.blossom_url is Some);
            let at = choose|at: int|
                first_with_url(files, hash, at) && files[at].blossom_url->0@ == blob.blossom_url->0@;
            if at < f {
                assert(files[at].encrypted_file_hash@ == hash);
            } else if f < at {
                assert(files[f].blossom_url is None);
            }
        }
    }
    if blob.file_path@.len() > 0 {
        let at = choose|at: int| first_with_path(files, hash, at) && files[at].file_path@ == blob.file_path@;
        assert(files[at].encrypted_file_hash@ == hash);
    }
    if blob.blossom_url is Some {
        let at = choose|at: int|
            first_with_url(files, hash, at) && files[at].blossom_url->0@ == blob.blossom_url->0@;
        assert(files[at].encrypted_file_hash@ == hash);
    }
}

} // verus!
