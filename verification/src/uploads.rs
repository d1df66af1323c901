//! Upload records and their transport shapes.

use vstd::prelude::*;

verus! {

/// A stored upload row as the access layer reads it, the moment of upload
/// carried as milliseconds since the Unix epoch.
pub struct UploadRecord {
    pub id: String,
    pub uploader: String,
    pub name: String,
    pub original_name: String,
    pub hash: String,
    pub uploaded_millis: i64,
    pub size: i64,
    pub album_id: Option<String>,
    pub public: bool,
}

/// Upload data sent to clients.  The URLs are not stored; the route
/// returning the value fills them in.
pub struct UploadData {
    pub id: String,
    pub uploader: String,
    pub name: String,
    pub original_name: String,
    pub url: Option<String>,
    pub thumbnail_url: Option<String>,
    pub hash: String,
    pub size: i64,
    pub album_id: Option<String>,
    pub public: bool,
    pub uploaded_millis: i64,
}

impl vstd::std_specs::convert::FromSpecImpl<UploadRecord> for UploadData {
    open spec fn obeys_from_spec() -> bool {
        true
    }

    open spec fn from_spec(upload: UploadRecord) -> UploadData {
        UploadData {
            id: upload.id,
            uploader: upload.uploader,
            name: upload.name,
            original_name: upload.original_name,
            hash: upload.hash,
            uploaded_millis: upload.uploaded_millis,
            size: upload.size,
            album_id: upload.album_id,
            public: upload.public,
            url: None,
            thumbnail_url: None,
        }
    }
}

impl From<UploadRecord> for UploadData {
    fn from(upload: UploadRecord) -> (r: UploadData) {
        UploadData {
            id: upload.id,
            uploader: upload.uploader,
            name: upload.name,
            original_name: upload.original_name,
            hash: upload.hash,
            uploaded_millis: upload.uploaded_millis,
            size: upload.size,
            album_id: upload.album_id,
            public: upload.public,
            url: None,
            thumbnail_url: None,
        }
    }
}

/// A path character normalized for a URL: a backslash becomes a slash.
pub open spec fn spec_slashed(c: char) -> char {
    if c == '\\' {
        '/'
    } else {
        c
    }
}

/// The URL form of a joined path: every backslash replaced by a slash.
pub open spec fn spec_url_of(s: Seq<char>) -> Seq<char> {
    s.map_values(|c: char| spec_slashed(c))
}

/// Replaces every backslash in `s` by a slash, normalizing path separators
/// for a URL.
pub fn slashify(s: &str) -> (r: String)
    ensures
        r@ == spec_url_of(s@),
{
    let n = s.unicode_len();
    let mut out = String::new();
    proof {
        assert(out@ =~= spec_url_of(s@.subrange(0, 0)));
    }
    let mut i: usize = 0;
    while i < n
        invariant
            i <= n == s@.len(),
            out@ == spec_url_of(s@.subrange(0, i as int)),
        decreases n - i,
    {
        let c = s.get_char(i);
        if c == '\\' {
            out.append("/");
            proof {
                reveal_strlit("/");
                assert(out@ =~= spec_url_of(s@.subrange(0, i as int + 1)));
            }
        } else {
            let piece = s.substring_char(i, i + 1);
            out.append(piece);
            proof {
                assert(out@ =~= spec_url_of(s@.subrange(0, i as int + 1)));
            }
        }
        i = i + 1;
    }
    proof {
        assert(s@.subrange(0, n as int) =~= s@);
    }
    out
}

/// True iff `s` ends in `suffix`.
pub open spec fn spec_has_suffix(s: Seq<char>, suffix: Seq<char>) -> bool {
    s.len() >= suffix.len() && s.subrange(s.len() - suffix.len(), s.len() as int) == suffix
}

/// True iff the file name carries an extension a thumbnail can be made for.
pub open spec fn spec_can_have_thumbnail(name: Seq<char>) -> bool {
    ||| spec_has_suffix(name, ".png"@)
    ||| spec_has_suffix(name, ".jpg"@)
    ||| spec_has_suffix(name, ".jpeg"@)
    ||| spec_has_suffix(name, ".gif"@)
    ||| spec_has_suffix(name, ".webp"@)
}

/// True iff `s` ends in `suffix`.
pub fn has_suffix(s: &str, suffix: &str) -> (r: bool)
    ensures
        r == spec_has_suffix(s@, suffix@),
{
    let n = s.unicode_len();
    let m = suffix.unicode_len();
    if m > n {
        return false;
    }
    let mut i: usize = 0;
    while i < m
        invariant
            0 <= i <= m == suffix@.len() <= n == s@.len(),
            forall|k: int| 0 <= k < i ==> s@[n - m + k] == suffix@[k],
        decreases m - i,
    {
        if s.get_char(n - m + i) != suffix.get_char(i) {
            proof {
                assert(s@.subrange(n - m, n as int)[i as int] != suffix@[i as int]);
            }
            return false;
        }
        i = i + 1;
    }
    proof {
        assert(s@.subrange(n - m, n as int) =~= suffix@);
    }
    true
}

/// True iff the file name carries an extension a thumbnail can be made for.
pub fn can_have_thumbnail(name: &str) -> (r: bool)
    ensures
        r == spec_can_have_thumbnail(name@),
{
    has_suffix(name, ".png") || has_suffix(name, ".jpg") || has_suffix(name, ".jpeg")
        || has_suffix(name, ".gif") || has_suffix(name, ".webp")
}

impl UploadData {
    /// Computes and sets the URL of the upload under a root storage path,
    /// with every backslash of the joined path normalized to a slash.
    pub fn set_url(&mut self, root_path: &str)
        ensures
            final(self).url matches Some(u) && u@ == spec_url_of(
                root_path@ + "/"@ + old(self).name@,
            ),
            *final(self) == (UploadData { url: final(self).url, ..*old(self) }),
    {
        let mut joined = root_path.to_owned();
        joined.append("/");
        joined.append(self.name.as_str());
        self.url = Some(slashify(joined.as_str()));
    }

    /// Computes and sets the thumbnail URL under a root storage path, with
    /// every backslash of the joined path normalized to a slash.  This only
    /// sets a URL for a name whose extension a thumbnail exists for.
    pub fn set_thumbnail_url(&mut self, root_path: &str)
        ensures
            spec_can_have_thumbnail(old(self).name@) ==> (final(self).thumbnail_url
                matches Some(u) && u@ == spec_url_of(
                root_path@ + "/thumb/"@ + old(self).name@,
            )),
            !spec_can_have_thumbnail(old(self).name@) ==> final(self).thumbnail_url == old(
                self,
            ).thumbnail_url,
            *final(self) == (UploadData { thumbnail_url: final(self).thumbnail_url, ..*old(self) }),
    {
        if can_have_thumbnail(self.name.as_str()) {
            let mut joined = root_path.to_owned();
            joined.append("/thumb/");
            joined.append(self.name.as_str());
            self.thumbnail_url = Some(slashify(joined.as_str()));
        }
    }
}

/// File stats for user.
pub struct UploadStats {
    /// Total usage in bytes.
    pub usage: i64,
}

/// Delete multiple files.
pub struct BatchDeleteRequest {
    /// IDs to delete.
    pub ids: Vec<String>,
}

/// Response containing information about deleted files.
pub struct BatchDeleteResponse {
    /// All successfully deleted files.
    pub deleted: Vec<String>,
    /// Errors for all failed deletions.
    pub errors: Vec<BatchFileError>,
}

impl Default for BatchDeleteResponse {
    /// An empty batch outcome: nothing deleted, nothing failed.
    fn default() -> (r: BatchDeleteResponse)
        ensures
            r.deleted@.len() == 0,
            r.errors@.len() == 0,
    {
        BatchDeleteResponse { deleted: Vec::new(), errors: Vec::new() }
    }
}

/// Error for an individual item in a batch operation.
pub struct BatchFileError {
    /// ID of the item.
    pub id: String,
    /// Error while executing the operation.
    pub error: String,
}

/// Identical file was already uploaded.
pub struct UploadConflict {
    pub message: String,
    pub upload: UploadData,
}

/// Filters for listing uploads.
pub struct UploadQuery {
    /// Query by name of file.
    pub query: Option<String>,
    /// For non admins, this must be a public album or a private album owned
    /// by the caller.
    pub album_id: Option<String>,
    /// If accessing another user as a non admin, this must be `true`.
    pub public: Option<bool>,
}

} // verus!
