//! Media storage: the local-filesystem driver's path and URL rules and the
//! storage service configuration.
use vstd::prelude::*;

use crate::text::{append, chars_of, contains, owned, str_contains, string_from_range};

verus! {

/// An error of the storage layer.
#[derive(Clone, Debug)]
pub enum StorageError {
    /// An I/O failure, with its description.
    Io(String),
    /// A path that is not allowed.
    InvalidPath(String),
    /// A path with no stored object.
    NotFound(String),
    /// A failure of the storage backend.
    Backend(String),
}

impl StorageError {
    /// The text of the error.
    pub fn message(&self) -> (r: String)
        ensures
            r@ == match self {
                StorageError::Io(m) => "I/O error: "@ + m@,
                StorageError::InvalidPath(p) => "Invalid storage path: "@ + p@,
                StorageError::NotFound(p) => "Object not found: "@ + p@,
                StorageError::Backend(m) => "Backend error: "@ + m@,
            },
    {
        match self {
            StorageError::Io(m) => {
                let mut s = owned("I/O error: ");
                append(&mut s, m.as_str());
                s
            },
            StorageError::InvalidPath(p) => {
                let mut s = owned("Invalid storage path: ");
                append(&mut s, p.as_str());
                s
            },
            StorageError::NotFound(p) => {
                let mut s = owned("Object not found: ");
                append(&mut s, p.as_str());
                s
            },
            StorageError::Backend(m) => {
                let mut s = owned("Backend error: ");
                append(&mut s, m.as_str());
                s
            },
        }
    }
}

/// A text without every trailing `c`.
pub open spec fn trim_end_char(s: Seq<char>, c: char) -> Seq<char>
    decreases s.len(),
{
    if s.len() > 0 && s.last() == c {
        trim_end_char(s.drop_last(), c)
    } else {
        s
    }
}

/// A text without every leading `c`.
pub open spec fn trim_start_char(s: Seq<char>, c: char) -> Seq<char>
    decreases s.len(),
{
    if s.len() > 0 && s[0] == c {
        trim_start_char(s.drop_first(), c)
    } else {
        s
    }
}

/// A relative path appended to a directory, with a separator between them
/// unless the directory is empty or already ends with one.
pub open spec fn join_path(base: Seq<char>, rel: Seq<char>) -> Seq<char> {
    if base.len() == 0 {
        rel
    } else if base.last() == '/' {
        base + rel
    } else {
        base + seq!['/'] + rel
    }
}

fn trim_end_slashes(s: &str) -> (r: String)
    ensures
        r@ == trim_end_char(s@, '/'),
{
    let v = chars_of(s);
    let mut j: usize = v.len();
    assert(s@.take(j as int) =~= s@);
    while j > 0 && v[j - 1] == '/'
        invariant
            j <= v.len(),
            v@ == s@,
            trim_end_char(s@, '/') == trim_end_char(s@.take(j as int), '/'),
        decreases j,
    {
        assert(s@.take(j as int).drop_last() =~= s@.take(j as int - 1));
        j = j - 1;
    }
    proof {
        if j == s@.len() {
            assert(s@.take(j as int) =~= s@);
        }
    }
    let r = string_from_range(&v, 0, j);
    assert(r@ =~= s@.take(j as int));
    r
}

fn trim_start_slashes(s: &str) -> (r: String)
    ensures
        r@ == trim_start_char(s@, '/'),
{
    let v = chars_of(s);
    let mut i: usize = 0;
    assert(s@.skip(0) =~= s@);
    while i < v.len() && v[i] == '/'
        invariant
            i <= v.len(),
            v@ == s@,
            trim_start_char(s@, '/') == trim_start_char(s@.skip(i as int), '/'),
        decreases v.len() - i,
    {
        assert(s@.skip(i as int).drop_first() =~= s@.skip(i as int + 1));
        i = i + 1;
    }
    let r = string_from_range(&v, i, v.len());
    assert(r@ =~= s@.skip(i as int));
    r
}

/// Local-filesystem storage: files under a base directory, served under a
/// base URL.
#[derive(Clone, Debug)]
pub struct LocalStorage {
    pub base_dir: String,
    pub base_url: String,
}

impl LocalStorage {
    /// A local storage; trailing `/` of the base URL are dropped.
    pub fn new(base_dir: &str, base_url: &str) -> (r: LocalStorage)
        ensures
            r.base_dir@ == base_dir@,
            r.base_url@ == trim_end_char(base_url@, '/'),
    {
        LocalStorage { base_dir: owned(base_dir), base_url: trim_end_slashes(base_url) }
    }

    /// The file path of a storage path: paths containing `..` are refused;
    /// otherwise the path without leading `/` under the base directory.
    pub fn resolve(&self, path: &str) -> (r: Result<String, StorageError>)
        ensures
            contains(path@, ".."@) <==> r is Err,
            r matches Err(StorageError::InvalidPath(p)) ==> p@ == path@,
            r matches Err(e) ==> e is InvalidPath,
            r matches Ok(p) ==> p@ == join_path(self.base_dir@, trim_start_char(path@, '/')),
    {
        if str_contains(path, "..") {
            return Err(StorageError::InvalidPath(owned(path)));
        }
        let rel = trim_start_slashes(path);
        let base = chars_of(self.base_dir.as_str());
        let mut out = self.base_dir.clone();
        if base.len() > 0 && base[base.len() - 1] != '/' {
            out.push('/');
        }
        append(&mut out, rel.as_str());
        assert(out@ =~= join_path(self.base_dir@, trim_start_char(path@, '/')));
        Ok(out)
    }

    /// The public URL of a storage path: the base URL, `/`, and the path
    /// without leading `/`.
    pub fn public_url(&self, path: &str) -> (r: String)
        ensures
            r@ == self.base_url@ + seq!['/'] + trim_start_char(path@, '/'),
    {
        let mut out = self.base_url.clone();
        out.push('/');
        append(&mut out, trim_start_slashes(path).as_str());
        assert(out@ =~= self.base_url@ + seq!['/'] + trim_start_char(path@, '/'));
        out
    }
}

/// Configuration of local storage.
#[derive(Clone, Debug)]
pub struct LocalStorageConfig {
    /// Directory on disk where uploads are stored.
    pub base_dir: String,
    /// URL prefix exposed to clients.
    pub base_url: String,
}

impl Default for LocalStorageConfig {
    fn default() -> (r: Self)
        ensures
            r.base_dir@ == "storage/media"@,
            r.base_url@ == "/media"@,
    {
        LocalStorageConfig { base_dir: owned("storage/media"), base_url: owned("/media") }
    }
}

impl LocalStorageConfig {
    /// The local storage of the configuration.
    pub fn build(&self) -> (r: LocalStorage)
        ensures
            r.base_dir@ == self.base_dir@,
            r.base_url@ == trim_end_char(self.base_url@, '/'),
    {
        LocalStorage::new(self.base_dir.as_str(), self.base_url.as_str())
    }
}

/// The storage drivers.
#[derive(Clone, Copy, Debug, PartialEq, Eq, Structural)]
pub enum StorageDriver {
    Local,
}

impl Default for StorageDriver {
    fn default() -> (r: Self)
        ensures
            r == StorageDriver::Local,
    {
        StorageDriver::Local
    }
}

/// Configuration of the storage service.
#[derive(Clone, Debug)]
pub struct StorageConfig {
    pub driver: StorageDriver,
    pub local: LocalStorageConfig,
}

impl Default for StorageConfig {
    fn default() -> (r: Self)
        ensures
            r.driver == StorageDriver::Local,
            r.local.base_dir@ == "storage/media"@,
            r.local.base_url@ == "/media"@,
    {
        StorageConfig { driver: StorageDriver::Local, local: LocalStorageConfig::default() }
    }
}

/// The storage service over its backend.
#[derive(Clone, Debug)]
pub struct StorageService {
    pub backend: LocalStorage,
}

impl StorageService {
    /// The service of a configuration.
    pub fn from_config(config: &StorageConfig) -> (r: StorageService)
        ensures
            r.backend.base_dir@ == config.local.base_dir@,
            r.backend.base_url@ == trim_end_char(config.local.base_url@, '/'),
    {
        match config.driver {
            StorageDriver::Local => StorageService::new(config.local.build()),
        }
    }

    /// The service over a backend.
    pub fn new(backend: LocalStorage) -> (r: StorageService)
        ensures
            r.backend == backend,
    {
        StorageService { backend }
    }

    /// The public URL of a storage path (see `LocalStorage::public_url`).
    pub fn public_url(&self, path: &str) -> (r: String)
        ensures
            r@ == self.backend.base_url@ + seq!['/'] + trim_start_char(path@, '/'),
    {
        self.backend.public_url(path)
    }

    /// The name of the backend.
    pub fn backend_name(&self) -> (r: &'static str)
        ensures
            r@ == "local"@,
    {
        "local"
    }
}


// ---------------------------------------------------------------------------
// Stored objects
// ---------------------------------------------------------------------------

/// A stored object: its storage path, public URL and size in bytes.
#[derive(Clone, Debug)]
pub struct UploadedObject {
    pub path: String,
    pub public_url: String,
    pub size: u64,
}

impl LocalStorage {
    /// The record of an object written at a storage path.
    pub fn uploaded(&self, path: &str, size: u64) -> (r: UploadedObject)
        ensures
            r.path@ == path@,
            r.public_url@ == self.base_url@ + seq!['/'] + trim_start_char(path@, '/'),
            r.size == size,
    {
        UploadedObject { path: owned(path), public_url: self.public_url(path), size }
    }
}

/// What `std::path::Path::extension` gives for a file name.
pub uninterp spec fn path_extension_of(name: Seq<char>) -> Option<Seq<char>>;

/// The extension of a file name, as `std::path::Path::extension` finds it
/// (the result is named: `path_extension_of`).
#[verifier::external_body]
pub(crate) fn path_extension(name: &str) -> (r: Option<String>)
    ensures
        crate::text::opt_view(r) == path_extension_of(name@),
{
    std::path::Path::new(name).extension().and_then(|e| e.to_str()).map(|e| e.to_string())
}

/// The storage path of an upload: the tenant, the year and month of the
/// upload, and a fresh object id named after the original file's
/// extension (`bin` when it has none).
pub open spec fn object_path(tenant_id: u128, year: Seq<char>, month: Seq<char>, object_id: u128, original_name: Seq<char>) -> Seq<char> {
    crate::text::uuid_text(tenant_id) + "/"@ + year + "/"@ + month + "/"@ + crate::text::uuid_text(object_id)
        + "."@ + match path_extension_of(original_name) {
        Some(e) => e,
        None => "bin"@,
    }
}

/// The storage path of an upload (see `object_path`); the year and month
/// come formatted as four and two digits, the object id fresh.
pub fn storage_object_path(tenant_id: u128, year: &str, month: &str, object_id: u128, original_name: &str) -> (r: String)
    ensures
        r@ == object_path(tenant_id, year@, month@, object_id, original_name@),
{
    let mut out = crate::text::uuid_to_string(tenant_id);
    append(&mut out, "/");
    append(&mut out, year);
    append(&mut out, "/");
    append(&mut out, month);
    append(&mut out, "/");
    let id = crate::text::uuid_to_string(object_id);
    append(&mut out, id.as_str());
    append(&mut out, ".");
    match path_extension(original_name) {
        Some(e) => append(&mut out, e.as_str()),
        None => append(&mut out, "bin"),
    }
    out
}

} // verus!
