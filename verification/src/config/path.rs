//! The layout of a keyring directory:
//! `metadata.json`, `private/<fingerprint>.age` and `public/<fingerprint>.pub`.
use vstd::prelude::*;
use crate::handler::error::{AgeCredentialsError, Result};

verus! {

/// Appending `name` to the path `base` as `PathBuf::push` does on Unix: an
/// absolute `name` replaces the path; otherwise a `/` separates the two unless
/// `base` is empty or already ends with one.
pub open spec fn path_join(base: Seq<char>, name: Seq<char>) -> Seq<char> {
    if name.len() > 0 && name[0] == '/' {
        name
    } else if base.len() == 0 || base.last() == '/' {
        base + name
    } else {
        base + "/"@ + name
    }
}

/// `PathBuf::push` on Unix paths held as text.
pub fn join_path(base: &str, name: &str) -> (r: String)
    ensures
        r@ == path_join(base@, name@),
{
    if name.unicode_len() > 0 && name.get_char(0) == '/' {
        return name.to_owned();
    }
    let n = base.unicode_len();
    let mut r = base.to_owned();
    if !(n == 0 || base.get_char(n - 1) == '/') {
        r.append("/");
    }
    r.append(name);
    r
}

/// The root directory of a keyring.
#[derive(Debug, Clone)]
pub struct KeyringPath {
    root: String,
}

impl KeyringPath {
    /// The root directory, as text.
    pub closed spec fn root_path(&self) -> Seq<char> {
        self.root@
    }

    /// The keyring rooted at `path`, which must not be empty; an empty path is a
    /// `Config` error.  Creating the directories and making the path absolute is
    /// left to the caller, who holds the file system.
    pub fn new(path: &str) -> (r: Result<Self>)
        ensures
            path@.len() > 0 ==> (r matches Ok(k) && k.root_path() == path@),
            path@.len() == 0 ==> (r matches Err(AgeCredentialsError::Config { message, location })
                && message@ == "Keyring path cannot be empty"@ && location@ == "src/config/path.rs"@),
    {
        if path.unicode_len() == 0 {
            return Err(
                AgeCredentialsError::Config {
                    message: "Keyring path cannot be empty".to_owned(),
                    location: "src/config/path.rs".to_owned(),
                },
            );
        }
        Ok(KeyringPath { root: path.to_owned() })
    }

    /// `metadata.json` in the root.
    pub fn metadata_file(&self) -> (r: String)
        ensures
            r@ == path_join(self.root_path(), "metadata.json"@),
    {
        join_path(self.root.as_str(), "metadata.json")
    }

    /// The `private/` directory.
    pub fn private_dir(&self) -> (r: String)
        ensures
            r@ == path_join(self.root_path(), "private"@),
    {
        join_path(self.root.as_str(), "private")
    }

    /// The `public/` directory.
    pub fn public_dir(&self) -> (r: String)
        ensures
            r@ == path_join(self.root_path(), "public"@),
    {
        join_path(self.root.as_str(), "public")
    }

    /// `private/<fingerprint>.age`.
    pub fn fingerprint_private_path(&self, fingerprint: &str) -> (r: String)
        ensures
            r@ == path_join(path_join(self.root_path(), "private"@), fingerprint@ + ".age"@),
    {
        let mut name = fingerprint.to_owned();
        name.append(".age");
        join_path(self.private_dir().as_str(), name.as_str())
    }

    /// `public/<fingerprint>.pub`.
    pub fn fingerprint_public_path(&self, fingerprint: &str) -> (r: String)
        ensures
            r@ == path_join(path_join(self.root_path(), "public"@), fingerprint@ + ".pub"@),
    {
        let mut name = fingerprint.to_owned();
        name.append(".pub");
        join_path(self.public_dir().as_str(), name.as_str())
    }
}

/// The `Config` error for a keyring directory that does not exist.
pub fn keyring_not_found(path: &str) -> (e: AgeCredentialsError)
    ensures
        e matches AgeCredentialsError::Config { message, location } && message@
            == "Keyring directory not found: "@ + path@ && location@ == "src/config/path.rs"@,
{
    let mut message = "Keyring directory not found: ".to_owned();
    message.append(path);
    AgeCredentialsError::Config { message, location: "src/config/path.rs".to_owned() }
}

} // verus!
