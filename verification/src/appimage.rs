//! What goes into an image when it is built: the names of its members, the
//! mode of the finished file, and the update information it may carry.

use vstd::prelude::*;
use vstd::string::StringExecFns;

verus! {

/// Where updates of an image are to be found.
#[derive(Debug, PartialEq, Eq)]
pub enum UpdateEndpoint {
    Zsync { url: String },
    BintrayZsync { username: String, repository: String, package: String, path: String },
}

impl Clone for UpdateEndpoint {
    /// The same endpoint once more.
    fn clone(&self) -> (copy: Self)
        ensures
            copy == *self,
    {
        match self {
            UpdateEndpoint::Zsync { url } => UpdateEndpoint::Zsync { url: url.clone() },
            UpdateEndpoint::BintrayZsync { username, repository, package, path } => {
                UpdateEndpoint::BintrayZsync {
                    username: username.clone(),
                    repository: repository.clone(),
                    package: package.clone(),
                    path: path.clone(),
                }
            },
        }
    }
}

/// The bits that mark a file as executable by its owner, its group and all
/// others.
pub const EXECUTABLE_BITS: u32 = 0o111;

/// The text of an update endpoint: its kind, then its fields, with `|`
/// between them.
pub open spec fn endpoint_text(endpoint: UpdateEndpoint) -> Seq<char> {
    match endpoint {
        UpdateEndpoint::Zsync { url } => "zsync|"@ + url@,
        UpdateEndpoint::BintrayZsync { username, repository, package, path } => "bintray-zsync|"@
            + username@ + "|"@ + repository@ + "|"@ + package@ + "|"@ + path@,
    }
}

/// The name under which a file or directory at `relative` is stored in the
/// archive: a directory's name ends in a separator.
pub open spec fn member_name(relative: Seq<char>, is_dir: bool) -> Seq<char> {
    if is_dir {
        relative + "/"@
    } else {
        relative
    }
}

impl UpdateEndpoint {
    /// The text of the endpoint, as it is written into an image.
    pub fn to_string(&self) -> (text: String)
        ensures
            text@ == endpoint_text(*self),
    {
        match self {
            UpdateEndpoint::Zsync { url } => {
                let mut text = String::from_str("zsync|");
                text.append(url.as_str());
                text
            },
            UpdateEndpoint::BintrayZsync { username, repository, package, path } => {
                let mut text = String::from_str("bintray-zsync|");
                text.append(username.as_str());
                text.append("|");
                text.append(repository.as_str());
                text.append("|");
                text.append(package.as_str());
                text.append("|");
                text.append(path.as_str());
                text
            },
        }
    }
}

/// The name under which a file or directory at `relative` is stored in the
/// archive.
pub fn archive_member_name(relative: &str, is_dir: bool) -> (name: String)
    ensures
        name@ == member_name(relative@, is_dir),
{
    let mut name = String::from_str(relative);
    if is_dir {
        name.append("/");
    }
    name
}

/// The mode of a finished image, made from the mode its file was created
/// with: the same, and executable by everyone.
pub fn executable_mode(mode: u32) -> (marked: u32)
    ensures
        marked == mode | EXECUTABLE_BITS,
{
    mode | EXECUTABLE_BITS
}

} // verus!
