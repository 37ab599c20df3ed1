use vstd::prelude::*;

verus! {

/// One downloadable archive of a release.
#[derive(Debug)]
pub struct Asset {
    pub name: String,
    pub download_url: String,
}

/// A published release: its version and the archives attached to it.
#[derive(Debug)]
pub struct Release {
    pub version: String,
    pub assets: Vec<Asset>,
}

/// `i` is the first position in `assets` whose name is `name`.
pub open spec fn first_named(assets: Seq<Asset>, name: Seq<char>, i: int) -> bool {
    &&& 0 <= i < assets.len()
    &&& assets[i].name@ == name
    &&& forall|j: int| 0 <= j < i ==> assets[j].name@ != name
}

/// Some asset in `assets` is named `name`.
pub open spec fn has_named(assets: Seq<Asset>, name: Seq<char>) -> bool {
    exists|i: int| 0 <= i < assets.len() && assets[i].name@ == name
}

/// Finds the first asset whose name is exactly `name` (case-sensitive).
pub fn find_asset(assets: &Vec<Asset>, name: &String) -> (r: Option<usize>)
    ensures
        match r {
            Some(i) => first_named(assets@, name@, i as int),
            None => !has_named(assets@, name@),
        },
{
    let mut i: usize = 0;
    while i < assets.len()
        invariant
            i <= assets@.len(),
            forall|j: int| 0 <= j < i ==> assets@[j].name@ != name@,
        decreases assets@.len() - i,
    {
        if assets[i].name == *name {
            return Some(i);
        }
        i = i + 1;
    }
    None
}

/// The asset names of a list, separated by `, `.
pub open spec fn listed_names(assets: Seq<Asset>) -> Seq<char>
    decreases assets.len(),
{
    if assets.len() == 0 {
        Seq::empty()
    } else if assets.len() == 1 {
        assets[0].name@
    } else {
        listed_names(assets.drop_last()) + ", "@ + assets.last().name@
    }
}

/// Writes the asset names of a list, separated by `, `.
pub fn list_names(assets: &Vec<Asset>) -> (r: String)
    ensures
        r@ == listed_names(assets@),
{
    let mut out = String::new();
    let mut i: usize = 0;
    while i < assets.len()
        invariant
            i <= assets@.len(),
            out@ == listed_names(assets@.subrange(0, i as int)),
        decreases assets@.len() - i,
    {
        if i > 0 {
            out.append(", ");
        }
        out.append(assets[i].name.as_str());
        let ghost next = assets@.subrange(0, i + 1);
        assert(next.drop_last() =~= assets@.subrange(0, i as int));
        i = i + 1;
    }
    assert(assets@.subrange(0, assets@.len() as int) =~= assets@);
    out
}

/// Why the tool could not be made ready to launch.
#[derive(Debug)]
pub enum LaunchError {
    /// The release lookup failed or found no qualifying release.
    ReleaseFetch { message: String },
    /// No asset of the release carries the expected name.
    AssetNotFound { expected: String, assets: Vec<Asset> },
    /// The cache directory could not be created.
    DirectoryCreate { directory: String, message: String },
    /// Downloading or unpacking the archive failed.
    Download { message: String },
    /// The unpacked executable could not be marked executable.
    ExecutableFlag { message: String },
    /// The working directory could not be listed for eviction.
    DirectoryList { message: String },
    /// The working directory could not be had as text.
    PathConversion { message: String },
}

/// The human-readable text of an error, with its underlying cause.
pub open spec fn error_text(e: LaunchError) -> Seq<char> {
    match e {
        LaunchError::ReleaseFetch { message } => message@,
        LaunchError::AssetNotFound { expected, assets } => "could not find asset "@ + expected@
            + " in ["@ + listed_names(assets@) + "]"@,
        LaunchError::DirectoryCreate { directory, message } => "could not create directory "@
            + directory@ + " due to '"@ + message@ + "'"@,
        LaunchError::Download { message } => "could not download file: "@ + message@,
        LaunchError::ExecutableFlag { message } => "could not make file executable: "@ + message@,
        LaunchError::DirectoryList { message } => "failed to list working directory: "@ + message@,
        LaunchError::PathConversion { message } => "could not resolve working directory: "@
            + message@,
    }
}

impl LaunchError {
    /// The human-readable text of this error.
    pub fn message(&self) -> (r: String)
        ensures
            r@ == error_text(*self),
    {
        match self {
            LaunchError::ReleaseFetch { message } => message.clone(),
            LaunchError::AssetNotFound { expected, assets } => {
                let mut out = String::from_str("could not find asset ");
                out.append(expected.as_str());
                out.append(" in [");
                let names = list_names(assets);
                out.append(names.as_str());
                out.append("]");
                out
            },
            LaunchError::DirectoryCreate { directory, message } => {
                let mut out = String::from_str("could not create directory ");
                out.append(directory.as_str());
                out.append(" due to '");
                out.append(message.as_str());
                out.append("'");
                out
            },
            LaunchError::Download { message } => {
                let mut out = String::from_str("could not download file: ");
                out.append(message.as_str());
                out
            },
            LaunchError::ExecutableFlag { message } => {
                let mut out = String::from_str("could not make file executable: ");
                out.append(message.as_str());
                out
            },
            LaunchError::DirectoryList { message } => {
                let mut out = String::from_str("failed to list working directory: ");
                out.append(message.as_str());
                out
            },
            LaunchError::PathConversion { message } => {
                let mut out = String::from_str("could not resolve working directory: ");
                out.append(message.as_str());
                out
            },
        }
    }
}

/// A ready-to-run command: an executable path, its arguments and its
/// environment.
#[derive(Debug)]
pub struct Command {
    pub command: String,
    pub args: Vec<String>,
    pub env: Vec<(String, String)>,
}

} // verus!
