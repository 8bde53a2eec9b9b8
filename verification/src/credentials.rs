//! Where the API key is kept: the place is worked out from the environment
//! that the caller read, without touching the file system.

use vstd::prelude::*;

verus! {

/// The two environment variables that decide where the key is kept, as the
/// caller found them: `None` for one that is unset or not valid text.
pub struct Environment {
    /// `XDG_DATA_HOME`
    pub xdg_data_home: Option<String>,
    /// `HOME`
    pub home: Option<String>,
}

pub struct EnvironmentView {
    pub xdg_data_home: Option<Seq<char>>,
    pub home: Option<Seq<char>>,
}

impl View for Environment {
    type V = EnvironmentView;

    open spec fn view(&self) -> EnvironmentView {
        EnvironmentView {
            xdg_data_home: match self.xdg_data_home {
                Some(base) => Some(base@),
                None => None,
            },
            home: match self.home {
                Some(home) => Some(home@),
                None => None,
            },
        }
    }
}

/// The key file and the directory that holds it.
pub struct CredentialLocation {
    pub directory: String,
    pub file: String,
}

pub struct CredentialLocationView {
    pub directory: Seq<char>,
    pub file: Seq<char>,
}

impl View for CredentialLocation {
    type V = CredentialLocationView;

    open spec fn view(&self) -> CredentialLocationView {
        CredentialLocationView { directory: self.directory@, file: self.file@ }
    }
}

/// Why the key could not be read or written.
#[derive(Debug, PartialEq, Eq)]
pub enum CredentialError {
    /// There is no key file: nobody has authenticated yet.
    NotFound,
    /// The file system refused; `reason` is its message.
    Io { reason: String },
}

pub enum CredentialErrorView {
    NotFound,
    Io { reason: Seq<char> },
}

impl View for CredentialError {
    type V = CredentialErrorView;

    open spec fn view(&self) -> CredentialErrorView {
        match self {
            CredentialError::NotFound => CredentialErrorView::NotFound,
            CredentialError::Io { reason } => CredentialErrorView::Io { reason: reason@ },
        }
    }
}

/// `tail` appended to the path `base`: a `/` goes between them unless `base`
/// is empty or already ends in one.
pub open spec fn joined(base: Seq<char>, tail: Seq<char>) -> Seq<char> {
    if base.len() == 0 || base.last() == '/' {
        base + tail
    } else {
        base + seq!['/'] + tail
    }
}

/// The key file `key` in the directory `folder` under `base`.
pub open spec fn location_under(base: Seq<char>, folder: Seq<char>) -> CredentialLocationView {
    CredentialLocationView {
        directory: joined(base, folder),
        file: joined(joined(base, folder), "key"@),
    }
}

/// Where the key is kept in the environment `environment`: under
/// `XDG_DATA_HOME` in `card`, else under `HOME` in `.local/share/card`, and
/// nowhere when neither is set.
pub open spec fn resolved(environment: EnvironmentView) -> Option<CredentialLocationView> {
    match environment.xdg_data_home {
        Some(base) => Some(location_under(base, "card"@)),
        None => match environment.home {
            Some(home) => Some(location_under(home, ".local/share/card"@)),
            None => None,
        },
    }
}

/// Appends `tail` to the path `base`.
pub fn join(base: &str, tail: &str) -> (path: String)
    ensures
        path@ == joined(base@, tail@),
{
    let length = base.unicode_len();
    let mut path = base.to_owned();
    if length > 0 && base.get_char(length - 1) != '/' {
        proof {
            reveal_strlit("/");
            assert("/"@ =~= seq!['/']);
        }
        path.append("/");
    }
    path.append(tail);
    path
}

fn locate(base: &str, folder: &str) -> (location: CredentialLocation)
    ensures
        location@ == location_under(base@, folder@),
{
    let directory = join(base, folder);
    let file = join(directory.as_str(), "key");
    CredentialLocation { directory, file }
}

/// Works out where the key is kept. An explicit data directory wins over the
/// home directory; a variable that is set counts even when it is empty.
pub fn resolve_path(environment: &Environment) -> (location: Option<CredentialLocation>)
    ensures
        match location {
            Some(location) => resolved(environment@) == Some(location@),
            None => resolved(environment@) is None,
        },
{
    match &environment.xdg_data_home {
        Some(base) => Some(locate(base.as_str(), "card")),
        None => match &environment.home {
            Some(home) => Some(locate(home.as_str(), ".local/share/card")),
            None => None,
        },
    }
}

} // verus!
