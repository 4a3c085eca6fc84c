//! Where amp keeps its threads.
use vstd::prelude::*;
use vstd::string::*;
use crate::os_path::OsPath;
use crate::text::same_text;

verus! {

/// A directory, told by how it is found.
pub enum ThreadsDir {
    /// The path itself.
    Given(OsPath),
    /// The path that the text spells.
    Spelled(String),
    /// The user's home directory.
    Home,
    /// What the user's home directory becomes when these are joined to it, one
    /// after the other.
    UnderHome(Vec<String>),
}

/// What a `ThreadsDir` says.
pub enum ThreadsDirModel {
    Given(Seq<u8>),
    Spelled(Seq<char>),
    Home,
    UnderHome(Seq<Seq<char>>),
}

impl View for ThreadsDir {
    type V = ThreadsDirModel;

    open spec fn view(&self) -> ThreadsDirModel {
        match self {
            ThreadsDir::Given(path) => ThreadsDirModel::Given(path@),
            ThreadsDir::Spelled(text) => ThreadsDirModel::Spelled(text@),
            ThreadsDir::Home => ThreadsDirModel::Home,
            ThreadsDir::UnderHome(parts) => ThreadsDirModel::UnderHome(
                parts@.map_values(|part: String| part@),
            ),
        }
    }
}

/// What an optional directory says.
pub open spec fn optional_dir(dir: Option<ThreadsDir>) -> Option<ThreadsDirModel> {
    match dir {
        Some(d) => Some(d@),
        None => None,
    }
}

/// Whether `input` starts with `~/`.
pub open spec fn is_under_tilde(input: Seq<char>) -> bool {
    input.len() >= 2 && input[0] == '~' && input[1] == '/'
}

/// The directory that `input` spells, with a leading `~` for the home directory
/// where that is known. `~name` is not expanded.
pub open spec fn expanded(input: Seq<char>, home_known: bool) -> ThreadsDirModel {
    if home_known && input == seq!['~'] {
        ThreadsDirModel::Home
    } else if home_known && is_under_tilde(input) {
        ThreadsDirModel::UnderHome(seq![input.skip(2)])
    } else {
        ThreadsDirModel::Spelled(input)
    }
}

/// Expands a leading `~`.
pub fn expand_tilde(input: &str, home_known: bool) -> (res: ThreadsDir)
    ensures
        res@ == expanded(input@, home_known),
        match res {
            ThreadsDir::Given(_) => false,
            ThreadsDir::Spelled(text) => text@ == input@,
            ThreadsDir::Home => home_known && input@ == seq!['~'],
            ThreadsDir::UnderHome(parts) => home_known && parts@.len() == 1 && input@ == seq![
                '~',
                '/',
            ] + parts@[0]@,
        },
        home_known && input@.len() > 0 && input@[0] == '~' && (input@.len() == 1 || input@[1]
            == '/') ==> !(res is Spelled),
{
    proof {
        reveal_strlit("~");
        assert("~"@ =~= seq!['~']);
    }
    if home_known {
        assert(input@.len() == 1 && input@[0] == '~' ==> input@ =~= seq!['~']);
        if same_text(input, "~") {
            return ThreadsDir::Home;
        }
        let n = input.unicode_len();
        if n >= 2 && input.get_char(0) == '~' && input.get_char(1) == '/' {
            let rest = input.substring_char(2, n).to_owned();
            assert(rest@ =~= input@.skip(2));
            let mut parts: Vec<String> = Vec::new();
            parts.push(rest);
            let res = ThreadsDir::UnderHome(parts);
            assert(parts@.map_values(|part: String| part@) =~= seq![input@.skip(2)]);
            assert(input@ =~= seq!['~', '/'] + input@.skip(2));
            return res;
        }
    }
    ThreadsDir::Spelled(input.to_owned())
}

/// The directory below the home directory in which amp keeps its threads.
pub open spec fn default_threads_dir() -> ThreadsDirModel {
    ThreadsDirModel::UnderHome(seq![".local"@, "share"@, "amp"@, "threads"@])
}

/// The directory that the environment names or, where it names none, the one
/// below the home directory, if that is known.
pub open spec fn chosen_threads_dir(env_dir: Option<Seq<char>>, home_known: bool) -> Option<
    ThreadsDirModel,
> {
    match env_dir {
        Some(dir) => Some(expanded(dir, home_known)),
        None => if home_known {
            Some(default_threads_dir())
        } else {
            None
        },
    }
}

/// Where amp keeps its threads, given what `AMP_THREADS_DIR` holds and whether
/// the home directory is known.
pub fn amp_threads_dir(env_dir: Option<&str>, home_known: bool) -> (res: Option<ThreadsDir>)
    ensures
        optional_dir(res) == chosen_threads_dir(crate::text::optional_str(env_dir), home_known),
        env_dir matches Some(dir) ==> (res matches Some(found) && found@ == expanded(
            dir@,
            home_known,
        )),
        env_dir is None && !home_known ==> res is None,
        env_dir is None && home_known ==> {
            &&& res matches Some(ThreadsDir::UnderHome(parts))
            &&& parts@.len() == 4
            &&& parts@[0]@ == ".local"@ && parts@[1]@ == "share"@ && parts@[2]@ == "amp"@
                && parts@[3]@ == "threads"@
        },
{
    match env_dir {
        Some(dir) => Some(expand_tilde(dir, home_known)),
        None => {
            if home_known {
                let mut parts: Vec<String> = Vec::new();
                parts.push(".local".to_owned());
                parts.push("share".to_owned());
                parts.push("amp".to_owned());
                parts.push("threads".to_owned());
                assert(parts@.map_values(|part: String| part@) =~= seq![
                    ".local"@,
                    "share"@,
                    "amp"@,
                    "threads"@,
                ]);
                Some(ThreadsDir::UnderHome(parts))
            } else {
                None
            }
        },
    }
}

/// Fills a thread index from the files that amp keeps.
pub struct AmpHydrator {
    override_dir: Option<OsPath>,
}

impl View for AmpHydrator {
    type V = Option<Seq<u8>>;

    /// The directory to scan in place of the one that amp uses.
    closed spec fn view(&self) -> Option<Seq<u8>> {
        match self.override_dir {
            Some(dir) => Some(dir@),
            None => None,
        }
    }
}

impl AmpHydrator {
    /// A hydrator for the directory that amp uses.
    pub fn new() -> (res: Self)
        ensures
            res@ == None::<Seq<u8>>,
    {
        AmpHydrator { override_dir: None }
    }

    /// A hydrator for `dir`.
    pub fn with_override_dir(dir: OsPath) -> (res: Self)
        ensures
            res@ == Some(dir@),
    {
        AmpHydrator { override_dir: Some(dir) }
    }

    /// The directory to scan: the one this hydrator was made for or else the
    /// one that amp uses, if there is one.
    pub fn scanned_dir(&self, env_dir: Option<&str>, home_known: bool) -> (res: Option<ThreadsDir>)
        ensures
            optional_dir(res) == (match self@ {
                Some(dir) => Some(ThreadsDirModel::Given(dir)),
                None => chosen_threads_dir(crate::text::optional_str(env_dir), home_known),
            }),
    {
        match &self.override_dir {
            Some(dir) => Some(ThreadsDir::Given(dir.clone())),
            None => amp_threads_dir(env_dir, home_known),
        }
    }
}

impl Default for AmpHydrator {
    fn default() -> (res: Self)
        ensures
            res@ == None::<Seq<u8>>,
    {
        AmpHydrator::new()
    }
}

/// Only a `~` that stands alone or before a `/` is expanded, and only where the
/// home directory is known; everything else is taken as it is spelled.
pub proof fn only_a_leading_tilde_is_expanded(input: Seq<char>, home_known: bool)
    ensures
        expanded(input, home_known) == ThreadsDirModel::Spelled(input) <==> !home_known || (input
            != seq!['~'] && !is_under_tilde(input)),
{
}

/// A `~` alone is the home directory, what stands behind `~/` is below it, and
/// where the home directory is not known, nothing is expanded.
pub proof fn the_tilde_stands_for_home(rest: Seq<char>, input: Seq<char>)
    ensures
        expanded(seq!['~'], true) == ThreadsDirModel::Home,
        expanded(seq!['~', '/'] + rest, true) == ThreadsDirModel::UnderHome(seq![rest]),
        expanded(input, false) == ThreadsDirModel::Spelled(input),
        input.len() > 0 && input[0] != '~' ==> expanded(input, true) == ThreadsDirModel::Spelled(
            input,
        ),
        input.len() > 1 && input[1] != '/' ==> expanded(input, true) == ThreadsDirModel::Spelled(
            input,
        ),
{
    let under = seq!['~', '/'] + rest;
    assert(under.skip(2) =~= rest);
    assert(under.len() >= 2 && seq!['~'].len() == 1);
}

/// What the environment names goes before what stands below the home directory,
/// which is where amp keeps its threads otherwise.
pub proof fn the_environment_names_the_directory(dir: Seq<char>, home_known: bool)
    ensures
        chosen_threads_dir(Some(dir), home_known) == Some(expanded(dir, home_known)),
        chosen_threads_dir(None, true) == Some(
            ThreadsDirModel::UnderHome(seq![".local"@, "share"@, "amp"@, "threads"@]),
        ),
        chosen_threads_dir(None, false) is None,
{
}

} // verus!
