//! What the user asked for, settled once before any work starts.
use vstd::prelude::*;
use vstd::string::*;
use crate::error::AccessMode;

verus! {

/// The work of one session. It is made once, from the arguments, and only
/// read afterwards.
#[derive(Clone, Debug, PartialEq, Eq)]
pub struct Config {
    /// The store directory, with forward slashes and no slash at its end.
    pub database_dir: String,
    /// The named database to work on; the unnamed one when absent.
    pub database: Option<String>,
    /// Whether the keys and value sizes are listed.
    pub list: bool,
    /// The key whose value is written to a file.
    pub extract: Option<String>,
    /// Whether every value is written to a file named after its key.
    pub extract_all: bool,
    /// The file to store; its path as given is its key.
    pub insert: Option<String>,
    /// Where the value of `extract` goes; to a file named after the key when
    /// absent.
    pub out_file: Option<String>,
}

/// What a [`Config`] stands for.
pub struct ConfigView {
    pub database_dir: Seq<char>,
    pub database: Option<Seq<char>>,
    pub list: bool,
    pub extract: Option<Seq<char>>,
    pub extract_all: bool,
    pub insert: Option<Seq<char>>,
    pub out_file: Option<Seq<char>>,
}

/// An optional text by its view.
pub open spec fn text_of(text: Option<String>) -> Option<Seq<char>> {
    match text {
        Some(t) => Some(t@),
        None => None,
    }
}

/// An optional borrowed text by its view.
pub open spec fn str_of(text: Option<&str>) -> Option<Seq<char>> {
    match text {
        Some(t) => Some(t@),
        None => None,
    }
}

impl View for Config {
    type V = ConfigView;

    open spec fn view(&self) -> ConfigView {
        ConfigView {
            database_dir: self.database_dir@,
            database: text_of(self.database),
            list: self.list,
            extract: text_of(self.extract),
            extract_all: self.extract_all,
            insert: text_of(self.insert),
            out_file: text_of(self.out_file),
        }
    }
}

impl ConfigView {
    /// The directory is opened for writing exactly when a file is to be
    /// stored.
    pub open spec fn mode(self) -> AccessMode {
        if self.insert is Some {
            AccessMode::ReadWrite
        } else {
            AccessMode::ReadOnly
        }
    }

    /// Where the value of `key` is written.
    pub open spec fn output_path(self, key: Seq<char>) -> Seq<char> {
        match self.out_file {
            Some(path) => path,
            None => key,
        }
    }
}

/// `path` with every backslash turned into a forward slash.
pub open spec fn with_forward_slashes(path: Seq<char>) -> Seq<char> {
    Seq::new(
        path.len(),
        |i: int|
            if path[i] == '\\' {
                '/'
            } else {
                path[i]
            },
    )
}

/// `path` without the forward slashes at its end.
pub open spec fn without_trailing_slashes(path: Seq<char>) -> Seq<char>
    decreases path.len(),
{
    if path.len() > 0 && path.last() == '/' {
        without_trailing_slashes(path.drop_last())
    } else {
        path
    }
}

/// The store directory as it is used: forward slashes only, none at the end.
pub open spec fn normalized_dir(path: Seq<char>) -> Seq<char> {
    without_trailing_slashes(with_forward_slashes(path))
}

/// Brings a directory argument into the form in which it is used.
pub fn normalize_dir(dir: &str) -> (normal: String)
    ensures
        normal@ == normalized_dir(dir@),
{
    proof {
        reveal_strlit("/");
    }
    let ghost slashed = with_forward_slashes(dir@);
    let mut end: usize = dir.unicode_len();
    proof {
        assert(slashed.take(end as int) =~= slashed);
    }
    while end > 0 && (dir.get_char(end - 1) == '/' || dir.get_char(end - 1) == '\\')
        invariant
            end <= dir@.len(),
            slashed == with_forward_slashes(dir@),
            without_trailing_slashes(slashed) == without_trailing_slashes(slashed.take(end as int)),
        decreases end,
    {
        proof {
            let kept = slashed.take(end as int);
            assert(kept.last() == '/');
            assert(kept.drop_last() =~= slashed.take(end - 1));
        }
        end = end - 1;
    }
    proof {
        let kept = slashed.take(end as int);
        if end > 0 {
            assert(kept.last() == slashed[end - 1]);
        }
        assert(without_trailing_slashes(kept) == kept);
    }
    let mut normal = String::new();
    let mut at: usize = 0;
    while at < end
        invariant
            at <= end <= dir@.len(),
            slashed == with_forward_slashes(dir@),
            "/"@ == seq!['/'],
            normal@ == slashed.take(at as int),
        decreases end - at,
    {
        if dir.get_char(at) == '\\' {
            normal.append("/");
        } else {
            normal.append(dir.substring_char(at, at + 1));
        }
        at = at + 1;
        assert(normal@ =~= slashed.take(at as int));
    }
    normal
}

/// An owned copy of an optional text.
pub(crate) fn owned(text: Option<&str>) -> (copy: Option<String>)
    ensures
        text_of(copy) == str_of(text),
{
    match text {
        Some(t) => Some(String::from_str(t)),
        None => None,
    }
}

impl Config {
    /// Settles the work of a session from the arguments as they were given.
    ///
    /// The directory defaults to the current one. The listing is made when it
    /// is asked for, and also when neither a single key is extracted nor a
    /// file stored.
    pub fn from_arguments(
        dir: Option<&str>,
        database: Option<&str>,
        list: bool,
        extract: Option<&str>,
        extract_all: bool,
        insert: Option<&str>,
        out_file: Option<&str>,
    ) -> (config: Config)
        ensures
            config@ == (ConfigView {
                database_dir: normalized_dir(
                    match dir {
                        Some(d) => d@,
                        None => "."@,
                    },
                ),
                database: str_of(database),
                list: list || (extract is None && insert is None),
                extract: str_of(extract),
                extract_all,
                insert: str_of(insert),
                out_file: str_of(out_file),
            }),
    {
        let database_dir = match dir {
            Some(d) => normalize_dir(d),
            None => normalize_dir("."),
        };
        Config {
            database_dir,
            database: owned(database),
            list: list || (extract.is_none() && insert.is_none()),
            extract: owned(extract),
            extract_all,
            insert: owned(insert),
            out_file: owned(out_file),
        }
    }

    /// The mode in which the store directory is opened.
    pub fn mode(&self) -> (mode: AccessMode)
        ensures
            mode == self@.mode(),
    {
        if self.insert.is_some() {
            AccessMode::ReadWrite
        } else {
            AccessMode::ReadOnly
        }
    }
}

} // verus!
