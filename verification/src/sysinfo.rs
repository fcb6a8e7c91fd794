//! The application catalog and the command lines derived from it.

use vstd::prelude::*;
use crate::text::contains_char;
use crate::text::same_text;
use crate::text::split;
use crate::text::split_text;
use crate::text::texts;

verus! {

/// The kind of default application that opens a target.
#[derive(Debug, PartialEq, Eq)]
pub enum DefaultApplicationType {
    FileExplorer,
    Browser,
    Mime(String),
}

/// A `DefaultApplicationType` as a mathematical value.
pub enum DefaultApplicationKind {
    FileExplorer,
    Browser,
    Mime(Seq<char>),
}

impl View for DefaultApplicationType {
    type V = DefaultApplicationKind;

    open spec fn view(&self) -> DefaultApplicationKind {
        match self {
            DefaultApplicationType::FileExplorer => DefaultApplicationKind::FileExplorer,
            DefaultApplicationType::Browser => DefaultApplicationKind::Browser,
            DefaultApplicationType::Mime(mime) => DefaultApplicationKind::Mime(mime@),
        }
    }
}

impl Clone for DefaultApplicationType {
    fn clone(&self) -> (copy: Self)
        ensures
            copy@ == self@,
    {
        match self {
            DefaultApplicationType::FileExplorer => DefaultApplicationType::FileExplorer,
            DefaultApplicationType::Browser => DefaultApplicationType::Browser,
            DefaultApplicationType::Mime(mime) => DefaultApplicationType::Mime(mime.clone()),
        }
    }
}

/// Why a target could not be opened.
#[derive(Debug, Clone, Copy, PartialEq, Eq, Structural)]
pub enum FileOpenError {
    DefaultAppNotFound,
}

/// One launchable entry of the application catalog, with its name already
/// resolved for the user's locale.
#[derive(Debug, PartialEq, Eq)]
pub struct CatalogEntry {
    pub id: String,
    pub name: String,
    pub comment: Option<String>,
    pub icon: Option<String>,
    /// The tokens of the entry's command line, where it has one.
    pub command: Option<Vec<String>>,
    pub no_display: bool,
}

/// A `CatalogEntry` as a mathematical value.
pub struct CatalogEntryView {
    pub id: Seq<char>,
    pub name: Seq<char>,
    pub comment: Option<Seq<char>>,
    pub icon: Option<Seq<char>>,
    pub command: Option<Seq<Seq<char>>>,
    pub no_display: bool,
}

/// The text held by an optional string.
pub open spec fn opt_text(value: Option<String>) -> Option<Seq<char>> {
    match value {
        Some(s) => Some(s@),
        None => None,
    }
}

impl View for CatalogEntry {
    type V = CatalogEntryView;

    open spec fn view(&self) -> CatalogEntryView {
        CatalogEntryView {
            id: self.id@,
            name: self.name@,
            comment: opt_text(self.comment),
            icon: opt_text(self.icon),
            command: match self.command {
                Some(tokens) => Some(texts(tokens@)),
                None => None,
            },
            no_display: self.no_display,
        }
    }
}

/// The entries of a catalog as mathematical values.
pub open spec fn catalog(list: Seq<CatalogEntry>) -> Seq<CatalogEntryView> {
    list.map_values(|e: CatalogEntry| e@)
}

/// The catalog as loaded at start: the user's locales and the entries found.
#[derive(Debug)]
pub struct SysInfoLoader {
    pub locales: Vec<String>,
    pub desktop_entries: Vec<CatalogEntry>,
}

/// The MIME type whose default application opens targets of the given kind.
pub open spec fn mime_type_of(app_type: DefaultApplicationKind) -> Seq<char> {
    match app_type {
        DefaultApplicationKind::FileExplorer => "inode/directory"@,
        DefaultApplicationKind::Browser => "text/html"@,
        DefaultApplicationKind::Mime(mime) => mime,
    }
}

/// A token that stands for something the launcher would have to fill in.
pub open spec fn is_placeholder(token: Seq<char>) -> bool {
    token.contains('%') || token.contains('@')
}

/// The tokens of a command line that are not placeholders, in order.
pub open spec fn command_tokens(tokens: Seq<Seq<char>>) -> Seq<Seq<char>>
    decreases tokens.len(),
{
    if tokens.len() == 0 {
        Seq::empty()
    } else if is_placeholder(tokens.last()) {
        command_tokens(tokens.drop_last())
    } else {
        command_tokens(tokens.drop_last()).push(tokens.last())
    }
}

/// The command line of a catalog entry without its placeholders; empty where
/// the entry has none.
pub open spec fn entry_command(entry: CatalogEntryView) -> Seq<Seq<char>> {
    match entry.command {
        Some(tokens) => command_tokens(tokens),
        None => Seq::empty(),
    }
}

/// The command line that opens `path` with the application whose own command
/// line is `app_cmd`.
pub open spec fn open_cmd_of(app_cmd: Seq<char>, path: Seq<char>) -> Seq<Seq<char>> {
    command_tokens(split_text(app_cmd, " "@)).push(path)
}

/// Copies the tokens that are not placeholders.
fn keep_command_tokens(tokens: &Vec<String>) -> (kept: Vec<String>)
    ensures
        texts(kept@) == command_tokens(texts(tokens@)),
{
    let mut kept: Vec<String> = Vec::new();
    let mut i: usize = 0;
    while i < tokens.len()
        invariant
            i <= tokens.len(),
            texts(kept@) == command_tokens(texts(tokens@).take(i as int)),
        decreases tokens.len() - i,
    {
        let ghost before = kept@;
        let ghost next = texts(tokens@).take(i + 1);
        assert(next.drop_last() =~= texts(tokens@).take(i as int));
        assert(next.last() == tokens@[i as int]@);
        let token = &tokens[i];
        if !contains_char(token.as_str(), '%') && !contains_char(token.as_str(), '@') {
            kept.push(token.clone());
            assert(texts(kept@) =~= texts(before).push(tokens@[i as int]@));
        }
        i += 1;
    }
    assert(texts(tokens@).take(tokens.len() as int) =~= texts(tokens@));
    kept
}

impl SysInfoLoader {
    /// Holds the locales and the catalog entries as given.
    pub fn new(locales: Vec<String>, desktop_entries: Vec<CatalogEntry>) -> (loader: Self)
        ensures
            loader.locales == locales,
            loader.desktop_entries == desktop_entries,
    {
        SysInfoLoader { locales, desktop_entries }
    }

    /// The command line of the default application as the resolver found it;
    /// the error where it found none.
    pub fn get_default_app_cmd(resolved: Option<String>) -> (cmd: Result<String, FileOpenError>)
        ensures
            match resolved {
                Some(found) => cmd == Ok::<String, FileOpenError>(found),
                None => cmd == Err::<String, FileOpenError>(FileOpenError::DefaultAppNotFound),
            },
    {
        match resolved {
            Some(found) => Ok(found),
            None => Err(FileOpenError::DefaultAppNotFound),
        }
    }

    /// The first entry of the catalog with the id that the resolver named as
    /// default application, if the catalog has one.
    pub fn get_mimetype_default_app(&self, app: &str) -> (entry: Option<&CatalogEntry>)
        ensures
            match entry {
                Some(found) => exists|at: int|
                    0 <= at < self.desktop_entries@.len() && self.desktop_entries@[at] == *found
                        && found.id@ == app@ && forall|k: int|
                        0 <= k < at ==> (#[trigger] self.desktop_entries@[k]).id@ != app@,
                None => forall|k: int|
                    0 <= k < self.desktop_entries@.len() ==> (#[trigger] self.desktop_entries@[k]).id@
                        != app@,
            },
    {
        let mut i: usize = 0;
        while i < self.desktop_entries.len()
            invariant
                i <= self.desktop_entries.len(),
                forall|k: int| 0 <= k < i ==> (#[trigger] self.desktop_entries@[k]).id@ != app@,
            decreases self.desktop_entries.len() - i,
        {
            let e = &self.desktop_entries[i];
            if same_text(e.id.as_str(), app) {
                return Some(e);
            }
            i += 1;
        }
        None
    }

    /// The MIME type to ask the default-application resolver about.
    pub fn default_app_mime(app_type: &DefaultApplicationType) -> (mime: String)
        ensures
            mime@ == mime_type_of(app_type@),
    {
        match app_type {
            DefaultApplicationType::FileExplorer => "inode/directory".to_owned(),
            DefaultApplicationType::Browser => "text/html".to_owned(),
            DefaultApplicationType::Mime(mime) => mime.clone(),
        }
    }

    /// The command line that opens `path`: the default application's own
    /// command line without its placeholders, then `path` as last argument.
    pub fn get_open_cmd(app_cmd: &str, path: &str) -> (cmd: Vec<String>)
        ensures
            texts(cmd@) == open_cmd_of(app_cmd@, path@),
    {
        let mut cmd = SysInfoLoader::cmd_str(app_cmd);
        let ghost before = cmd@;
        cmd.push(path.to_owned());
        assert(texts(cmd@) =~= texts(before).push(path@));
        cmd
    }

    /// The tokens of a command line written with single spaces between them,
    /// without the placeholders.
    pub fn cmd_str(s: &str) -> (cmd: Vec<String>)
        ensures
            texts(cmd@) == command_tokens(split_text(s@, " "@)),
    {
        let tokens = split(s, " ");
        keep_command_tokens(&tokens)
    }

    /// The command line of a catalog entry without its placeholders; empty
    /// where the entry has none.
    pub fn cmd(e: &CatalogEntry) -> (cmd: Vec<String>)
        ensures
            texts(cmd@) == entry_command(e@),
    {
        match &e.command {
            Some(tokens) => keep_command_tokens(tokens),
            None => {
                let cmd: Vec<String> = Vec::new();
                assert(texts(cmd@) =~= Seq::<Seq<char>>::empty());
                cmd
            },
        }
    }
}

} // verus!
