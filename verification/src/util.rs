//! What the library is told of the world outside it: the build's environment
//! variables and the outcome of looking up a file. Also the escaping rule for
//! text inside a quoted string of a resource definition.

use crate::error::{ResError, ResErrorView};
use crate::text::{push_char, push_text};
use vstd::prelude::*;

verus! {

/// An environment variable that the build should have set and did not.
#[derive(Debug)]
pub struct EnvError(pub &'static str);

impl View for EnvError {
    type V = Seq<char>;

    /// The variable's name.
    open spec fn view(&self) -> Seq<char> {
        self.0@
    }
}

/// The message that reports the missing variable `var`.
pub open spec fn env_error_message(var: Seq<char>) -> Seq<char> {
    var + " environment varibale not found! Is it called from a build script?"@
}

impl EnvError {
    /// The error's message for the user.
    pub fn message(&self) -> (r: String)
        ensures
            r@ == env_error_message(self@),
    {
        let mut out = String::new();
        push_text(&mut out, self.0);
        push_text(&mut out, " environment varibale not found! Is it called from a build script?");
        out
    }
}

/// The environment variables that the build sets for a build script, each as
/// the caller read it: `None` where the variable is not set.
#[derive(Debug)]
pub struct BuildEnv {
    /// `CARGO_PKG_NAME`
    pub pkg_name: Option<String>,
    /// `CARGO_PKG_DESCRIPTION`
    pub pkg_description: Option<String>,
    /// `CARGO_PKG_VERSION`
    pub pkg_version: Option<String>,
    /// `CARGO_PKG_VERSION_MAJOR`
    pub version_major: Option<String>,
    /// `CARGO_PKG_VERSION_MINOR`
    pub version_minor: Option<String>,
    /// `CARGO_PKG_VERSION_PATCH`
    pub version_patch: Option<String>,
    /// `CARGO_PKG_VERSION_PRE`
    pub version_pre: Option<String>,
    /// `DEBUG`
    pub debug: Option<String>,
    /// `HOST`
    pub host: Option<String>,
    /// `OUT_DIR`
    pub out_dir: Option<String>,
}

/// The variables of a [`BuildEnv`] as sequences of characters.
pub ghost struct BuildEnvView {
    pub pkg_name: Option<Seq<char>>,
    pub pkg_description: Option<Seq<char>>,
    pub pkg_version: Option<Seq<char>>,
    pub version_major: Option<Seq<char>>,
    pub version_minor: Option<Seq<char>>,
    pub version_patch: Option<Seq<char>>,
    pub version_pre: Option<Seq<char>>,
    pub debug: Option<Seq<char>>,
    pub host: Option<Seq<char>>,
    pub out_dir: Option<Seq<char>>,
}

impl View for BuildEnv {
    type V = BuildEnvView;

    open spec fn view(&self) -> BuildEnvView {
        BuildEnvView {
            pkg_name: self.pkg_name.deep_view(),
            pkg_description: self.pkg_description.deep_view(),
            pkg_version: self.pkg_version.deep_view(),
            version_major: self.version_major.deep_view(),
            version_minor: self.version_minor.deep_view(),
            version_patch: self.version_patch.deep_view(),
            version_pre: self.version_pre.deep_view(),
            debug: self.debug.deep_view(),
            host: self.host.deep_view(),
            out_dir: self.out_dir.deep_view(),
        }
    }
}

impl BuildEnv {
    /// An environment in which none of the variables is set.
    pub fn new() -> (r: BuildEnv)
        ensures
            r@ == (BuildEnvView {
                pkg_name: None,
                pkg_description: None,
                pkg_version: None,
                version_major: None,
                version_minor: None,
                version_patch: None,
                version_pre: None,
                debug: None,
                host: None,
                out_dir: None,
            }),
    {
        BuildEnv {
            pkg_name: None,
            pkg_description: None,
            pkg_version: None,
            version_major: None,
            version_minor: None,
            version_patch: None,
            version_pre: None,
            debug: None,
            host: None,
            out_dir: None,
        }
    }
}

/// A path built by descending from a directory: the directory as the system
/// named it, and the names that lead from it to the file, outermost first.
#[derive(Debug)]
pub struct Location {
    pub base: String,
    pub names: Vec<String>,
}

/// A [`Location`] as sequences of characters.
pub ghost struct LocationView {
    pub base: Seq<char>,
    pub names: Seq<Seq<char>>,
}

impl View for Location {
    type V = LocationView;

    open spec fn view(&self) -> LocationView {
        LocationView { base: self.base@, names: self.names.deep_view() }
    }
}

impl DeepView for Location {
    type V = LocationView;

    open spec fn deep_view(&self) -> LocationView {
        self@
    }
}

impl Location {
    /// The same place once more.
    pub fn duplicate(&self) -> (r: Location)
        ensures
            r@ == self@,
    {
        let mut names: Vec<String> = Vec::new();
        let mut i: usize = 0;
        while i < self.names.len()
            invariant
                i <= self.names.len(),
                names.deep_view() == self.names.deep_view().take(i as int),
            decreases self.names.len() - i,
        {
            let ghost before = names.deep_view();
            let name = self.names[i].clone();
            names.push(name);
            proof {
                assert(names.deep_view() =~= before.push(name@));
                assert(self.names.deep_view()[i as int] == name@);
                assert(before.push(name@) =~= self.names.deep_view().take(i + 1));
            }
            i = i + 1;
        }
        proof {
            assert(self.names.deep_view().take(self.names.len() as int)
                == self.names.deep_view());
        }
        Location { base: self.base.clone(), names }
    }
}

/// The build's output directory.
pub fn out_dir(env: &BuildEnv) -> (r: Result<String, EnvError>)
    ensures
        match r {
            Ok(dir) => env@.out_dir == Some(dir@),
            Err(e) => env@.out_dir is None && e@ == "OUT_DIR"@,
        },
{
    match &env.out_dir {
        Some(dir) => Ok(dir.clone()),
        None => Err(EnvError("OUT_DIR")),
    }
}

/// The file `file` in the build's output directory.
pub fn out_file(env: &BuildEnv, file: &str) -> (r: Result<Location, EnvError>)
    ensures
        match r {
            Ok(place) => env@.out_dir is Some && place@ == (LocationView {
                base: env@.out_dir->0,
                names: seq![file@],
            }),
            Err(e) => env@.out_dir is None && e@ == "OUT_DIR"@,
        },
{
    match out_dir(env) {
        Ok(base) => {
            let mut names: Vec<String> = Vec::new();
            let mut name = String::new();
            push_text(&mut name, file);
            names.push(name);
            let place = Location { base, names };
            proof {
                assert(place.names.deep_view() =~= seq![file@]);
            }
            Ok(place)
        },
        Err(e) => Err(e),
    }
}

/// What stands for one character inside a quoted string: a double quote is
/// doubled; a backslash, a single quote, a line feed, a tab and a carriage
/// return are written as in C; every other character stands for itself.
pub open spec fn escape_char(c: char) -> Seq<char> {
    if c == '"' {
        seq!['"', '"']
    } else if c == '\'' {
        seq!['\\', '\'']
    } else if c == '\\' {
        seq!['\\', '\\']
    } else if c == '\n' {
        seq!['\\', 'n']
    } else if c == '\t' {
        seq!['\\', 't']
    } else if c == '\r' {
        seq!['\\', 'r']
    } else {
        seq![c]
    }
}

/// Whether the escaping rule rewrites `c`.
pub open spec fn is_special(c: char) -> bool {
    c == '"' || c == '\'' || c == '\\' || c == '\n' || c == '\t' || c == '\r'
}

/// `s` with each character replaced by what stands for it inside a quoted
/// string.
pub open spec fn escaped(s: Seq<char>) -> Seq<char>
    decreases s.len(),
{
    if s.len() == 0 {
        Seq::<char>::empty()
    } else {
        escaped(s.drop_last()) + escape_char(s.last())
    }
}

/// Escaping rewrites each of the six special characters to its two-character
/// form and leaves every other character as it is.
pub proof fn lemma_escape_one(c: char)
    ensures
        escaped(seq![c]) == escape_char(c),
        c == '"' ==> escaped(seq![c]) == seq!['"', '"'],
        c == '\\' ==> escaped(seq![c]) == seq!['\\', '\\'],
        c == '\'' ==> escaped(seq![c]) == seq!['\\', '\''],
        c == '\t' ==> escaped(seq![c]) == seq!['\\', 't'],
        c == '\r' ==> escaped(seq![c]) == seq!['\\', 'r'],
        c == '\n' ==> escaped(seq![c]) == seq!['\\', 'n'],
        !is_special(c) ==> escaped(seq![c]) == seq![c],
{
    assert(seq![c].drop_last() == Seq::<char>::empty());
    assert(escaped(Seq::<char>::empty()) == Seq::<char>::empty());
    assert(Seq::<char>::empty() + escape_char(c) == escape_char(c));
}

/// Escaping works character by character: the escaped form of two texts in
/// a row is the escaped form of the first followed by that of the second.
pub proof fn lemma_escape_concat(a: Seq<char>, b: Seq<char>)
    ensures
        escaped(a + b) == escaped(a) + escaped(b),
    decreases b.len(),
{
    if b.len() == 0 {
        assert(a + b == a);
        assert(escaped(a) + escaped(b) == escaped(a));
    } else {
        lemma_escape_concat(a, b.drop_last());
        assert((a + b).drop_last() == a + b.drop_last());
        assert((a + b).last() == b.last());
        assert(escaped(a + b) == (escaped(a) + escaped(b.drop_last())) + escape_char(b.last()));
        assert((escaped(a) + escaped(b.drop_last())) + escape_char(b.last()) == escaped(a) + (
        escaped(b.drop_last()) + escape_char(b.last())));
    }
}

/// Text without any of the six special characters is its own escaped form.
pub proof fn lemma_escape_plain(s: Seq<char>)
    requires
        forall|i: int| 0 <= i < s.len() ==> !is_special(#[trigger] s[i]),
    ensures
        escaped(s) == s,
    decreases s.len(),
{
    if s.len() == 0 {
        assert(s == Seq::<char>::empty());
    } else {
        assert forall|i: int| 0 <= i < s.drop_last().len() implies !is_special(
            #[trigger] s.drop_last()[i],
        ) by {
            assert(s.drop_last()[i] == s[i]);
        }
        lemma_escape_plain(s.drop_last());
        assert(!is_special(s[s.len() - 1]));
        assert(s.drop_last() + seq![s.last()] == s);
    }
}

/// The escaped form is at least as long as the text and holds no line feed,
/// tab or carriage return: an escaped value stays on its line.
pub proof fn lemma_escape_stays_on_line(s: Seq<char>)
    ensures
        escaped(s).len() >= s.len(),
        forall|i: int|
            0 <= i < escaped(s).len() ==> {
                let c = #[trigger] escaped(s)[i];
                c != '\n' && c != '\t' && c != '\r'
            },
    decreases s.len(),
{
    if s.len() > 0 {
        lemma_escape_stays_on_line(s.drop_last());
    }
}

/// Escapes a string for use inside a quoted string of a resource
/// definition.
pub fn escape(string: &str) -> (r: String)
    ensures
        r@ == escaped(string@),
{
    let mut out = String::new();
    let chars = string.chars();
    for c in it: chars
        invariant
            it.seq() == string@,
            out@ == escaped(string@.take(it.index())),
    {
        proof {
            assert(string@.take(it.index() + 1).drop_last() == string@.take(it.index()));
            assert(string@.take(it.index() + 1).last() == c);
        }
        let ghost before = out@;
        if c == '"' {
            push_char(&mut out, '"');
            push_char(&mut out, '"');
        } else if c == '\'' {
            push_char(&mut out, '\\');
            push_char(&mut out, '\'');
        } else if c == '\\' {
            push_char(&mut out, '\\');
            push_char(&mut out, '\\');
        } else if c == '\n' {
            push_char(&mut out, '\\');
            push_char(&mut out, 'n');
        } else if c == '\t' {
            push_char(&mut out, '\\');
            push_char(&mut out, 't');
        } else if c == '\r' {
            push_char(&mut out, '\\');
            push_char(&mut out, 'r');
        } else {
            push_char(&mut out, c);
        }
        proof {
            assert(out@ =~= before + escape_char(c));
        }
    }
    proof {
        assert(string@.take(string@.len() as int) == string@);
    }
    out
}

/// What the caller found when it brought a file's path into canonical,
/// absolute form.
#[derive(Debug)]
pub enum Found {
    /// The canonical path, as text.
    Path(String),
    /// The file is there, but its canonical path is no valid Unicode text.
    NotUnicode,
    /// The file could not be stored or its path not resolved; the text is the
    /// system's message.
    Failed(String),
}

/// A [`Found`] as sequences of characters.
pub ghost enum FoundView {
    Path(Seq<char>),
    NotUnicode,
    Failed(Seq<char>),
}

impl View for Found {
    type V = FoundView;

    open spec fn view(&self) -> FoundView {
        match self {
            Found::Path(p) => FoundView::Path(p@),
            Found::NotUnicode => FoundView::NotUnicode,
            Found::Failed(m) => FoundView::Failed(m@),
        }
    }
}

impl DeepView for Found {
    type V = FoundView;

    open spec fn deep_view(&self) -> FoundView {
        self@
    }
}

/// The text that refers to a file inside a quoted string, or the error that
/// stands for a file that cannot be referred to.
pub open spec fn escaped_path(found: FoundView) -> Result<Seq<char>, ResErrorView> {
    match found {
        FoundView::Path(p) => Ok(escaped(p)),
        FoundView::NotUnicode => Err(
            ResErrorView::Custom("Failed to convert path to string! Not a valid UTF-8?"@),
        ),
        FoundView::Failed(m) => Err(ResErrorView::Io(m)),
    }
}

/// The escaped canonical path of a file, from what was found of it: a path
/// that could not be resolved is an I/O failure, one that is no Unicode text
/// cannot be written into a resource definition.
pub fn escape_path(found: &Found) -> (r: Result<String, ResError>)
    ensures
        match r {
            Ok(p) => escaped_path(found@) == Ok::<Seq<char>, ResErrorView>(p@),
            Err(e) => escaped_path(found@) == Err::<Seq<char>, ResErrorView>(e@),
        },
{
    match found {
        Found::Path(p) => Ok(escape(p.as_str())),
        Found::NotUnicode => Err(
            ResError::Custom("Failed to convert path to string! Not a valid UTF-8?"),
        ),
        Found::Failed(m) => Err(ResError::Io(m.clone())),
    }
}

} // verus!

verus! {

/// What a resource needs of the file system before it can be written.
#[derive(Debug)]
pub enum FileNeed {
    /// The canonical, absolute form of this path.
    Resolve(String),
    /// This text stored in the file at this place, and then the canonical,
    /// absolute path of that file.
    Store(Location, String),
}

/// A [`FileNeed`] as sequences of characters.
pub ghost enum FileNeedView {
    Resolve(Seq<char>),
    Store(LocationView, Seq<char>),
}

impl View for FileNeed {
    type V = FileNeedView;

    open spec fn view(&self) -> FileNeedView {
        match self {
            FileNeed::Resolve(path) => FileNeedView::Resolve(path@),
            FileNeed::Store(place, contents) => FileNeedView::Store(place@, contents@),
        }
    }
}

impl DeepView for FileNeed {
    type V = FileNeedView;

    open spec fn deep_view(&self) -> FileNeedView {
        self@
    }
}

} // verus!
