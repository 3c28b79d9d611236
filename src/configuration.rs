//! The command line of the cleaner and the configuration it yields.
use vstd::prelude::*;
use vstd::string::StringExecFns;

verus! {

/// The extension of a path as `std::path::Path::extension` finds it, empty
/// where it finds none or where the extension is not valid UTF-8.
pub uninterp spec fn path_extension(path: Seq<char>) -> Seq<char>;

/// Relies on `std::path::Path::extension`: the part of the file name after its
/// last `.`, or nothing; a path without any `.` has no extension.
#[verifier::external_body]
fn extension_of(path: &str) -> (r: String)
    ensures
        r@ == path_extension(path@),
        !path@.contains('.') ==> r@.len() == 0,
{
    std::path::Path::new(path).extension().and_then(|e| e.to_str()).unwrap_or_default().to_string()
}

/// `a` and `b` are the same letter up to ASCII case, or the same character.
pub open spec fn ascii_same_ignoring_case(a: char, b: char) -> bool {
    ||| a == b
    ||| ('A' <= a <= 'Z' && b as u32 == a as u32 + 32)
    ||| ('a' <= a <= 'z' && a as u32 == b as u32 + 32)
}

/// `s` and `t` match character by character up to ASCII case.
pub open spec fn ascii_equal_ignoring_case(s: Seq<char>, t: Seq<char>) -> bool {
    &&& s.len() == t.len()
    &&& forall|i: int| 0 <= i < s.len() ==> ascii_same_ignoring_case(#[trigger] s[i], t[i])
}

/// The extensions that mark a file as an SQLite database.
pub open spec fn is_database_extension_spec(ext: Seq<char>) -> bool {
    ascii_equal_ignoring_case(ext, seq!['d', 'b'])
        || ascii_equal_ignoring_case(ext, seq!['s', 'q', 'l', 'i', 't', 'e'])
}

/// Whether a command line of `n` words has the shape the cleaner accepts: the
/// program and the database path, optionally followed by two more words.
pub open spec fn accepted_argument_count(n: int) -> bool {
    n == 2 || n == 4
}

/// Why a command line yields no configuration.
#[derive(Debug, Clone, PartialEq, Eq)]
pub enum ConfigError {
    /// The command line holds this many words, which is not an accepted count.
    ArgumentCount(usize),
    /// The database path has this extension, which is neither `db` nor `sqlite`.
    Extension(String),
}

impl ConfigError {
    /// The message that explains the error to the user.
    pub fn message(&self) -> (r: String)
        ensures
            self is ArgumentCount ==> r@ == argument_count_text(),
            self is Extension ==> r@ == extension_text() + self->Extension_0@,
    {
        match self {
            ConfigError::ArgumentCount(_) => String::from_str(
                "The program needs 1 argument: the path to the database file",
            ),
            ConfigError::Extension(ext) => {
                let mut r = String::from_str(
                    "The database file must be a sqlite file with extension .db or .sqlite, but got: ",
                );
                r.append(ext.as_str());
                r
            },
        }
    }
}

/// The text of the message for a wrong number of words.
pub open spec fn argument_count_text() -> Seq<char> {
    "The program needs 1 argument: the path to the database file"@
}

/// The text that starts the message for a wrong extension.
pub open spec fn extension_text() -> Seq<char> {
    "The database file must be a sqlite file with extension .db or .sqlite, but got: "@
}

/// Whether `a` and `b` are the same letter up to ASCII case.
fn same_ignoring_case(a: char, b: char) -> (r: bool)
    ensures
        r == ascii_same_ignoring_case(a, b),
{
    if a == b {
        true
    } else if 'A' <= a && a <= 'Z' {
        b as u32 == a as u32 + 32
    } else if 'a' <= a && a <= 'z' {
        a as u32 == b as u32 + 32
    } else {
        false
    }
}

/// Whether `s` equals `t` up to ASCII case.
fn equal_ignoring_case(s: &str, t: &str) -> (r: bool)
    ensures
        r == ascii_equal_ignoring_case(s@, t@),
{
    let n = s.unicode_len();
    if n != t.unicode_len() {
        return false;
    }
    let mut i: usize = 0;
    while i < n
        invariant
            n == s@.len() == t@.len(),
            i <= n,
            forall|j: int| 0 <= j < i ==> ascii_same_ignoring_case(#[trigger] s@[j], t@[j]),
        decreases n - i,
    {
        if !same_ignoring_case(s.get_char(i), t.get_char(i)) {
            return false;
        }
        i = i + 1;
    }
    true
}

/// Whether `ext` is `db` or `sqlite`, in any ASCII case.
pub fn is_database_extension(ext: &str) -> (r: bool)
    ensures
        r == is_database_extension_spec(ext@),
{
    proof {
        reveal_strlit("db");
        reveal_strlit("sqlite");
    }
    equal_ignoring_case(ext, "db") || equal_ignoring_case(ext, "sqlite")
}

/// Where the database to clean lives.
pub struct Configuration {
    db_path: String,
}

impl View for Configuration {
    type V = Seq<char>;

    /// The path to the database file.
    closed spec fn view(&self) -> Seq<char> {
        self.db_path@
    }
}

impl Configuration {
    /// A configuration for the database file at `db_path`.
    pub fn new(db_path: String) -> (r: Self)
        ensures
            r@ == db_path@,
    {
        Configuration { db_path }
    }

    /// The path to the database file.
    pub fn get_db_path(&self) -> (r: &str)
        ensures
            r@ == self@,
    {
        self.db_path.as_str()
    }

    /// The configuration that a command line asks for. `args` holds the
    /// program's name first; the database path is the word after it. The
    /// line must hold two words, or four, where the last two are not read,
    /// and the path must end in `.db` or `.sqlite`, in any ASCII case.
    pub fn get_from_args(args: &[String]) -> (r: Result<Self, ConfigError>)
        ensures
            !accepted_argument_count(args@.len() as int) ==> r == Err::<Self, ConfigError>(
                ConfigError::ArgumentCount(args@.len() as usize),
            ),
            accepted_argument_count(args@.len() as int) ==> {
                let ext = path_extension(args@[1]@);
                match r {
                    Ok(c) => is_database_extension_spec(ext) && c@ == args@[1]@,
                    Err(e) => !is_database_extension_spec(ext) && e is Extension
                        && e->Extension_0@ == ext,
                }
            },
            accepted_argument_count(args@.len() as int) && !args@[1]@.contains('.') ==> {
                &&& r is Err
                &&& r->Err_0 is Extension
                &&& r->Err_0->Extension_0@.len() == 0
            },
    {
        let n = args.len();
        if n != 2 && n != 4 {
            return Err(ConfigError::ArgumentCount(n));
        }
        let db_path = args[1].clone();
        let ext = extension_of(db_path.as_str());
        if is_database_extension(ext.as_str()) {
            Ok(Configuration::new(db_path))
        } else {
            Err(ConfigError::Extension(ext))
        }
    }
}

} // verus!
