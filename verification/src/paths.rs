//! Where a session keeps its files: the directories under the home directory,
//! the file names made from session names, and the parts of a file name.
use vstd::prelude::*;
use vstd::string::*;

use crate::record::maybe;
use crate::text::{chars_of, string_of, views};

verus! {

/// The characters that a file name takes over from a session name.
pub open spec fn safe_char(ch: char) -> bool {
    ||| 'a' <= ch <= 'z'
    ||| 'A' <= ch <= 'Z'
    ||| '0' <= ch <= '9'
    ||| ch == '-'
    ||| ch == '_'
    ||| ch == '.'
}

/// A session name as part of a file name: each character that is not safe
/// becomes `_`.
pub open spec fn safe_form(name: Seq<char>) -> Seq<char> {
    Seq::new(
        name.len(),
        |i: int|
            if safe_char(name[i]) {
                name[i]
            } else {
                '_'
            },
    )
}

/// The form of a session name that can stand in a file name.
pub fn safe_name(value: &str) -> (name: String)
    ensures
        name@ == safe_form(value@),
{
    let chars = chars_of(value);
    let mut name = String::new();
    for i in 0..chars.len()
        invariant
            chars@ == value@,
            name@ == safe_form(value@).take(i as int),
    {
        let ch = chars[i];
        if ('a' <= ch && ch <= 'z') || ('A' <= ch && ch <= 'Z') || ('0' <= ch && ch <= '9') || ch
            == '-' || ch == '_' || ch == '.' {
            name.push(ch);
        } else {
            name.push('_');
        }
        assert(name@ =~= safe_form(value@).take(i + 1));
    }
    assert(safe_form(value@).take(value@.len() as int) =~= safe_form(value@));
    name
}

/// A safe form holds safe characters only, and one that is safe already stays
/// as it is. So making a name safe twice is making it safe once. Each character is
/// judged by itself: ASCII letters and digits, `-`, `_` and `.` stay, and any other
/// becomes `_`.
pub proof fn law_safe_form(name: Seq<char>)
    ensures
        safe_form(name).len() == name.len(),
        forall|i: int| 0 <= i < name.len() ==> safe_char(#[trigger] safe_form(name)[i]),
        (forall|i: int| 0 <= i < name.len() ==> safe_char(#[trigger] name[i])) ==> safe_form(name)
            == name,
        safe_form(safe_form(name)) == safe_form(name),
        forall|i: int|
            0 <= i < name.len() ==> #[trigger] safe_form(name)[i] == if 'a' <= name[i] <= 'z' || 'A'
                <= name[i] <= 'Z' || '0' <= name[i] <= '9' || name[i] == '-' || name[i] == '_'
                || name[i] == '.' {
                name[i]
            } else {
                '_'
            },
{
    assert(safe_form(safe_form(name)) =~= safe_form(name));
    if forall|i: int| 0 <= i < name.len() ==> safe_char(#[trigger] name[i]) {
        assert(safe_form(name) =~= name);
    }
}

/// A path with a further component. The path may end in a separator already.
pub open spec fn path_join(base: Seq<char>, leaf: Seq<char>) -> Seq<char> {
    if leaf.len() > 0 && leaf[0] == '/' {
        leaf
    } else if base.len() == 0 || base.last() == '/' {
        base + leaf
    } else {
        base.push('/') + leaf
    }
}

/// Joins a path and a component, or a further path; one that starts at the root
/// replaces the path.
pub fn join_path(base: &str, leaf: &str) -> (path: String)
    ensures
        path@ == path_join(base@, leaf@),
{
    let base_chars = chars_of(base);
    let leaf_chars = chars_of(leaf);
    if leaf_chars.len() > 0 && leaf_chars[0] == '/' {
        return leaf.to_owned();
    }
    let mut path = base.to_owned();
    if base_chars.len() > 0 && base_chars[base_chars.len() - 1] != '/' {
        path.push('/');
    }
    path.append(leaf);
    path
}

/// The directories under the home directory.
pub struct SessionPaths {
    pub root: String,
    pub sessions_dir: String,
    pub sockets_dir: String,
    pub logs_dir: String,
}

impl SessionPaths {
    /// The directories are those of the root: `sessions`, `sockets` and `logs`.
    pub open spec fn wf(&self) -> bool {
        &&& self.sessions_dir@ == path_join(self.root@, "sessions"@)
        &&& self.sockets_dir@ == path_join(self.root@, "sockets"@)
        &&& self.logs_dir@ == path_join(self.root@, "logs"@)
    }

    /// The directories under a home directory.
    pub fn new(home: &str) -> (paths: SessionPaths)
        ensures
            paths.root@ == home@,
            paths.wf(),
    {
        SessionPaths {
            root: home.to_owned(),
            sessions_dir: join_path(home, "sessions"),
            sockets_dir: join_path(home, "sockets"),
            logs_dir: join_path(home, "logs"),
        }
    }

    /// The file that holds the record of a session.
    pub fn record_path(&self, name: &str) -> (path: String)
        ensures
            path@ == path_join(self.sessions_dir@, safe_form(name@) + ".json"@),
    {
        join_path(self.sessions_dir.as_str(), safe_name(name).concat(".json").as_str())
    }

    /// The socket of the process that owns a session.
    pub fn socket_path(&self, name: &str) -> (path: String)
        ensures
            path@ == path_join(self.sockets_dir@, safe_form(name@) + ".sock"@),
    {
        join_path(self.sockets_dir.as_str(), safe_name(name).concat(".sock").as_str())
    }

    /// The log file of a session.
    pub fn log_path(&self, name: &str) -> (path: String)
        ensures
            path@ == path_join(self.logs_dir@, safe_form(name@) + ".log"@),
    {
        join_path(self.logs_dir.as_str(), safe_name(name).concat(".log").as_str())
    }

    /// The directories that must exist before a command runs, in the order in
    /// which they are made.
    pub fn ensure_dirs(&self) -> (dirs: Vec<String>)
        ensures
            views(dirs@) == seq![
                self.sessions_dir@,
                self.sockets_dir@,
                self.logs_dir@,
            ],
    {
        let dirs: Vec<String> = vec![
            self.sessions_dir.clone(),
            self.sockets_dir.clone(),
            self.logs_dir.clone(),
        ];
        assert(views(dirs@) =~= seq![
            self.sessions_dir@,
            self.sockets_dir@,
            self.logs_dir@,
        ]);
        dirs
    }
}

/// A file made from a session name lies directly in its directory, whatever the
/// name holds: the directory is followed by one separator and by a component
/// that holds no separator and is not `.` or `..`.
pub proof fn law_session_file_in_directory(dir: Seq<char>, name: Seq<char>, suffix: Seq<char>)
    requires
        suffix == ".json"@ || suffix == ".sock"@ || suffix == ".log"@,
    ensures
        !(safe_form(name) + suffix).contains('/'),
        (safe_form(name) + suffix).len() > 2,
        path_join(dir, safe_form(name) + suffix) == if dir.len() == 0 || dir.last() == '/' {
            dir + (safe_form(name) + suffix)
        } else {
            dir.push('/') + (safe_form(name) + suffix)
        },
{
    reveal_strlit(".json");
    reveal_strlit(".sock");
    reveal_strlit(".log");
    let file = safe_form(name) + suffix;
    assert forall|i: int| 0 <= i < file.len() implies file[i] != '/' by {
        if i < name.len() {
            assert(file[i] == safe_form(name)[i]);
        } else {
            assert(file[i] == suffix[i - name.len()]);
        }
    }
}

/// Two sessions share their files exactly when the safe forms of their names
/// are the same.
pub proof fn law_record_paths_collide(dir: Seq<char>, a: Seq<char>, b: Seq<char>, suffix: Seq<char>)
    requires
        suffix == ".json"@ || suffix == ".sock"@ || suffix == ".log"@,
    ensures
        path_join(dir, safe_form(a) + suffix) == path_join(dir, safe_form(b) + suffix) <==> safe_form(
            a,
        ) == safe_form(b),
{
    law_session_file_in_directory(dir, a, suffix);
    law_session_file_in_directory(dir, b, suffix);
    let base = if dir.len() == 0 || dir.last() == '/' {
        dir
    } else {
        dir.push('/')
    };
    let pa = base + (safe_form(a) + suffix);
    let pb = base + (safe_form(b) + suffix);
    if pa == pb {
        assert(pa.len() == pb.len());
        assert forall|i: int| 0 <= i < a.len() implies safe_form(a)[i] == safe_form(b)[i] by {
            assert(pa[base.len() + i] == safe_form(a)[i]);
            assert(pb[base.len() + i] == safe_form(b)[i]);
        }
        assert(safe_form(a) =~= safe_form(b));
    }
}

/// What is known of the home directory of a user.
#[derive(Debug, Clone, PartialEq, Eq)]
pub enum UserHome<T = String> {
    Known(T),
    /// There is one, and its path is not Unicode: no text stands for it.
    NotUnicode,
    Missing,
}

impl View for UserHome {
    type V = UserHome<Seq<char>>;

    open spec fn view(&self) -> UserHome<Seq<char>> {
        match self {
            UserHome::Known(home) => UserHome::Known(home@),
            UserHome::NotUnicode => UserHome::NotUnicode,
            UserHome::Missing => UserHome::Missing,
        }
    }
}

/// The name of the directory that holds everything where no other is given.
pub fn default_home_name() -> (name: String)
    ensures
        name@ == ".acpx-rs"@,
{
    ".acpx-rs".to_owned()
}

/// The directory that holds everything where no other is given: `.acpx-rs` in
/// the user's home directory, or in the current directory where there is none.
/// No text stands for it where none stands for the home directory.
pub open spec fn default_dir(home: UserHome<Seq<char>>) -> Option<Seq<char>> {
    match home {
        UserHome::Known(home) => Some(path_join(home, ".acpx-rs"@)),
        UserHome::NotUnicode => None,
        UserHome::Missing => Some(path_join("."@, ".acpx-rs"@)),
    }
}

/// The home directory of the user, `dirs::home_dir`, and whether its path is
/// Unicode. The directory depends on the environment, so nothing is claimed of
/// it.
#[verifier::external_body]
fn user_home() -> (home: UserHome) {
    match dirs::home_dir() {
        Some(home) => match home.into_os_string().into_string() {
            Ok(home) => UserHome::Known(home),
            Err(_) => UserHome::NotUnicode,
        },
        None => UserHome::Missing,
    }
}

/// The directory that holds everything where no other is given, in the home
/// directory `home` where there is one.
pub fn home_dir_under(home: UserHome) -> (dir: Option<String>)
    ensures
        maybe(dir) == default_dir(home@),
{
    let name = default_home_name();
    match home {
        UserHome::Known(home) => Some(join_path(home.as_str(), name.as_str())),
        UserHome::NotUnicode => None,
        UserHome::Missing => Some(join_path(".", name.as_str())),
    }
}

/// The directory that holds everything where no other is given, whatever the
/// home directory of the user is. There is none where the path of the home
/// directory is not Unicode: the directory is then `default_home_name` in it.
pub fn default_home_dir() -> (dir: Option<String>)
    ensures
        exists|home: UserHome<Seq<char>>| maybe(dir) == #[trigger] default_dir(home),
{
    let home = user_home();
    home_dir_under(home)
}

/// Where the extension of a file name starts: the last dot, unless there is
/// none but at the very start.
pub open spec fn last_dot(name: Seq<char>) -> Option<int>
    decreases name.len(),
{
    if name.len() <= 1 {
        None
    } else if name.last() == '.' {
        Some(name.len() - 1)
    } else {
        last_dot(name.drop_last())
    }
}

/// A file name without its extension.
pub open spec fn stem_of(name: Seq<char>) -> Seq<char> {
    match last_dot(name) {
        Some(dot) => name.take(dot),
        None => name,
    }
}

/// The extension of a file name, without the dot.
pub open spec fn extension_of(name: Seq<char>) -> Option<Seq<char>> {
    match last_dot(name) {
        Some(dot) => Some(name.skip(dot + 1)),
        None => None,
    }
}

fn find_last_dot(chars: &Vec<char>) -> (dot: Option<usize>)
    ensures
        match dot {
            Some(dot) => last_dot(chars@) == Some(dot as int) && dot < chars@.len(),
            None => last_dot(chars@) is None,
        },
{
    let mut n: usize = chars.len();
    assert(chars@.take(n as int) =~= chars@);
    while n > 1
        invariant
            n <= chars@.len(),
            last_dot(chars@) == last_dot(chars@.take(n as int)),
        decreases n,
    {
        if chars[n - 1] == '.' {
            return Some(n - 1);
        }
        assert(chars@.take(n as int).drop_last() =~= chars@.take(n - 1));
        n = n - 1;
    }
    None
}

/// Whether a file name has the given extension.
pub fn has_extension(file_name: &str, extension: &str) -> (answer: bool)
    ensures
        answer == (extension_of(file_name@) == Some(extension@)),
{
    let chars = chars_of(file_name);
    match find_last_dot(&chars) {
        Some(dot) => {
            let end: usize = chars.len();
            let found = string_of(&chars, dot + 1, end);
            assert(found@ =~= chars@.skip(dot + 1));
            found.as_str().eq(extension)
        },
        None => false,
    }
}

/// A file name without its extension.
pub fn file_stem(file_name: &str) -> (stem: String)
    ensures
        stem@ == stem_of(file_name@),
{
    let chars = chars_of(file_name);
    match find_last_dot(&chars) {
        Some(dot) => {
            let stem = string_of(&chars, 0, dot);
            assert(stem@ =~= chars@.take(dot as int));
            stem
        },
        None => file_name.to_owned(),
    }
}

/// The files of a session are found again by their names: the stem is the safe
/// form of the session name, and the extension tells the kind of file. This
/// takes that the name is not empty.
pub proof fn law_session_file_stem(name: Seq<char>)
    requires
        name.len() > 0,
    ensures
        stem_of(safe_form(name) + ".json"@) == safe_form(name),
        stem_of(safe_form(name) + ".sock"@) == safe_form(name),
        stem_of(safe_form(name) + ".log"@) == safe_form(name),
        extension_of(safe_form(name) + ".json"@) == Some("json"@),
        extension_of(safe_form(name) + ".sock"@) == Some("sock"@),
        extension_of(safe_form(name) + ".log"@) == Some("log"@),
{
    reveal_strlit(".json");
    reveal_strlit("json");
    reveal_strlit(".sock");
    reveal_strlit("sock");
    reveal_strlit(".log");
    reveal_strlit("log");
    lemma_suffix(safe_form(name), ".json"@);
    lemma_suffix(safe_form(name), ".sock"@);
    lemma_suffix(safe_form(name), ".log"@);
    assert(".json"@.skip(1) =~= "json"@);
    assert(".sock"@.skip(1) =~= "sock"@);
    assert(".log"@.skip(1) =~= "log"@);
}

proof fn lemma_suffix(stem: Seq<char>, suffix: Seq<char>)
    requires
        stem.len() > 0,
        suffix.len() > 0,
        suffix[0] == '.',
        forall|i: int| 0 < i < suffix.len() ==> suffix[i] != '.',
    ensures
        stem_of(stem + suffix) == stem,
        extension_of(stem + suffix) == Some(suffix.skip(1)),
{
    lemma_suffix_dot(stem, suffix);
    assert((stem + suffix).take(stem.len() as int) =~= stem);
    assert((stem + suffix).skip(stem.len() as int + 1) =~= suffix.skip(1));
}

proof fn lemma_suffix_dot(stem: Seq<char>, suffix: Seq<char>)
    requires
        stem.len() > 0,
        suffix.len() > 0,
        suffix[0] == '.',
        forall|i: int| 0 < i < suffix.len() ==> suffix[i] != '.',
    ensures
        last_dot(stem + suffix) == Some(stem.len() as int),
    decreases suffix.len(),
{
    let name = stem + suffix;
    if suffix.len() > 1 {
        assert(name.last() == suffix.last());
        assert(name.drop_last() =~= stem + suffix.drop_last());
        lemma_suffix_dot(stem, suffix.drop_last());
    } else {
        assert(name.last() == '.');
    }
}

/// What a file in one of the directories is, by its extension.
#[derive(PartialEq, Eq, Structural, Debug, Clone, Copy)]
pub enum FileKind {
    Record,
    Socket,
    Log,
    Other,
}

/// What a file in one of the directories is.
pub open spec fn kind_of(file_name: Seq<char>) -> FileKind {
    if extension_of(file_name) == Some("json"@) {
        FileKind::Record
    } else if extension_of(file_name) == Some("sock"@) {
        FileKind::Socket
    } else if extension_of(file_name) == Some("log"@) {
        FileKind::Log
    } else {
        FileKind::Other
    }
}

/// Tells what a file in one of the directories is.
pub fn file_kind(file_name: &str) -> (kind: FileKind)
    ensures
        kind == kind_of(file_name@),
{
    if has_extension(file_name, "json") {
        FileKind::Record
    } else if has_extension(file_name, "sock") {
        FileKind::Socket
    } else if has_extension(file_name, "log") {
        FileKind::Log
    } else {
        FileKind::Other
    }
}

impl SessionPaths {
    /// The record that a log or a socket belongs to, by its file name.
    pub fn record_of_file(&self, file_name: &str) -> (path: String)
        ensures
            path@ == path_join(self.sessions_dir@, stem_of(file_name@) + ".json"@),
    {
        join_path(self.sessions_dir.as_str(), file_stem(file_name).concat(".json").as_str())
    }
}

/// The files of a session are told apart by their extensions, and its log and
/// its socket lead back to its record. This takes that the name of the session
/// is not empty.
pub proof fn law_files_lead_to_record(dir: Seq<char>, name: Seq<char>)
    requires
        name.len() > 0,
    ensures
        kind_of(safe_form(name) + ".json"@) == FileKind::Record,
        kind_of(safe_form(name) + ".sock"@) == FileKind::Socket,
        kind_of(safe_form(name) + ".log"@) == FileKind::Log,
        path_join(dir, stem_of(safe_form(name) + ".log"@) + ".json"@) == path_join(
            dir,
            safe_form(name) + ".json"@,
        ),
        path_join(dir, stem_of(safe_form(name) + ".sock"@) + ".json"@) == path_join(
            dir,
            safe_form(name) + ".json"@,
        ),
{
    law_session_file_stem(name);
    reveal_strlit("json");
    reveal_strlit("sock");
    reveal_strlit("log");
    assert("json"@[0] == 'j' && "sock"@[0] == 's' && "log"@[0] == 'l');
}

/// Joining a path and a further one keeps both, with exactly one separator made
/// between them where neither the first is empty nor ends in one; a further path
/// that starts at the root stands alone.
pub proof fn law_path_join(base: Seq<char>, leaf: Seq<char>)
    ensures
        leaf.len() > 0 && leaf[0] == '/' ==> path_join(base, leaf) == leaf,
        !(leaf.len() > 0 && leaf[0] == '/') ==> base.is_prefix_of(path_join(base, leaf))
            && leaf.is_suffix_of(path_join(base, leaf)),
        !(leaf.len() > 0 && leaf[0] == '/') && (base.len() == 0 || base.last() == '/')
            ==> path_join(base, leaf).len() == base.len() + leaf.len(),
        !(leaf.len() > 0 && leaf[0] == '/') && base.len() > 0 && base.last() != '/' ==> path_join(
            base,
            leaf,
        ).len() == base.len() + leaf.len() + 1 && path_join(base, leaf)[base.len() as int] == '/',
{
    let path = path_join(base, leaf);
    if !(leaf.len() > 0 && leaf[0] == '/') {
        assert(base =~= path.subrange(0, base.len() as int));
        assert(leaf =~= path.subrange(path.len() - leaf.len(), path.len() as int));
    }
}

/// The directories are those of the home directory, each under its own name.
pub proof fn law_directories(paths: SessionPaths)
    requires
        paths.wf(),
    ensures
        paths.sessions_dir@ == path_join(paths.root@, "sessions"@),
        paths.sockets_dir@ == path_join(paths.root@, "sockets"@),
        paths.logs_dir@ == path_join(paths.root@, "logs"@),
{
}

/// Where no directory is given, the one in the home directory of the user is
/// taken, whatever that is, and the one in the current directory where there is no
/// home directory.
pub proof fn law_default_dir(home: Seq<char>)
    ensures
        default_dir(UserHome::Known(home)) == Some(path_join(home, ".acpx-rs"@)),
        default_dir(UserHome::Missing) == Some(path_join("."@, ".acpx-rs"@)),
        default_dir(UserHome::NotUnicode) is None,
{
}

proof fn lemma_last_dot_found(name: Seq<char>)
    ensures
        match last_dot(name) {
            Some(dot) => 0 < dot < name.len() && name[dot] == '.' && forall|i: int|
                dot < i < name.len() ==> name[i] != '.',
            None => forall|i: int| 0 < i < name.len() ==> name[i] != '.',
        },
    decreases name.len(),
{
    if name.len() > 1 && name.last() != '.' {
        let rest = name.drop_last();
        lemma_last_dot_found(rest);
        assert forall|i: int| 0 <= i < rest.len() implies name[i] == rest[i] by {}
    }
}

/// A file name with an extension is its stem, a dot and the extension: the stem
/// is not empty, and the extension holds no dot. A file name without one has no
/// dot but at its start, and is its own stem.
pub proof fn law_file_name_parts(name: Seq<char>)
    ensures
        match extension_of(name) {
            Some(extension) => stem_of(name).len() > 0 && !extension.contains('.') && name
                == stem_of(name).push('.') + extension,
            None => stem_of(name) == name && forall|i: int| 0 < i < name.len() ==> name[i] != '.',
        },
{
    lemma_last_dot_found(name);
    match last_dot(name) {
        Some(dot) => {
            let extension = name.skip(dot + 1);
            assert forall|i: int| 0 <= i < extension.len() implies extension[i] != '.' by {
                assert(extension[i] == name[dot + 1 + i]);
            }
            assert(name =~= name.take(dot).push('.') + extension);
        },
        None => {},
    }
}

proof fn lemma_kind_by_suffix(name: Seq<char>, suffix: Seq<char>)
    requires
        suffix.len() > 0,
        suffix[0] == '.',
        forall|i: int| 0 < i < suffix.len() ==> suffix[i] != '.',
    ensures
        extension_of(name) == Some(suffix.skip(1)) <==> name.len() > suffix.len()
            && suffix.is_suffix_of(name),
{
    if name.len() > suffix.len() && suffix.is_suffix_of(name) {
        let stem = name.take(name.len() - suffix.len());
        assert(name =~= stem + suffix);
        lemma_suffix(stem, suffix);
    }
    if extension_of(name) == Some(suffix.skip(1)) {
        law_file_name_parts(name);
        let stem = stem_of(name);
        assert(stem.push('.') + suffix.skip(1) =~= stem + suffix);
        assert(suffix =~= name.subrange(name.len() - suffix.len(), name.len() as int));
    }
}

/// A file is a record, a socket or a log exactly where something comes before
/// `.json`, `.sock` or `.log` at the end of its name.
pub proof fn law_file_kinds(name: Seq<char>)
    ensures
        kind_of(name) == FileKind::Record <==> name.len() > 5 && ".json"@.is_suffix_of(name),
        kind_of(name) == FileKind::Socket <==> name.len() > 5 && ".sock"@.is_suffix_of(name),
        kind_of(name) == FileKind::Log <==> name.len() > 4 && ".log"@.is_suffix_of(name),
{
    reveal_strlit(".json");
    reveal_strlit("json");
    reveal_strlit(".sock");
    reveal_strlit("sock");
    reveal_strlit(".log");
    reveal_strlit("log");
    assert(".json"@.skip(1) =~= "json"@);
    assert(".sock"@.skip(1) =~= "sock"@);
    assert(".log"@.skip(1) =~= "log"@);
    lemma_kind_by_suffix(name, ".json"@);
    lemma_kind_by_suffix(name, ".sock"@);
    lemma_kind_by_suffix(name, ".log"@);
    assert("json"@[0] == 'j' && "sock"@[0] == 's' && "log"@[0] == 'l');
}

/// The model of what is known of a home directory keeps its path.
pub proof fn law_home_model(home: UserHome)
    ensures
        match home {
            UserHome::Known(path) => home@ == UserHome::Known(path@),
            UserHome::NotUnicode => home@ is NotUnicode,
            UserHome::Missing => home@ is Missing,
        },
{
}

} // verus!
