//! The workspace of an agent: which of the paths that it asks for lie in the
//! directory that it may read and write.
use vstd::prelude::*;
use vstd::string::*;

use crate::paths::{join_path, path_join};
use crate::record::maybe;
use crate::text::{chars_of, join, joined, views};

verus! {

/// The text between the separators of a path.
pub open spec fn pieces(path: Seq<char>) -> Seq<Seq<char>>
    decreases path.len(),
{
    if path.len() == 0 {
        seq![Seq::<char>::empty()]
    } else if path.last() == '/' {
        pieces(path.drop_last()).push(Seq::empty())
    } else {
        let before = pieces(path.drop_last());
        before.drop_last().push(before.last().push(path.last()))
    }
}

/// The pieces of a path that are components: neither empty nor, except at the
/// very start, a single dot.
pub open spec fn kept(pieces: Seq<Seq<char>>) -> Seq<Seq<char>>
    decreases pieces.len(),
{
    if pieces.len() == 0 {
        Seq::empty()
    } else if pieces.last().len() == 0 || (pieces.last() == seq!['.'] && pieces.len() > 1) {
        kept(pieces.drop_last())
    } else {
        kept(pieces.drop_last()).push(pieces.last())
    }
}

/// Whether a path starts at the root.
pub open spec fn absolute(path: Seq<char>) -> bool {
    path.len() > 0 && path[0] == '/'
}

/// The components of a path. The root, where the path starts there, is the
/// first one.
pub open spec fn components_of(path: Seq<char>) -> Seq<Seq<char>> {
    if absolute(path) {
        seq![seq!['/']] + kept(pieces(path))
    } else {
        kept(pieces(path))
    }
}

/// A component that names a file or a directory: neither the root nor a dot or
/// two.
pub open spec fn ordinary(component: Seq<char>) -> bool {
    component != seq!['/'] && component != seq!['.'] && component != seq!['.', '.']
}

/// The path lies in the directory, or is the directory itself: its components
/// start with those of the directory.
pub open spec fn within(dir: Seq<char>, path: Seq<char>) -> bool {
    components_of(dir).is_prefix_of(components_of(path))
}

proof fn lemma_pieces_not_empty(path: Seq<char>)
    ensures
        pieces(path).len() > 0,
    decreases path.len(),
{
    if path.len() > 0 {
        lemma_pieces_not_empty(path.drop_last());
    }
}

proof fn lemma_pieces_hold_no_separator(path: Seq<char>)
    ensures
        forall|i: int| 0 <= i < pieces(path).len() ==> !(#[trigger] pieces(path)[i]).contains('/'),
    decreases path.len(),
{
    if path.len() > 0 {
        lemma_pieces_not_empty(path.drop_last());
        lemma_pieces_hold_no_separator(path.drop_last());
        let before = pieces(path.drop_last());
        let now = pieces(path);
        assert forall|i: int| 0 <= i < now.len() implies !(#[trigger] now[i]).contains('/') by {
            if path.last() == '/' {
                if i < before.len() {
                    assert(now[i] == before[i]);
                }
            } else if i < before.len() - 1 {
                assert(now[i] == before[i]);
            } else {
                let last = before.last();
                assert(!last.contains('/'));
                assert forall|k: int| 0 <= k < now[i].len() implies now[i][k] != '/' by {
                    if k < last.len() {
                        assert(now[i][k] == last[k]);
                    }
                }
            }
        }
    }
}

/// The components of a path.
pub fn components(path: &str) -> (components: Vec<String>)
    ensures
        views(components@) == components_of(path@),
{
    let chars = chars_of(path);
    let mut components: Vec<String> = Vec::new();
    let ghost mut root = Seq::<Seq<char>>::empty();
    if chars.len() > 0 && chars[0] == '/' {
        components.push("/".to_owned());
        proof {
            reveal_strlit("/");
            assert("/"@ =~= seq!['/']);
            root = seq![seq!['/']];
        }
    }
    let mut current = String::new();
    let mut first = true;
    assert(chars@.take(0) =~= Seq::empty());
    assert(pieces(Seq::empty()).drop_last() =~= Seq::<Seq<char>>::empty());
    assert(views(components@) =~= root + kept(Seq::empty()));
    for i in 0..chars.len()
        invariant
            chars@ == path@,
            pieces(chars@.take(i as int)).len() > 0,
            current@ == pieces(chars@.take(i as int)).last(),
            first == (pieces(chars@.take(i as int)).len() == 1),
            views(components@) == root + kept(pieces(chars@.take(i as int)).drop_last()),
    {
        let ghost before = pieces(chars@.take(i as int));
        assert(chars@.take(i + 1).drop_last() =~= chars@.take(i as int));
        let ghost now = pieces(chars@.take(i + 1));
        if chars[i] == '/' {
            assert(now.drop_last() =~= before);
            keep(&mut components, current, first, Ghost(before), Ghost(root));
            current = String::new();
            first = false;
        } else {
            current.push(chars[i]);
            assert(now.drop_last() =~= before.drop_last());
        }
    }
    assert(chars@.take(chars@.len() as int) =~= chars@);
    keep(&mut components, current, first, Ghost(pieces(path@)), Ghost(root));
    assert(root + kept(pieces(path@)) =~= components_of(path@));
    components
}

/// Adds the last piece of a path to the components where it is one.
fn keep(
    components: &mut Vec<String>,
    current: String,
    first: bool,
    all: Ghost<Seq<Seq<char>>>,
    root: Ghost<Seq<Seq<char>>>,
)
    requires
        all@.len() > 0,
        current@ == all@.last(),
        first == (all@.len() == 1),
        views(old(components)@) == root@ + kept(all@.drop_last()),
    ensures
        views(final(components)@) == root@ + kept(all@),
{
    proof {
        reveal_strlit(".");
        assert("."@ =~= seq!['.']);
    }
    if !current.as_str().is_empty() && (first || !current.as_str().eq(".")) {
        components.push(current);
        assert(views(components@) =~= views(old(components)@).push(current@));
        assert(views(components@) =~= root@ + kept(all@));
    }
}

/// Whether a path lies in a directory.
pub fn is_within(dir: &str, path: &str) -> (answer: bool)
    ensures
        answer == within(dir@, path@),
{
    let base = components(dir);
    let all = components(path);
    let ghost b = components_of(dir@);
    let ghost a = components_of(path@);
    if base.len() > all.len() {
        assert(b.len() > a.len());
        return false;
    }
    for i in 0..base.len()
        invariant
            base@.len() <= all@.len(),
            views(base@) == b,
            views(all@) == a,
            b == components_of(dir@),
            a == components_of(path@),
            forall|k: int| 0 <= k < i ==> #[trigger] b[k] == a[k],
    {
        assert(b[i as int] == base@[i as int]@);
        assert(a[i as int] == all@[i as int]@);
        if !base[i].as_str().eq(all[i].as_str()) {
            assert(!b.is_prefix_of(a)) by {
                if b.is_prefix_of(a) {
                    assert(a.subrange(0, b.len() as int)[i as int] == b[i as int]);
                }
            }
            return false;
        }
    }
    assert(b =~= a.subrange(0, b.len() as int));
    true
}

/// The path that consists of the given components.
pub open spec fn path_text(components: Seq<Seq<char>>) -> Seq<char> {
    if components.len() > 0 && components[0] == seq!['/'] {
        seq!['/'] + joined(components.drop_first(), "/"@)
    } else {
        joined(components, "/"@)
    }
}

/// The directory of a path: the path without its last component. There is none
/// where the path has no component or is the root.
pub open spec fn parent_of(path: Seq<char>) -> Option<Seq<char>> {
    let all = components_of(path);
    if all.len() == 0 || all.last() == seq!['/'] {
        None
    } else {
        Some(path_text(all.drop_last()))
    }
}

/// The last component of a path, where it names a file.
pub open spec fn name_of(path: Seq<char>) -> Option<Seq<char>> {
    let all = components_of(path);
    if all.len() > 0 && ordinary(all.last()) {
        Some(all.last())
    } else {
        None
    }
}

/// Why a path is refused.
pub enum PathError<T = String> {
    /// The path does not exist and has no directory that could.
    NoParent,
    /// Neither the path nor its directory exists.
    UnresolvedParent(T),
    /// The path does not exist and does not name a file that could.
    NoFileName,
    /// The path is outside of the workspace.
    Outside { path: T, root: T },
    /// The path is a symbolic link that leads from link to link without an end.
    UnresolvedLink(T),
}

impl View for PathError<String> {
    type V = PathError<Seq<char>>;

    open spec fn view(&self) -> PathError<Seq<char>> {
        match self {
            PathError::NoParent => PathError::NoParent,
            PathError::UnresolvedParent(raw) => PathError::UnresolvedParent(raw@),
            PathError::NoFileName => PathError::NoFileName,
            PathError::Outside { path, root } => PathError::Outside { path: path@, root: root@ },
            PathError::UnresolvedLink(path) => PathError::UnresolvedLink(path@),
        }
    }
}

impl PathError<Seq<char>> {
    /// The message for the agent.
    pub open spec fn text(self) -> Seq<char> {
        match self {
            PathError::NoParent => "no parent directory"@,
            PathError::UnresolvedParent(raw) => "cannot resolve parent of: "@ + raw,
            PathError::NoFileName => "no file name"@,
            PathError::Outside { path, root } => "path "@ + path
                + " is outside the allowed workspace ("@ + root + ")"@,
            PathError::UnresolvedLink(path) => "cannot resolve symbolic link: "@ + path,
        }
    }
}

impl PathError<String> {
    /// The message for the agent.
    pub fn message(&self) -> (text: String)
        ensures
            text@ == self@.text(),
    {
        match self {
            PathError::NoParent => "no parent directory".to_owned(),
            PathError::UnresolvedParent(raw) => "cannot resolve parent of: ".to_owned().concat(
                raw.as_str(),
            ),
            PathError::NoFileName => "no file name".to_owned(),
            PathError::Outside { path, root } => "path ".to_owned().concat(path.as_str()).concat(
                " is outside the allowed workspace (",
            ).concat(root.as_str()).concat(")"),
            PathError::UnresolvedLink(path) => "cannot resolve symbolic link: ".to_owned().concat(
                path.as_str(),
            ),
        }
    }
}

/// How many symbolic links are followed from a file that does not exist.
pub const MAX_LINKS: u8 = 40;

/// How far the check of a path has come: the path itself is being resolved; or,
/// as it does not exist, its directory, to which the file name is then added; or,
/// as a symbolic link stands there, the directory of what the link leads to, with
/// the number of links that may still follow.
pub enum PathState<T = String> {
    Whole,
    Parent(Option<T>),
    Target { name: Option<T>, links: u8 },
}

impl View for PathState<String> {
    type V = PathState<Seq<char>>;

    open spec fn view(&self) -> PathState<Seq<char>> {
        match self {
            PathState::Whole => PathState::Whole,
            PathState::Parent(name) => PathState::Parent(maybe(*name)),
            PathState::Target { name, links } => PathState::Target {
                name: maybe(*name),
                links: *links,
            },
        }
    }
}

/// What follows: another path is to be resolved, or the check is over.
pub enum PathStep<T = String> {
    Resolve { path: T, then: PathState<T> },
    Accept(T),
    Refuse(PathError<T>),
}

impl View for PathStep<String> {
    type V = PathStep<Seq<char>>;

    open spec fn view(&self) -> PathStep<Seq<char>> {
        match self {
            PathStep::Resolve { path, then } => PathStep::Resolve { path: path@, then: then@ },
            PathStep::Accept(path) => PathStep::Accept(path@),
            PathStep::Refuse(error) => PathStep::Refuse(error@),
        }
    }
}

/// A resolved path is accepted exactly where it lies in the workspace.
pub open spec fn judged(root: Seq<char>, path: Seq<char>) -> PathStep<Seq<char>> {
    if within(root, path) {
        PathStep::Accept(path)
    } else {
        PathStep::Refuse(PathError::Outside { path, root })
    }
}

/// The name of the file that a symbolic link leads to, where its target ends in
/// one.
pub open spec fn target_name(target: Seq<char>) -> Option<Seq<char>> {
    match name_of(target) {
        Some(name) => if name.is_suffix_of(target) {
            Some(name)
        } else {
            None
        },
        None => None,
    }
}

/// What follows from a symbolic link at `link` that leads to `target` and that
/// cannot be resolved: where it leads is looked at in its place.
pub open spec fn followed(link: Seq<char>, target: Seq<char>, links: u8) -> PathStep<Seq<char>> {
    if links == 0 {
        PathStep::Refuse(PathError::UnresolvedLink(link))
    } else {
        match parent_of(target) {
            Some(parent) => PathStep::Resolve {
                path: parent,
                then: PathState::Target { name: target_name(target), links: (links - 1) as u8 },
            },
            None => PathStep::Refuse(PathError::NoParent),
        }
    }
}

/// What follows once the path that was to be resolved is known to resolve to
/// `resolved`, or not to exist. Where that path is the directory of a file, `link`
/// is what the symbolic link in the place of the file leads to, where one stands
/// there. The path that an agent asks for must itself lie in the workspace, and so
/// must what it leads to in the end.
pub open spec fn path_step(
    root: Seq<char>,
    raw: Seq<char>,
    state: PathState<Seq<char>>,
    resolved: Option<Seq<char>>,
    link: Option<Seq<char>>,
) -> PathStep<Seq<char>> {
    match (state, resolved) {
        (PathState::Whole, Some(path)) => judged(root, path),
        (PathState::Whole, None) => match parent_of(path_join(root, raw)) {
            Some(parent) => PathStep::Resolve {
                path: parent,
                then: PathState::Parent(name_of(path_join(root, raw))),
            },
            None => PathStep::Refuse(PathError::NoParent),
        },
        (PathState::Parent(_), None) => PathStep::Refuse(PathError::UnresolvedParent(raw)),
        (PathState::Parent(None), Some(_)) => PathStep::Refuse(PathError::NoFileName),
        (PathState::Parent(Some(name)), Some(parent)) => match (
            judged(root, path_join(parent, name)),
            link,
        ) {
            (PathStep::Accept(path), Some(target)) => followed(
                path,
                path_join(parent, target),
                MAX_LINKS,
            ),
            (step, _) => step,
        },
        (PathState::Target { .. }, None) => PathStep::Refuse(PathError::UnresolvedParent(raw)),
        (PathState::Target { name: None, .. }, Some(_)) => PathStep::Refuse(PathError::NoFileName),
        (PathState::Target { name: Some(name), links }, Some(parent)) => match link {
            Some(target) => followed(path_join(parent, name), path_join(parent, target), links),
            None => judged(root, path_join(parent, name)),
        },
    }
}

fn judge(root: &str, path: String) -> (step: PathStep)
    ensures
        step@ == judged(root@, path@),
{
    if is_within(root, path.as_str()) {
        PathStep::Accept(path)
    } else {
        PathStep::Refuse(PathError::Outside { path, root: root.to_owned() })
    }
}

/// The path without its last component, and the last component where it names
/// a file.
fn split_last(path: &str) -> (split: Option<(String, Option<String>)>)
    ensures
        match split {
            Some((parent, name)) => parent_of(path@) == Some(parent@) && name_of(path@)
                == match name {
                Some(name) => Some(name@),
                None => None,
            },
            None => parent_of(path@) is None,
        },
{
    let mut all = components(path);
    let ghost whole = components_of(path@);
    proof {
        reveal_strlit("/");
        reveal_strlit(".");
        reveal_strlit("..");
        assert("/"@ =~= seq!['/']);
        assert("."@ =~= seq!['.']);
        assert(".."@ =~= seq!['.', '.']);
        assert(whole == views(all@));
    }
    let ghost before = all@;
    match all.pop() {
        None => None,
        Some(last) => {
            assert(last@ == whole.last());
            assert(views(all@) =~= whole.drop_last());
            if last.as_str().eq("/") {
                return None;
            }
            let name = if last.as_str().eq(".") || last.as_str().eq("..") {
                None
            } else {
                Some(last)
            };
            let parent = if all.len() > 0 && all[0].as_str().eq("/") {
                let ghost rest = all@;
                let root = all.remove(0);
                assert(views(all@) =~= views(rest).drop_first());
                root.concat(join(&all, "/").as_str())
            } else {
                join(&all, "/")
            };
            Some((parent, name))
        },
    }
}

/// Starts the check of a path that an agent asks for: the path to resolve
/// first. One that does not start at the root is taken to lie in the workspace.
pub fn requested_path(allowed_root: &str, raw: &str) -> (path: String)
    ensures
        path@ == path_join(allowed_root@, raw@),
{
    join_path(allowed_root, raw)
}

fn ends_with(text: &str, end: &str) -> (answer: bool)
    ensures
        answer == end@.is_suffix_of(text@),
{
    let all = chars_of(text);
    let tail = chars_of(end);
    if tail.len() > all.len() {
        return false;
    }
    let total: usize = all.len();
    let start: usize = total - tail.len();
    for i in 0..tail.len()
        invariant
            all@ == text@,
            tail@ == end@,
            start + tail@.len() == total,
            total == all@.len(),
            forall|k: int| 0 <= k < i ==> #[trigger] tail@[k] == all@[start + k],
    {
        if all[start + i] != tail[i] {
            assert(text@.subrange(start as int, text@.len() as int)[i as int] != end@[i as int]);
            return false;
        }
    }
    assert(end@ =~= text@.subrange(start as int, text@.len() as int));
    true
}

/// Goes on with what a symbolic link leads to.
fn follow(link: String, target: String, links: u8) -> (step: PathStep)
    ensures
        step@ == followed(link@, target@, links),
{
    if links == 0 {
        return PathStep::Refuse(PathError::UnresolvedLink(link));
    }
    match split_last(target.as_str()) {
        Some((parent, name)) => {
            let name = match name {
                Some(name) => if ends_with(target.as_str(), name.as_str()) {
                    Some(name)
                } else {
                    None
                },
                None => None,
            };
            PathStep::Resolve { path: parent, then: PathState::Target { name, links: links - 1 } }
        },
        None => PathStep::Refuse(PathError::NoParent),
    }
}

/// Goes on with the check of a path that an agent asks for, once a path has been
/// resolved: `resolved` is the path without symbolic links and dots, or `None`
/// where it does not exist. Where the directory of a file has been resolved,
/// `link` is what the symbolic link in the place of the file leads to, where one
/// stands there; in any other state it is not looked at.
pub fn validate_path(
    allowed_root: &str,
    raw: &str,
    state: PathState,
    resolved: Option<String>,
    link: Option<String>,
) -> (step: PathStep)
    ensures
        step@ == path_step(allowed_root@, raw@, state@, maybe(resolved), maybe(link)),
{
    match (state, resolved) {
        (PathState::Whole, Some(path)) => judge(allowed_root, path),
        (PathState::Whole, None) => {
            let path = requested_path(allowed_root, raw);
            match split_last(path.as_str()) {
                Some((parent, name)) => PathStep::Resolve {
                    path: parent,
                    then: PathState::Parent(name),
                },
                None => PathStep::Refuse(PathError::NoParent),
            }
        },
        (PathState::Parent(_), None) => PathStep::Refuse(
            PathError::UnresolvedParent(raw.to_owned()),
        ),
        (PathState::Parent(None), Some(_)) => PathStep::Refuse(PathError::NoFileName),
        (PathState::Parent(Some(name)), Some(parent)) => {
            let step = judge(allowed_root, join_path(parent.as_str(), name.as_str()));
            match (step, link) {
                (PathStep::Accept(path), Some(target)) => follow(
                    path,
                    join_path(parent.as_str(), target.as_str()),
                    MAX_LINKS,
                ),
                (step, _) => step,
            }
        },
        (PathState::Target { .. }, None) => PathStep::Refuse(
            PathError::UnresolvedParent(raw.to_owned()),
        ),
        (PathState::Target { name: None, .. }, Some(_)) => PathStep::Refuse(PathError::NoFileName),
        (PathState::Target { name: Some(name), links }, Some(parent)) => {
            let path = join_path(parent.as_str(), name.as_str());
            match link {
                Some(target) => follow(
                    path,
                    join_path(parent.as_str(), target.as_str()),
                    links,
                ),
                None => judge(allowed_root, path),
            }
        },
    }
}

/// A path as the file system resolves it: it starts at the root, and none of
/// its further components is a dot or two.
pub open spec fn canonical(path: Seq<char>) -> bool {
    &&& absolute(path)
    &&& forall|i: int|
        0 < i < components_of(path).len() ==> ordinary(#[trigger] components_of(path)[i])
}

proof fn lemma_kept(pieces: Seq<Seq<char>>)
    ensures
        forall|i: int|
            0 <= i < kept(pieces).len() ==> (#[trigger] kept(pieces)[i]).len() > 0
                && pieces.contains(kept(pieces)[i]),
    decreases pieces.len(),
{
    if pieces.len() > 0 {
        let before = pieces.drop_last();
        lemma_kept(before);
        assert forall|i: int| 0 <= i < kept(pieces).len() implies (#[trigger] kept(pieces)[i]).len()
            > 0 && pieces.contains(kept(pieces)[i]) by {
            if i < kept(before).len() {
                assert(kept(pieces)[i] == kept(before)[i]);
                let k = choose|k: int| 0 <= k < before.len() && before[k] == kept(before)[i];
                assert(pieces[k] == kept(pieces)[i]);
            } else {
                assert(pieces[pieces.len() - 1] == kept(pieces)[i]);
            }
        }
    }
}

/// The name of a file that a path ends in is not empty and holds no separator.
proof fn lemma_name(path: Seq<char>)
    ensures
        name_of(path) matches Some(name) ==> name.len() > 0 && !name.contains('/') && ordinary(
            name,
        ),
{
    if let Some(name) = name_of(path) {
        let all = components_of(path);
        lemma_kept(pieces(path));
        lemma_pieces_hold_no_separator(path);
        assert(kept(pieces(path)).len() > 0 ==> all.last() == kept(pieces(path)).last());
    }
}

proof fn lemma_pieces_of_join(base: Seq<char>, name: Seq<char>)
    requires
        !name.contains('/'),
    ensures
        pieces(base.push('/') + name) == pieces(base).push(name),
    decreases name.len(),
{
    let path = base.push('/') + name;
    if name.len() == 0 {
        assert(path =~= base.push('/'));
        assert(path.drop_last() =~= base);
        assert(name =~= Seq::empty());
    } else {
        let shorter = name.drop_last();
        assert(!shorter.contains('/')) by {
            if shorter.contains('/') {
                let k = choose|k: int| 0 <= k < shorter.len() && shorter[k] == '/';
                assert(name[k] == '/');
            }
        }
        lemma_pieces_of_join(base, shorter);
        assert(path.drop_last() =~= base.push('/') + shorter);
        assert(path.last() == name.last());
        assert(name[name.len() - 1] != '/');
        assert(pieces(base).push(shorter).drop_last() =~= pieces(base));
        assert(shorter.push(name.last()) =~= name);
        assert(pieces(path) =~= pieces(base).push(name));
    }
}

/// The components of a file in a directory are those of the directory and the
/// name of the file.
pub proof fn law_join_components(base: Seq<char>, name: Seq<char>)
    requires
        absolute(base),
        name.len() > 0,
        !name.contains('/'),
        ordinary(name),
    ensures
        components_of(path_join(base, name)) == components_of(base).push(name),
{
    let path = path_join(base, name);
    assert(name[0] != '/');
    lemma_pieces_not_empty(base);
    if base.last() == '/' {
        let short = base.drop_last();
        lemma_pieces_of_join(short, name);
        lemma_pieces_not_empty(short);
        assert(path =~= short.push('/') + name);
        assert(pieces(base) == pieces(short).push(Seq::empty()));
        assert(pieces(base).drop_last() =~= pieces(short));
        assert(pieces(short).push(name).drop_last() =~= pieces(short));
        assert(kept(pieces(path)) == kept(pieces(base)).push(name));
    } else {
        lemma_pieces_of_join(base, name);
        assert(pieces(base).push(name).drop_last() =~= pieces(base));
        assert(kept(pieces(path)) == kept(pieces(base)).push(name));
    }
    assert(path[0] == '/');
    assert(components_of(path) =~= components_of(base).push(name));
}

/// A name that a file can have in its directory.
pub open spec fn file_name(name: Seq<char>) -> bool {
    name.len() > 0 && !name.contains('/') && ordinary(name)
}

/// A state that the check of a path comes to.
pub open spec fn reachable(root: Seq<char>, raw: Seq<char>, state: PathState<Seq<char>>) -> bool {
    match state {
        PathState::Whole => true,
        PathState::Parent(name) => name == name_of(path_join(root, raw)),
        PathState::Target { name, .. } => name matches Some(name) ==> file_name(name),
    }
}

/// How many more paths the check of a path may ask to be resolved.
pub open spec fn remaining(state: PathState<Seq<char>>) -> nat {
    match state {
        PathState::Whole => (MAX_LINKS + 1) as nat,
        PathState::Parent(_) => MAX_LINKS as nat,
        PathState::Target { links, .. } => links as nat,
    }
}

/// Every symbolic link and every dot of the path is resolved: the whole path is
/// one that was resolved, or its directory is, and no link stands in the place of
/// the file.
pub open spec fn settled(
    path: Seq<char>,
    state: PathState<Seq<char>>,
    resolved: Option<Seq<char>>,
    link: Option<Seq<char>>,
) -> bool {
    match (state, resolved) {
        (PathState::Whole, Some(whole)) => path == whole,
        (PathState::Parent(Some(name)), Some(parent)) => path == path_join(parent, name)
            && link is None,
        (PathState::Target { name: Some(name), .. }, Some(parent)) => path == path_join(
            parent,
            name,
        ) && link is None,
        _ => false,
    }
}

proof fn lemma_leaf_is_canonical(parent: Seq<char>, name: Seq<char>)
    requires
        canonical(parent),
        file_name(name),
    ensures
        canonical(path_join(parent, name)),
{
    let path = path_join(parent, name);
    law_join_components(parent, name);
    assert(path[0] == '/');
    assert forall|i: int| 0 < i < components_of(path).len() implies ordinary(
        #[trigger] components_of(path)[i],
    ) by {
        if i < components_of(parent).len() {
            assert(components_of(path)[i] == components_of(parent)[i]);
        }
    }
}

/// A path that is accepted lies in the workspace, its components are plain names,
/// and none of them is a symbolic link: nothing leads out of the workspace again.
/// This takes that the paths were resolved, and that the check was started with
/// the path itself.
pub proof fn law_accepted_path(
    root: Seq<char>,
    raw: Seq<char>,
    state: PathState<Seq<char>>,
    resolved: Option<Seq<char>>,
    link: Option<Seq<char>>,
)
    requires
        reachable(root, raw, state),
        resolved matches Some(path) ==> canonical(path),
    ensures
        path_step(root, raw, state, resolved, link) matches PathStep::Accept(path) ==> within(
            root,
            path,
        ) && canonical(path) && settled(path, state, resolved, link),
{
    if let PathStep::Accept(path) = path_step(root, raw, state, resolved, link) {
        lemma_name(path_join(root, raw));
        match state {
            PathState::Parent(Some(name)) => {
                lemma_leaf_is_canonical(resolved->0, name);
            },
            PathState::Target { name: Some(name), .. } => {
                lemma_leaf_is_canonical(resolved->0, name);
            },
            _ => {},
        }
    }
}

/// The check of a path comes to an end: whatever is found, each further path that
/// is to be resolved leaves fewer that may follow.
pub proof fn law_check_ends(
    root: Seq<char>,
    raw: Seq<char>,
    state: PathState<Seq<char>>,
    resolved: Option<Seq<char>>,
    link: Option<Seq<char>>,
)
    requires
        reachable(root, raw, state),
    ensures
        path_step(root, raw, state, resolved, link) matches PathStep::Resolve { then, .. }
            ==> reachable(root, raw, then) && remaining(then) < remaining(state),
{
    if let Some(target) = link {
        if let Some(parent) = resolved {
            lemma_name(path_join(parent, target));
        }
    }
}

/// A file in the workspace is never refused: where its resolved path lies in the
/// workspace, or the resolved path of its directory does and no symbolic link
/// stands in its place, the path is accepted. A symbolic link in the workspace
/// that leads to a file that does not exist yet is taken for that file, and
/// accepted or refused as that file is.
pub proof fn law_inside_is_accepted(
    root: Seq<char>,
    raw: Seq<char>,
    dir: Seq<char>,
    name: Seq<char>,
    link: Option<Seq<char>>,
    target: Seq<char>,
    target_dir: Seq<char>,
    links: u8,
)
    requires
        within(root, dir),
        absolute(dir),
        file_name(name),
    ensures
        path_step(root, raw, PathState::Whole, Some(dir), link) == PathStep::Accept(dir),
        path_step(root, raw, PathState::Parent(Some(name)), Some(dir), None) == PathStep::Accept(
            path_join(dir, name),
        ),
        path_step(root, raw, PathState::Target { name: Some(name), links }, Some(dir), None)
            == PathStep::Accept(path_join(dir, name)),
        path_step(root, raw, PathState::Parent(Some(name)), Some(dir), Some(target)) == followed(
            path_join(dir, name),
            path_join(dir, target),
            MAX_LINKS,
        ),
        path_step(
            root,
            raw,
            PathState::Target { name: Some(name), links },
            Some(target_dir),
            None,
        ) == judged(root, path_join(target_dir, name)),
{
    law_join_components(dir, name);
    let r = components_of(root);
    let p = components_of(dir);
    assert(p.push(name).subrange(0, r.len() as int) =~= p.subrange(0, r.len() as int));
}

proof fn lemma_pieces_of_name(name: Seq<char>)
    requires
        !name.contains('/'),
    ensures
        pieces(name) == seq![name],
    decreases name.len(),
{
    if name.len() == 0 {
        assert(name =~= Seq::empty());
        assert(pieces(name) =~= seq![name]);
    } else {
        let shorter = name.drop_last();
        assert(name.contains(name[name.len() - 1]));
        assert(!shorter.contains('/')) by {
            if shorter.contains('/') {
                let k = choose|k: int| 0 <= k < shorter.len() && shorter[k] == '/';
                assert(name[k] == '/');
            }
        }
        lemma_pieces_of_name(shorter);
        assert(shorter.push(name.last()) =~= name);
        assert(pieces(name) =~= seq![name]);
    }
}

/// A path that is not empty, with a separator and a further name, has one component
/// more: the name. Only an empty name and a single dot add none.
pub proof fn law_components_grow(base: Seq<char>, name: Seq<char>)
    requires
        base.len() > 0,
        !name.contains('/'),
    ensures
        name.len() == 0 || name == seq!['.'] ==> components_of(base.push('/') + name)
            == components_of(base),
        name.len() > 0 && name != seq!['.'] ==> components_of(base.push('/') + name)
            == components_of(base).push(name),
{
    let path = base.push('/') + name;
    lemma_pieces_of_join(base, name);
    lemma_pieces_not_empty(base);
    assert(pieces(base).push(name).drop_last() =~= pieces(base));
    assert(path[0] == base[0]);
    if name.len() > 0 && name != seq!['.'] {
        assert(components_of(path) =~= components_of(base).push(name));
    }
}

/// Where a path begins: an empty path has no components, the root is one of its
/// own, and a name without a separator is one, a single dot included.
pub proof fn law_first_components(name: Seq<char>)
    requires
        !name.contains('/'),
    ensures
        components_of(Seq::empty()) == Seq::<Seq<char>>::empty(),
        name.len() > 0 ==> components_of(name) == seq![name],
        name.len() == 0 || name == seq!['.'] ==> components_of(seq!['/'] + name) == seq![
            seq!['/'],
        ],
        name.len() > 0 && name != seq!['.'] ==> components_of(seq!['/'] + name) == seq![
            seq!['/'],
            name,
        ],
{
    let none = Seq::<char>::empty();
    reveal_with_fuel(kept, 3);
    lemma_pieces_of_name(name);
    lemma_pieces_of_name(none);
    assert(kept(seq![none]) =~= Seq::<Seq<char>>::empty());
    assert(components_of(none) =~= Seq::<Seq<char>>::empty());
    if name.len() > 0 {
        assert(name.contains(name[0]));
        assert(seq![name].drop_last() =~= Seq::<Seq<char>>::empty());
        assert(components_of(name) =~= seq![name]);
    }
    lemma_pieces_of_join(none, name);
    assert(none.push('/') + name =~= seq!['/'] + name);
    assert(seq![none].push(name).drop_last() =~= seq![none]);
    let path = seq!['/'] + name;
    assert(pieces(path) == seq![none].push(name));
    if name.len() > 0 && name != seq!['.'] {
        assert(kept(pieces(path)) =~= seq![name]);
        assert(components_of(path) =~= seq![seq!['/'], name]);
    } else {
        assert(kept(pieces(path)) =~= Seq::<Seq<char>>::empty());
        assert(components_of(path) =~= seq![seq!['/']]);
    }
}

/// A path lies in a directory exactly where its components are those of the
/// directory and then any more.
pub proof fn law_within(dir: Seq<char>, path: Seq<char>)
    ensures
        within(dir, path) <==> exists|rest: Seq<Seq<char>>|
            components_of(path) == #[trigger] (components_of(dir) + rest),
{
    let d = components_of(dir);
    let p = components_of(path);
    if within(dir, path) {
        let rest = p.skip(d.len() as int);
        assert(p =~= d + rest);
    }
    if exists|rest: Seq<Seq<char>>| p == #[trigger] (d + rest) {
        let rest = choose|rest: Seq<Seq<char>>| p == #[trigger] (d + rest);
        assert(d =~= p.subrange(0, d.len() as int));
    }
}

proof fn lemma_dot_comes_first(parts: Seq<Seq<char>>)
    ensures
        forall|i: int|
            0 <= i < kept(parts).len() && #[trigger] kept(parts)[i] == seq!['.'] ==> parts[0]
                == seq!['.'],
    decreases parts.len(),
{
    if parts.len() > 0 {
        lemma_dot_comes_first(parts.drop_last());
        assert forall|i: int|
            0 <= i < kept(parts).len() && #[trigger] kept(parts)[i] == seq!['.'] implies parts[0]
            == seq!['.'] by {
            if i < kept(parts.drop_last()).len() {
                assert(kept(parts.drop_last())[i] == seq!['.']);
                if parts.len() == 1 {
                    assert(kept(parts.drop_last()).len() == 0);
                }
            }
        }
    }
}

proof fn lemma_absolute_pieces(path: Seq<char>)
    requires
        absolute(path),
    ensures
        pieces(path).len() > 1,
        pieces(path)[0].len() == 0,
    decreases path.len(),
{
    if path.len() == 1 {
        reveal_with_fuel(pieces, 2);
        assert(path.drop_last() =~= Seq::<char>::empty());
        assert(pieces(path)[0] == seq![Seq::<char>::empty()][0]);
    } else {
        lemma_absolute_pieces(path.drop_last());
    }
}

proof fn lemma_components_of_text(names: Seq<Seq<char>>)
    requires
        forall|i: int|
            0 <= i < names.len() ==> (#[trigger] names[i]).len() > 0 && !names[i].contains('/')
                && names[i] != seq!['.'],
    ensures
        components_of(seq!['/'] + joined(names, "/"@)) == seq![seq!['/']] + names,
    decreases names.len(),
{
    reveal_strlit("/");
    let none = Seq::<char>::empty();
    if names.len() == 0 {
        law_first_components(none);
        assert(seq![seq!['/']] + names =~= seq![seq!['/']]);
        assert(joined(names, "/"@) =~= none);
    } else if names.len() == 1 {
        law_first_components(names[0]);
        assert(seq![seq!['/']] + names =~= seq![seq!['/'], names[0]]);
    } else {
        let before = names.drop_last();
        lemma_components_of_text(before);
        let base = seq!['/'] + joined(before, "/"@);
        assert(names.last() == names[names.len() - 1]);
        law_components_grow(base, names.last());
        assert(seq!['/'] + joined(names, "/"@) =~= base.push('/') + names.last());
        assert(seq![seq!['/']] + names =~= (seq![seq!['/']] + before).push(names.last()));
    }
}

/// A path from the root that ends in a name is that name in the directory before
/// it: the name is its last component, and its directory has the components before
/// that. A path that ends in two dots, and the root, name no file.
pub proof fn law_parent_and_name(base: Seq<char>, name: Seq<char>)
    requires
        absolute(base),
        name.len() > 0,
        !name.contains('/'),
        name != seq!['.'],
    ensures
        ({
            let path = base.push('/') + name;
            &&& parent_of(path) matches Some(parent) && components_of(parent) == components_of(base)
            &&& name != seq!['.', '.'] ==> name_of(path) == Some(name)
            &&& name == seq!['.', '.'] ==> name_of(path) is None
        }),
        components_of(base).len() == 1 ==> parent_of(base) is None && name_of(base) is None,
{
    let path = base.push('/') + name;
    law_components_grow(base, name);
    assert(name.contains(name[0]));
    let all = components_of(path);
    assert(all.last() == name);
    assert(all.drop_last() =~= components_of(base));
    let names = kept(pieces(base));
    lemma_kept(pieces(base));
    lemma_pieces_hold_no_separator(base);
    lemma_dot_comes_first(pieces(base));
    lemma_absolute_pieces(base);
    assert forall|i: int| 0 <= i < names.len() implies (#[trigger] names[i]).len() > 0
        && !names[i].contains('/') && names[i] != seq!['.'] by {
        let k = choose|k: int| 0 <= k < pieces(base).len() && pieces(base)[k] == names[i];
        assert(!pieces(base)[k].contains('/'));
    }
    lemma_components_of_text(names);
    assert(components_of(base) == seq![seq!['/']] + names);
    assert(components_of(base).drop_first() =~= names);
    assert(components_of(base)[0] == seq!['/']);
}

/// The name of a file is the last component of its path, unless that is the root or
/// dots.
pub proof fn law_name_is_the_last_component(path: Seq<char>, name: Seq<char>)
    ensures
        name_of(path) == Some(name) <==> components_of(path).len() > 0 && components_of(path).last()
            == name && name != seq!['/'] && name != seq!['.'] && name != seq!['.', '.'],
{
}

/// A resolved path is accepted as it is where it lies in the workspace, and refused
/// with the path and the workspace otherwise. A path that does not exist is looked
/// for in its directory; one without a directory, one whose directory cannot be
/// resolved and one that names no file are refused, each for its reason.
pub proof fn law_path_outcomes(
    root: Seq<char>,
    raw: Seq<char>,
    path: Seq<char>,
    name: Seq<char>,
    link: Option<Seq<char>>,
    target_name: Option<Seq<char>>,
    links: u8,
)
    ensures
        within(root, path) ==> path_step(root, raw, PathState::Whole, Some(path), link)
            == PathStep::Accept(path),
        !within(root, path) ==> path_step(root, raw, PathState::Whole, Some(path), link)
            == PathStep::Refuse(PathError::Outside { path, root }),
        parent_of(path_join(root, raw)) matches Some(parent) ==> path_step(
            root,
            raw,
            PathState::Whole,
            None,
            link,
        ) == (PathStep::Resolve {
            path: parent,
            then: PathState::Parent(name_of(path_join(root, raw))),
        }),
        parent_of(path_join(root, raw)) is None ==> path_step(
            root,
            raw,
            PathState::Whole,
            None,
            link,
        ) == PathStep::<Seq<char>>::Refuse(PathError::NoParent),
        path_step(root, raw, PathState::Parent(target_name), None, link) == PathStep::Refuse(
            PathError::UnresolvedParent(raw),
        ),
        path_step(root, raw, PathState::Target { name: target_name, links }, None, link)
            == PathStep::Refuse(PathError::UnresolvedParent(raw)),
        path_step(root, raw, PathState::Parent(None), Some(path), link) == PathStep::<
            Seq<char>,
        >::Refuse(PathError::NoFileName),
        path_step(root, raw, PathState::Target { name: None, links }, Some(path), link)
            == PathStep::<Seq<char>>::Refuse(PathError::NoFileName),
        !within(root, path_join(path, name)) ==> path_step(
            root,
            raw,
            PathState::Parent(Some(name)),
            Some(path),
            link,
        ) == PathStep::Refuse(PathError::Outside { path: path_join(path, name), root }),
{
}

/// A symbolic link in the workspace to a file that does not exist is followed to
/// that file: the directory of its target is resolved next, and the name of its
/// target is looked for there. A target that does not start at the root starts at
/// the directory of the link.
pub proof fn law_link_is_followed(
    root: Seq<char>,
    raw: Seq<char>,
    dir: Seq<char>,
    name: Seq<char>,
    target_dir: Seq<char>,
    target_name: Seq<char>,
    links: u8,
)
    requires
        within(root, dir),
        absolute(dir),
        dir.last() != '/',
        file_name(name),
        absolute(target_dir),
        file_name(target_name),
    ensures
        path_step(
            root,
            raw,
            PathState::Parent(Some(name)),
            Some(dir),
            Some(target_dir.push('/') + target_name),
        ) matches PathStep::Resolve { path, then } && components_of(path) == components_of(
            target_dir,
        ) && then == (PathState::Target { name: Some(target_name), links: 39 }),
        path_step(root, raw, PathState::Parent(Some(name)), Some(dir), Some(target_name))
            matches PathStep::Resolve { path, then } && components_of(path) == components_of(dir)
            && then == (PathState::Target { name: Some(target_name), links: 39 }),
        links > 0 ==> (path_step(
            root,
            raw,
            PathState::Target { name: Some(name), links },
            Some(dir),
            Some(target_name),
        ) matches PathStep::Resolve { path, then } && components_of(path) == components_of(dir)
            && then == (PathState::Target { name: Some(target_name), links: (links - 1) as u8 })),
        links == 0 ==> path_step(
            root,
            raw,
            PathState::Target { name: Some(name), links },
            Some(dir),
            Some(target_name),
        ) == PathStep::Refuse(PathError::UnresolvedLink(path_join(dir, name))),
{
    law_join_components(dir, name);
    let r = components_of(root);
    let p = components_of(dir);
    assert(p.push(name).subrange(0, r.len() as int) =~= p.subrange(0, r.len() as int));
    let far = target_dir.push('/') + target_name;
    let near = dir.push('/') + target_name;
    law_parent_and_name(target_dir, target_name);
    law_parent_and_name(dir, target_name);
    assert(target_name.contains(target_name[0]));
    assert(target_name =~= far.subrange(far.len() - target_name.len(), far.len() as int));
    assert(target_name =~= near.subrange(near.len() - target_name.len(), near.len() as int));
    assert(far[0] == '/');
    assert(path_join(dir, far) == far);
    assert(path_join(dir, target_name) == near);
}

/// The messages of refused paths tell the paths, as they are. The models of errors
/// and states keep every text of them.
pub proof fn law_path_error_texts(path: Seq<char>, root: Seq<char>, error: PathError)
    ensures
        PathError::UnresolvedParent(path).text() == "cannot resolve parent of: "@ + path,
        PathError::UnresolvedLink(path).text() == "cannot resolve symbolic link: "@ + path,
        (PathError::Outside { path, root }).text() == "path "@ + path
            + " is outside the allowed workspace ("@ + root + ")"@,
        PathError::<Seq<char>>::NoParent.text() == "no parent directory"@,
        PathError::<Seq<char>>::NoFileName.text() == "no file name"@,
        match error {
            PathError::NoParent => error@ is NoParent,
            PathError::UnresolvedParent(raw) => error@ == PathError::UnresolvedParent(raw@),
            PathError::NoFileName => error@ is NoFileName,
            PathError::Outside { path: p, root: r } => error@ == (PathError::Outside {
                path: p@,
                root: r@,
            }),
            PathError::UnresolvedLink(p) => error@ == PathError::UnresolvedLink(p@),
        },
{
}

/// The models of states and steps keep every text of them.
pub proof fn law_step_models(state: PathState, step: PathStep)
    ensures
        match state {
            PathState::Whole => state@ is Whole,
            PathState::Parent(None) => state@ == PathState::<Seq<char>>::Parent(None),
            PathState::Parent(Some(name)) => state@ == PathState::Parent(Some(name@)),
            PathState::Target { name: None, links } => state@ == (PathState::<Seq<char>>::Target {
                name: None,
                links,
            }),
            PathState::Target { name: Some(name), links } => state@ == (PathState::Target {
                name: Some(name@),
                links,
            }),
        },
        match step {
            PathStep::Resolve { path, then } => step@ == (PathStep::Resolve {
                path: path@,
                then: then@,
            }),
            PathStep::Accept(path) => step@ == PathStep::Accept(path@),
            PathStep::Refuse(error) => step@ == PathStep::Refuse(error@),
        },
{
}

} // verus!
