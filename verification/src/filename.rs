//! Choosing where a received file is stored: the announced name is made
//! safe (no path separators, no NUL, no leading dots), and a name that is
//! already taken gets a ` (n)` suffix before its extension.

use vstd::prelude::*;
use vstd::std_specs::iter::IteratorSpec;
use crate::text::{push_char, push_str, push_decimal, decimal_text, owned};

verus! {

/// Characters that are removed from received file names: the path
/// separators of every platform and the NUL character.
pub open spec fn is_forbidden_char(c: char) -> bool {
    c == '/' || c == '\\' || c == '\0'
}

/// The name with every forbidden character removed, order kept.
pub open spec fn without_forbidden(s: Seq<char>) -> Seq<char>
    decreases s.len(),
{
    if s.len() == 0 {
        seq![]
    } else if is_forbidden_char(s.last()) {
        without_forbidden(s.drop_last())
    } else {
        without_forbidden(s.drop_last()).push(s.last())
    }
}

/// The name with its leading dots removed.
pub open spec fn without_leading_dots(s: Seq<char>) -> Seq<char>
    decreases s.len(),
{
    if s.len() > 0 && s[0] == '.' {
        without_leading_dots(s.drop_first())
    } else {
        s
    }
}

/// The name used when nothing of the announced name is left.
pub open spec fn fallback_name() -> Seq<char> {
    seq!['f', 'i', 'l', 'e']
}

/// The name used when nothing of a name is left, as a string.
fn fallback_text() -> (f: String)
    ensures
        f@ == fallback_name(),
{
    let f = owned("file");
    proof {
        reveal_strlit("file");
        assert(f@ =~= fallback_name());
    }
    f
}

/// The stored form of an announced file name.
pub open spec fn sanitized(name: Seq<char>) -> Seq<char> {
    let kept = without_leading_dots(without_forbidden(name));
    if kept.len() == 0 {
        fallback_name()
    } else {
        kept
    }
}

/// A name that can be stored as it is: not empty, no forbidden character,
/// not hidden.
pub open spec fn is_safe_name(s: Seq<char>) -> bool {
    &&& s.len() > 0
    &&& s[0] != '.'
    &&& forall|i: int| 0 <= i < s.len() ==> !is_forbidden_char(#[trigger] s[i])
}

proof fn lemma_leading_dots_push(s: Seq<char>, c: char)
    ensures
        without_leading_dots(s.push(c)) == (if without_leading_dots(s).len() == 0 {
            if c == '.' {
                Seq::<char>::empty()
            } else {
                seq![c]
            }
        } else {
            without_leading_dots(s).push(c)
        }),
    decreases s.len(),
{
    if s.len() > 0 && s[0] == '.' {
        assert(s.push(c)[0] == '.');
        assert(s.push(c).drop_first() =~= s.drop_first().push(c));
        lemma_leading_dots_push(s.drop_first(), c);
    } else if s.len() == 0 {
        assert(s.push(c) =~= seq![c]);
        if c == '.' {
            assert(seq![c].drop_first() =~= Seq::<char>::empty());
            assert(without_leading_dots(Seq::<char>::empty()) == Seq::<char>::empty());
        }
    } else {
        assert(s.push(c)[0] == s[0]);
    }
}

proof fn lemma_without_forbidden_clean(s: Seq<char>)
    ensures
        forall|i: int|
            0 <= i < without_forbidden(s).len() ==> !is_forbidden_char(
                #[trigger] without_forbidden(s)[i],
            ),
    decreases s.len(),
{
    if s.len() > 0 {
        lemma_without_forbidden_clean(s.drop_last());
        let w = without_forbidden(s.drop_last());
        if !is_forbidden_char(s.last()) {
            assert forall|i: int|
                0 <= i < w.push(s.last()).len() implies !is_forbidden_char(
                #[trigger] w.push(s.last())[i],
            ) by {
                if i < w.len() {
                    assert(w.push(s.last())[i] == w[i]);
                }
            }
        }
    }
}

proof fn lemma_without_forbidden_identity(s: Seq<char>)
    requires
        forall|i: int| 0 <= i < s.len() ==> !is_forbidden_char(#[trigger] s[i]),
    ensures
        without_forbidden(s) == s,
    decreases s.len(),
{
    if s.len() > 0 {
        lemma_without_forbidden_identity(s.drop_last());
        assert(s.drop_last().push(s.last()) =~= s);
    }
}

proof fn lemma_leading_dots_suffix(s: Seq<char>)
    ensures
        exists|k: int| 0 <= k <= s.len() && without_leading_dots(s) == s.skip(k),
        without_leading_dots(s).len() > 0 ==> without_leading_dots(s)[0] != '.',
    decreases s.len(),
{
    if s.len() > 0 && s[0] == '.' {
        lemma_leading_dots_suffix(s.drop_first());
        let k = choose|k: int|
            0 <= k <= s.drop_first().len() && without_leading_dots(s.drop_first())
                == s.drop_first().skip(k);
        assert(s.drop_first().skip(k) =~= s.skip(k + 1));
    } else {
        assert(s.skip(0) =~= s);
    }
}

/// A sanitized name is safe: never empty, no path separator or NUL, and
/// never a hidden (dot-prefixed) name.
pub proof fn lemma_sanitized_is_safe(name: Seq<char>)
    ensures
        is_safe_name(sanitized(name)),
{
    let w = without_forbidden(name);
    lemma_without_forbidden_clean(name);
    lemma_leading_dots_suffix(w);
    let kept = without_leading_dots(w);
    if kept.len() > 0 {
        let k = choose|k: int| 0 <= k <= w.len() && kept == w.skip(k);
        assert forall|i: int| 0 <= i < kept.len() implies !is_forbidden_char(#[trigger] kept[i]) by {
            assert(kept[i] == w[i + k]);
        }
    } else {
        let f = fallback_name();
        assert forall|i: int| 0 <= i < f.len() implies !is_forbidden_char(#[trigger] f[i]) by {}
    }
}

/// A name that is already safe is stored unchanged.
pub proof fn lemma_safe_name_unchanged(name: Seq<char>)
    requires
        is_safe_name(name),
    ensures
        sanitized(name) == name,
{
    lemma_without_forbidden_identity(name);
}

/// Sanitizing twice gives the same name as sanitizing once.
pub proof fn lemma_sanitized_idempotent(name: Seq<char>)
    ensures
        sanitized(sanitized(name)) == sanitized(name),
{
    lemma_sanitized_is_safe(name);
    lemma_safe_name_unchanged(sanitized(name));
}

/// Makes an announced file name safe to store: removes `/`, `\` and NUL,
/// then the leading dots; an empty result becomes `file`. Other
/// characters, non-ASCII ones included, are kept in order.
pub fn sanitize_filename(name: &str) -> (safe: String)
    ensures
        safe@ == sanitized(name@),
        is_safe_name(safe@),
{
    broadcast use vstd::string::group_string_axioms;

    let mut out = String::new();
    let mut started = false;
    let mut chars = name.chars();
    let ghost mut done: Seq<char> = Seq::empty();
    loop
        invariant
            done + chars.remaining() == name@,
            chars.decrease() is Some,
            out@ == without_leading_dots(without_forbidden(done)),
            started == (out@.len() > 0),
        ensures
            out@ == without_leading_dots(without_forbidden(name@)),
            started == (out@.len() > 0),
        decreases chars.decrease()->0,
    {
        match chars.next() {
            Some(c) => {
                proof {
                    assert(done.push(c).drop_last() == done);
                    lemma_leading_dots_push(without_forbidden(done), c);
                }
                if !(c == '/' || c == '\\' || c == '\0') {
                    if started || c != '.' {
                        push_char(&mut out, c);
                        started = true;
                    }
                }
                proof {
                    done = done.push(c);
                }
            },
            None => {
                assert(done == name@);
                break ;
            },
        }
    }
    proof {
        lemma_sanitized_is_safe(name@);
    }
    if !started {
        fallback_text()
    } else {
        out
    }
}

/// The text of `Path::new(dir).join(name)`. `Path::join` depends on its two
/// arguments alone, for the path syntax of the platform the library is
/// built for.
pub uninterp spec fn joined_path(dir: Seq<char>, name: Seq<char>) -> Seq<char>;

/// `Path::file_stem` of a name, as text.
pub uninterp spec fn path_stem(name: Seq<char>) -> Option<Seq<char>>;

/// `Path::extension` of a name, as text.
pub uninterp spec fn path_extension(name: Seq<char>) -> Option<Seq<char>>;

/// Calls `std::path::Path::join` on `dir` and `name` and returns the
/// resulting path as text; its result is named `joined_path`. Both inputs
/// are UTF-8, so the path text converts without loss.
#[verifier::external_body]
fn path_join(dir: &str, name: &str) -> (p: String)
    ensures
        p@ == joined_path(dir@, name@),
{
    std::path::Path::new(dir).join(name).to_string_lossy().into_owned()
}

/// Calls `std::path::Path::file_stem` on `name`; its result is named
/// `path_stem`.
#[verifier::external_body]
fn file_stem(name: &str) -> (stem: Option<String>)
    ensures
        match stem {
            Some(s) => path_stem(name@) == Some(s@),
            None => path_stem(name@) is None,
        },
{
    std::path::Path::new(name).file_stem().map(|s| s.to_string_lossy().into_owned())
}

/// Calls `std::path::Path::extension` on `name`; its result is named
/// `path_extension`.
#[verifier::external_body]
fn file_extension(name: &str) -> (ext: Option<String>)
    ensures
        match ext {
            Some(e) => path_extension(name@) == Some(e@),
            None => path_extension(name@) is None,
        },
{
    std::path::Path::new(name).extension().map(|s| s.to_string_lossy().into_owned())
}

/// Calls `std::path::Path::exists`. What it returns depends on the file
/// system at the time of the call, so nothing is stated of it.
#[verifier::external_body]
fn path_exists(path: &str) -> bool {
    std::path::Path::new(path).exists()
}

/// The stem used in numbered names: the path stem, or `file` when the name
/// has none.
pub open spec fn stem_part(name: Seq<char>) -> Seq<char> {
    match path_stem(name) {
        Some(s) => s,
        None => fallback_name(),
    }
}

/// The extension used in numbered names: a dot and the path extension, or
/// nothing when the name has none.
pub open spec fn extension_part(name: Seq<char>) -> Seq<char> {
    match path_extension(name) {
        Some(e) => seq!['.'] + e,
        None => seq![],
    }
}

/// The `attempt`-th name tried for `name`: the name itself first, then
/// `stem (1).ext`, `stem (2).ext`, and so on.
pub open spec fn candidate_name(name: Seq<char>, attempt: nat) -> Seq<char> {
    if attempt == 0 {
        name
    } else {
        stem_part(name) + seq![' ', '('] + decimal_text(attempt) + seq![')'] + extension_part(
            name,
        )
    }
}

/// The `attempt`-th name tried when storing a file called `name`.
pub fn numbered_name(name: &str, attempt: u64) -> (candidate: String)
    ensures
        candidate@ == candidate_name(name@, attempt as nat),
{
    if attempt == 0 {
        return owned(name);
    }
    let mut s = match file_stem(name) {
        Some(stem) => stem,
        None => fallback_text(),
    };
    push_char(&mut s, ' ');
    push_char(&mut s, '(');
    push_decimal(&mut s, attempt);
    push_char(&mut s, ')');
    match file_extension(name) {
        Some(ext) => {
            push_char(&mut s, '.');
            push_str(&mut s, ext.as_str());
        },
        None => {},
    }
    assert(s@ =~= candidate_name(name@, attempt as nat));
    s
}

/// The path of the `attempt`-th name tried in `dir` for a file called
/// `name`.
pub open spec fn candidate_path(dir: Seq<char>, name: Seq<char>, attempt: nat) -> Seq<char> {
    joined_path(dir, candidate_name(name, attempt))
}

/// A search in `dir` for a free path for a file called `name`: the paths
/// of `name`, `stem (1).ext`, `stem (2).ext`, ... are tested in turn, and
/// the first one that does not exist is taken.
pub struct PathSearch {
    dir: String,
    name: String,
    attempt: u64,
}

/// The model of a path search: the folder, the name, and which candidate
/// is being tested.
pub struct PathSearchModel {
    pub dir: Seq<char>,
    pub name: Seq<char>,
    pub attempt: u64,
}

impl View for PathSearch {
    type V = PathSearchModel;

    closed spec fn view(&self) -> PathSearchModel {
        PathSearchModel { dir: self.dir@, name: self.name@, attempt: self.attempt }
    }
}

/// What to do next in a path search.
pub enum SearchStep {
    /// Test whether this path exists.
    Probe(String),
    /// This path does not exist: it is the result.
    Found(String),
    /// Every numbered candidate exists: this last one is the result.
    Exhausted(String),
}

/// The model of what to do next in a path search.
pub enum SearchStepModel {
    Probe(Seq<char>),
    Found(Seq<char>),
    Exhausted(Seq<char>),
}

impl View for SearchStep {
    type V = SearchStepModel;

    open spec fn view(&self) -> SearchStepModel {
        match self {
            SearchStep::Probe(p) => SearchStepModel::Probe(p@),
            SearchStep::Found(p) => SearchStepModel::Found(p@),
            SearchStep::Exhausted(p) => SearchStepModel::Exhausted(p@),
        }
    }
}

/// What an existence answer for the candidate being tested leads to: a free
/// path is taken; a taken one leads to the next candidate.
pub open spec fn search_step(s: PathSearchModel, exists: bool) -> SearchStepModel {
    if !exists {
        SearchStepModel::Found(candidate_path(s.dir, s.name, s.attempt as nat))
    } else if s.attempt < u64::MAX {
        SearchStepModel::Probe(candidate_path(s.dir, s.name, (s.attempt + 1) as nat))
    } else {
        SearchStepModel::Exhausted(candidate_path(s.dir, s.name, s.attempt as nat))
    }
}

impl PathSearch {
    /// Starts a search in `dir` for a file called `name`; the returned path,
    /// that of `name` itself, is the first to test.
    pub fn start(dir: &str, name: &str) -> (r: (PathSearch, String))
        ensures
            r.0@ == (PathSearchModel { dir: dir@, name: name@, attempt: 0 }),
            r.1@ == candidate_path(dir@, name@, 0),
    {
        let candidate = numbered_name(name, 0);
        let path = path_join(dir, candidate.as_str());
        (PathSearch { dir: owned(dir), name: owned(name), attempt: 0 }, path)
    }

    /// Continues with whether the path being tested exists.
    pub fn on_probe(&mut self, exists: bool) -> (step: SearchStep)
        ensures
            step@ == search_step(old(self)@, exists),
            final(self)@.dir == old(self)@.dir,
            final(self)@.name == old(self)@.name,
            final(self)@.attempt == (if exists && old(self)@.attempt < u64::MAX {
                (old(self)@.attempt + 1) as u64
            } else {
                old(self)@.attempt
            }),
    {
        if exists && self.attempt < u64::MAX {
            self.attempt = self.attempt + 1;
            let candidate = numbered_name(self.name.as_str(), self.attempt);
            SearchStep::Probe(path_join(self.dir.as_str(), candidate.as_str()))
        } else {
            let candidate = numbered_name(self.name.as_str(), self.attempt);
            let path = path_join(self.dir.as_str(), candidate.as_str());
            if exists {
                SearchStep::Exhausted(path)
            } else {
                SearchStep::Found(path)
            }
        }
    }
}

/// Whether `Path::exists` was asked about the path `path` and answered
/// `exists`.
pub closed spec fn probed(path: Seq<char>, exists: bool) -> bool {
    exists|p: &str| p@ == path && call_ensures(path_exists, (p,), exists)
}

/// A path in `dir` for a file called `name` that does not exist yet: the
/// first of `name`, `stem (1).ext`, `stem (2).ext`, ... whose path is free
/// when it is tested (the search of `PathSearch`, driven by
/// `Path::exists`).
pub fn unique_path(dir: &str, name: &str) -> (path: String)
    ensures
        exists|attempt: nat|
            {
                &&& path@ == #[trigger] candidate_path(dir@, name@, attempt)
                &&& forall|earlier: nat|
                    earlier < attempt ==> #[trigger] probed(
                        candidate_path(dir@, name@, earlier),
                        true,
                    )
                &&& attempt < u64::MAX ==> probed(path@, false)
            },
{
    let (mut search, mut path) = PathSearch::start(dir, name);
    loop
        invariant
            search@.dir == dir@,
            search@.name == name@,
            path@ == candidate_path(dir@, name@, search@.attempt as nat),
            forall|earlier: nat|
                earlier < search@.attempt ==> #[trigger] probed(
                    candidate_path(dir@, name@, earlier),
                    true,
                ),
        decreases u64::MAX - search@.attempt,
    {
        let probe = path_exists;
        let p = path.as_str();
        let answer = probe(p);
        assert(probed(path@, answer));
        let ghost k = search@.attempt;
        match search.on_probe(answer) {
            SearchStep::Found(p) => {
                assert(p@ == candidate_path(dir@, name@, k as nat));
                return p;
            },
            SearchStep::Exhausted(p) => {
                assert(p@ == candidate_path(dir@, name@, k as nat));
                return p;
            },
            SearchStep::Probe(p) => {
                path = p;
            },
        }
    }
}

/// `Path::file_name` of a path, as text.
pub uninterp spec fn path_file_name(path: Seq<char>) -> Option<Seq<char>>;

/// Calls `std::path::Path::file_name` on `path`; its result is named
/// `path_file_name`.
#[verifier::external_body]
fn file_name_of(path: &str) -> (name: Option<String>)
    ensures
        match name {
            Some(n) => path_file_name(path@) == Some(n@),
            None => path_file_name(path@) is None,
        },
{
    std::path::Path::new(path).file_name().map(|s| s.to_string_lossy().into_owned())
}

/// The name under which a file is announced: the last component of its
/// path, or `file` when the path has none.
pub open spec fn announced_name(path: Seq<char>) -> Seq<char> {
    match path_file_name(path) {
        Some(n) => n,
        None => fallback_name(),
    }
}

/// The name under which the file at `path` is announced to the receiver.
pub fn transfer_file_name(path: &str) -> (name: String)
    ensures
        name@ == announced_name(path@),
        path_file_name(path@) matches Some(last) ==> name@ == last,
        path_file_name(path@) is None ==> name@ == fallback_name(),
{
    match file_name_of(path) {
        Some(n) => n,
        None => fallback_text(),
    }
}

/// A file is announced under the last component of its path, whatever that
/// component is (a hidden name included); `file` is announced only for a
/// path with no last component.
pub proof fn lemma_announced_name_is_last_component(path: Seq<char>)
    ensures
        path_file_name(path) matches Some(last) ==> announced_name(path) == last,
        path_file_name(path) is None ==> announced_name(path) == seq!['f', 'i', 'l', 'e'],
{
}

/// The folder inside the downloads folder where received files are stored.
pub open spec fn receive_folder(downloads: Option<Seq<char>>) -> Seq<char> {
    let base = match downloads {
        Some(d) => d,
        None => seq!['.'],
    };
    joined_path(base, "DropLink"@)
}

/// The folder where received files are stored: `DropLink` in the user's
/// downloads folder, or in the current folder when there is none.
pub fn receive_dir(downloads: Option<&str>) -> (dir: String)
    ensures
        dir@ == receive_folder(
            match downloads {
                Some(d) => Some(d@),
                None => None,
            },
        ),
{
    match downloads {
        Some(d) => path_join(d, "DropLink"),
        None => {
            let here = ".";
            proof {
                reveal_strlit(".");
                assert(here@ =~= seq!['.']);
            }
            path_join(here, "DropLink")
        },
    }
}

} // verus!
