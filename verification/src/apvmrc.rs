//! Project configuration: `.apvmrc` and `package.json#atlaspack.version`.
//!
//! The configuration is looked for from the working directory upwards: first
//! an `.apvmrc` in the directory or any of its ancestors, then a
//! `package.json` naming a version. The walk is a state machine: each step
//! asks for the contents of one file (or learns that it does not exist) and
//! says which file to read next, or how the search ended.
use vstd::prelude::*;
use crate::error::ApvmError;
use crate::json::{
    fraction_zeros_bounded, json_parse, lookup, members_view, parse_json, spec_lookup, tree_view, JsonTree, JsonValueSpec,
};
use crate::origin::{spec_parse, TargetSpec, VersionTarget};
use crate::path::{join, parent, spec_join, spec_parent};
use crate::text::{lines_of, spec_lines, spec_trim, trim};

verus! {

/// The version a project asks for, and the file that asks for it.
#[derive(Debug, PartialEq)]
pub struct ApvmRc {
    /// The configuration file.
    pub path: String,
    /// The version it names.
    pub version_target: VersionTarget,
}

impl Clone for ApvmRc {
    fn clone(&self) -> (res: Self)
        ensures
            res.path@ == self.path@,
            res.version_target@ == self.version_target@,
    {
        ApvmRc { path: self.path.clone(), version_target: self.version_target.clone() }
    }
}

/// A line of `.apvmrc` that is a comment.
pub open spec fn is_comment(line: Seq<char>) -> bool {
    line.len() > 0 && line[0] == '#'
}

/// The first line that is not a comment.
pub open spec fn first_setting(lines: Seq<Seq<char>>) -> Option<Seq<char>>
    decreases lines.len(),
{
    if lines.len() == 0 {
        None
    } else if !is_comment(lines[0]) {
        Some(lines[0])
    } else {
        first_setting(lines.drop_first())
    }
}

/// The setting of an `.apvmrc`: its first line that is not a comment.
pub open spec fn rc_setting(contents: Seq<char>) -> Option<Seq<char>> {
    first_setting(spec_lines(contents))
}

/// The setting of an `.apvmrc`, if it has one.
pub fn rc_setting_of(contents: &str) -> (res: Option<String>)
    ensures
        match rc_setting(contents@) {
            Some(l) => res matches Some(r) && r@ == l,
            None => res is None,
        },
{
    let lines = lines_of(contents);
    let ghost lv = lines@.map_values(|l: String| l@);
    let mut i: usize = 0;
    assert(lv.skip(0) =~= lv);
    while i < lines.len()
        invariant
            i <= lines@.len(),
            lv == lines@.map_values(|l: String| l@),
            lv == spec_lines(contents@),
            first_setting(lv) == first_setting(lv.skip(i as int)),
        decreases lines@.len() - i,
    {
        assert(lv.skip(i as int).drop_first() =~= lv.skip(i + 1));
        let line = &lines[i];
        let is_comment_line = match crate::text::chars_of(line.as_str()).first() {
            Some(c) => *c == '#',
            None => false,
        };
        if !is_comment_line {
            return Some(line.clone());
        }
        i = i + 1;
    }
    None
}

/// The version text that a `package.json` document names under
/// `atlaspack.version`, if it is a string (`None` when the document is not an
/// object, has no `atlaspack` object, or no string under it).
pub open spec fn tree_specifier(doc: JsonValueSpec) -> Option<Seq<char>> {
    match doc {
        JsonValueSpec::Object(entries) => match spec_lookup(entries, "atlaspack"@) {
            Some(JsonValueSpec::Object(inner)) => match spec_lookup(inner, "version"@) {
                Some(JsonValueSpec::Text(s)) => Some(s),
                _ => None,
            },
            _ => None,
        },
        _ => None,
    }
}

/// Reads `atlaspack.version` out of a parsed `package.json`.
pub fn specifier_in(doc: &JsonTree) -> (res: Option<String>)
    ensures
        match tree_specifier(tree_view(*doc)) {
            Some(s) => res matches Some(r) && r@ == s,
            None => res is None,
        },
{
    let entries = match doc {
        JsonTree::Object(entries) => entries,
        _ => return None,
    };
    assert(tree_view(*doc) == JsonValueSpec::Object(members_view(entries@))) by {
        if let JsonValueSpec::Object(m) = tree_view(*doc) {
            assert(m =~= members_view(entries@));
        }
    }
    let inner = match lookup(entries, "atlaspack") {
        Some(JsonTree::Object(inner)) => inner,
        _ => return None,
    };
    assert(tree_view(JsonTree::Object(*inner)) == JsonValueSpec::Object(members_view(inner@))) by {
        if let JsonValueSpec::Object(m) = tree_view(JsonTree::Object(*inner)) {
            assert(m =~= members_view(inner@));
        }
    }
    match lookup(inner, "version") {
        Some(JsonTree::Text(s)) => Some(s.clone()),
        _ => None,
    }
}

/// The version text that `package.json` names under `atlaspack.version`:
/// the parser's error text when the file is not JSON, otherwise what
/// [`tree_specifier`] finds in the document.
pub open spec fn package_json_specifier(contents: Seq<char>) -> Result<Option<Seq<char>>, Seq<char>> {
    match json_parse(contents) {
        Err(m) => Err(m),
        Ok(doc) => Ok(tree_specifier(doc)),
    }
}

/// Reads `atlaspack.version` out of the text of a `package.json`.
pub fn package_json_specifier_of(contents: &str) -> (res: Result<Option<String>, ApvmError>)
    requires
        fraction_zeros_bounded(contents@),
    ensures
        match package_json_specifier(contents@) {
            Err(m) => res matches Err(ApvmError::InvalidJson(e)) && e@ == m,
            Ok(None) => res == Ok::<Option<String>, ApvmError>(None),
            Ok(Some(s)) => res matches Ok(Some(r)) && r@ == s,
        },
{
    match parse_json(contents) {
        Err(m) => Err(ApvmError::InvalidJson(m)),
        Ok(doc) => Ok(specifier_in(&doc)),
    }
}

/// Which file the walk is looking for.
#[derive(Debug, Clone, Copy, PartialEq, Eq)]
pub enum DetectPhase {
    /// `.apvmrc`
    RcFile,
    /// `package.json`
    PackageJson,
}

/// Where the walk is: the directory it started from, the file it looks for,
/// and the directory it looks in.
#[derive(Debug)]
pub struct Detection {
    pub pwd: String,
    pub phase: DetectPhase,
    pub dir: String,
}

/// What the walk asks for next, or how it ended.
#[derive(Debug)]
pub enum DetectStep {
    /// The contents of this file are needed (`None` if it does not exist).
    Read(String),
    /// A configuration was found.
    Found(ApvmRc),
    /// No directory up to the root holds a configuration.
    NotFound,
    /// A configuration file could not be read as one.
    Failed(ApvmError),
}

/// The mathematical value of a [`Detection`].
pub struct DetectionSpec {
    pub pwd: Seq<char>,
    pub phase: DetectPhase,
    pub dir: Seq<char>,
}

/// The mathematical value of a [`DetectStep`].
pub enum DetectStepSpec {
    Read(Seq<char>),
    Found(Seq<char>, TargetSpec),
    NotFound,
    Failed(ApvmError),
    /// A `package.json` that is not JSON, with the parser's error text.
    InvalidJson(Seq<char>),
}

impl View for Detection {
    type V = DetectionSpec;

    open spec fn view(&self) -> DetectionSpec {
        DetectionSpec { pwd: self.pwd@, phase: self.phase, dir: self.dir@ }
    }
}

impl View for DetectStep {
    type V = DetectStepSpec;

    open spec fn view(&self) -> DetectStepSpec {
        match self {
            DetectStep::Read(p) => DetectStepSpec::Read(p@),
            DetectStep::Found(rc) => DetectStepSpec::Found(rc.path@, rc.version_target@),
            DetectStep::NotFound => DetectStepSpec::NotFound,
            DetectStep::Failed(ApvmError::InvalidJson(m)) => DetectStepSpec::InvalidJson(m@),
            DetectStep::Failed(e) => DetectStepSpec::Failed(*e),
        }
    }
}

/// The name of the file a phase looks for.
pub open spec fn phase_file(phase: DetectPhase) -> Seq<char> {
    match phase {
        DetectPhase::RcFile => ".apvmrc"@,
        DetectPhase::PackageJson => "package.json"@,
    }
}

/// The result of reading the `.apvmrc` at `path` whose setting is `line`.
pub open spec fn rc_outcome(path: Seq<char>, line: Seq<char>) -> DetectStepSpec {
    match spec_parse(spec_trim(line)) {
        Some(t) => DetectStepSpec::Found(path, t),
        None => DetectStepSpec::Failed(ApvmError::UnknownOrigin),
    }
}

/// Moving on to the parent directory in the same phase; at the root, the
/// `.apvmrc` walk hands over to the `package.json` walk from the start
/// directory, and the `package.json` walk ends without a result.
pub open spec fn go_up(s: DetectionSpec) -> (DetectionSpec, DetectStepSpec) {
    match spec_parent(s.dir) {
        Some(p) => (
            DetectionSpec { pwd: s.pwd, phase: s.phase, dir: p },
            DetectStepSpec::Read(spec_join(p, phase_file(s.phase))),
        ),
        None => match s.phase {
            DetectPhase::RcFile => (
                DetectionSpec { pwd: s.pwd, phase: DetectPhase::PackageJson, dir: s.pwd },
                DetectStepSpec::Read(spec_join(s.pwd, "package.json"@)),
            ),
            DetectPhase::PackageJson => (s, DetectStepSpec::NotFound),
        },
    }
}

/// One step of the walk, given the contents of the file it asked for.
pub open spec fn spec_detect_next(s: DetectionSpec, contents: Option<Seq<char>>) -> (DetectionSpec, DetectStepSpec) {
    let path = spec_join(s.dir, phase_file(s.phase));
    match contents {
        None => go_up(s),
        Some(c) => match s.phase {
            DetectPhase::RcFile => (s, rc_outcome(path, rc_setting(c).unwrap())),
            DetectPhase::PackageJson => match package_json_specifier(c) {
                Err(m) => (s, DetectStepSpec::InvalidJson(m)),
                Ok(None) => go_up(s),
                Ok(Some(spec)) => match spec_parse(spec) {
                    Some(t) => (s, DetectStepSpec::Found(path, t)),
                    None => (s, DetectStepSpec::Failed(ApvmError::UnknownOrigin)),
                },
            },
        },
    }
}

/// The `n`-th ancestor of `dir` (`dir` itself for `n == 0`), following
/// `Path::parent`.
pub open spec fn ancestor(dir: Seq<char>, n: nat) -> Option<Seq<char>>
    decreases n,
{
    if n == 0 {
        Some(dir)
    } else {
        match ancestor(dir, (n - 1) as nat) {
            Some(d) => spec_parent(d),
            None => None,
        }
    }
}

/// The walk looks in its start directory or one of its ancestors.
pub open spec fn within_pwd(s: DetectionSpec) -> bool {
    exists|n: nat| ancestor(s.pwd, n) == Some(s.dir)
}

/// The walk starts in the working directory, looking for `.apvmrc`.
pub proof fn lemma_walk_starts_within_pwd(pwd: Seq<char>)
    ensures
        within_pwd(DetectionSpec { pwd, phase: DetectPhase::RcFile, dir: pwd }),
{
    assert(ancestor(pwd, 0) == Some(pwd));
}

/// Every step of the walk keeps its start directory, stays in that directory
/// or one of its ancestors, never goes back from `package.json` to
/// `.apvmrc`, and asks only for the file of its phase in the directory it
/// is in.
pub proof fn lemma_walk_stays_within_pwd(s: DetectionSpec, contents: Option<Seq<char>>)
    requires
        within_pwd(s),
    ensures
        ({
            let (next, step) = spec_detect_next(s, contents);
            &&& next.pwd == s.pwd
            &&& within_pwd(next)
            &&& s.phase == DetectPhase::PackageJson ==> next.phase == DetectPhase::PackageJson
            &&& step matches DetectStepSpec::Read(p) ==> p == spec_join(next.dir, phase_file(next.phase))
        }),
{
    let n = choose|n: nat| ancestor(s.pwd, n) == Some(s.dir);
    assert(ancestor(s.pwd, n + 1) == spec_parent(s.dir));
    assert(ancestor(s.pwd, 0) == Some(s.pwd));
}

/// The walk run against a file system `fs` (each existing file's path with
/// its contents) for at most `fuel` steps, from state `s` whose file is the
/// next to read; it stops early once a step ends the search.
pub open spec fn walk(s: DetectionSpec, fs: Map<Seq<char>, Seq<char>>, fuel: nat) -> DetectionSpec
    decreases fuel,
{
    if fuel == 0 {
        s
    } else {
        let path = spec_join(s.dir, phase_file(s.phase));
        let contents = if fs.contains_key(path) {
            Some(fs[path])
        } else {
            None
        };
        let (next, step) = spec_detect_next(s, contents);
        match step {
            DetectStepSpec::Read(_) => walk(next, fs, (fuel - 1) as nat),
            _ => next,
        }
    }
}

/// Ancestors are found one after the other: when the `n`-th exists, so
/// does every nearer one.
proof fn lemma_ancestor_prefix(dir: Seq<char>, n: nat, k: nat)
    requires
        ancestor(dir, n) is Some,
        k <= n,
    ensures
        ancestor(dir, k) is Some,
    decreases n,
{
    if k < n {
        lemma_ancestor_prefix(dir, (n - 1) as nat, k);
    }
}

/// The `.apvmrc` walk from the `k`-th ancestor, when the `n`-th holds an
/// `.apvmrc` and `k <= n`.
proof fn lemma_rc_walk_from(pwd: Seq<char>, fs: Map<Seq<char>, Seq<char>>, n: nat, k: nat, fuel: nat)
    requires
        ancestor(pwd, n) is Some,
        fs.contains_key(spec_join(ancestor(pwd, n).unwrap(), ".apvmrc"@)),
        k <= n,
        ancestor(pwd, k) is Some,
    ensures
        ({
            let end = walk(DetectionSpec { pwd, phase: DetectPhase::RcFile, dir: ancestor(pwd, k).unwrap() }, fs, fuel);
            &&& end.phase == DetectPhase::RcFile
            &&& exists|m: nat| m <= n && ancestor(pwd, m) == Some(end.dir)
        }),
    decreases fuel,
{
    let d = ancestor(pwd, k).unwrap();
    let s = DetectionSpec { pwd, phase: DetectPhase::RcFile, dir: d };
    if fuel > 0 {
        let path = spec_join(d, ".apvmrc"@);
        if !fs.contains_key(path) {
            assert(k < n);
            lemma_ancestor_prefix(pwd, n, k + 1);
            assert(ancestor(pwd, k + 1) == spec_parent(d));
            lemma_rc_walk_from(pwd, fs, n, k + 1, (fuel - 1) as nat);
        } else {
            assert(walk(s, fs, fuel) == s);
        }
    }
}

/// An `.apvmrc` in the working directory or any of its ancestors wins over
/// every `package.json`: when the `n`-th ancestor holds one, the walk from
/// the working directory, however long it runs, never leaves the `.apvmrc`
/// phase, and it stays in the working directory or an ancestor no farther up
/// than the `n`-th.
pub proof fn lemma_apvmrc_wins(pwd: Seq<char>, fs: Map<Seq<char>, Seq<char>>, n: nat, fuel: nat)
    requires
        ancestor(pwd, n) is Some,
        fs.contains_key(spec_join(ancestor(pwd, n).unwrap(), ".apvmrc"@)),
    ensures
        ({
            let end = walk(DetectionSpec { pwd, phase: DetectPhase::RcFile, dir: pwd }, fs, fuel);
            &&& end.phase == DetectPhase::RcFile
            &&& exists|m: nat| m <= n && ancestor(pwd, m) == Some(end.dir)
        }),
{
    assert(ancestor(pwd, 0) == Some(pwd));
    lemma_rc_walk_from(pwd, fs, n, 0, fuel);
}

/// How looking for one kind of file from a directory upwards ends.
pub enum SearchEnd {
    /// A file decided the outcome.
    Decided(DetectStepSpec),
    /// The root was passed without a decision.
    Exhausted,
    /// The search was cut short.
    Unfinished,
}

/// What the file of `phase` found at `path` with `contents` decides; `None`
/// when the search goes on past it (a `package.json` naming no version).
pub open spec fn file_outcome(phase: DetectPhase, path: Seq<char>, contents: Seq<char>) -> Option<DetectStepSpec> {
    match phase {
        DetectPhase::RcFile => Some(rc_outcome(path, rc_setting(contents).unwrap())),
        DetectPhase::PackageJson => match package_json_specifier(contents) {
            Err(m) => Some(DetectStepSpec::InvalidJson(m)),
            Ok(None) => None,
            Ok(Some(spec)) => Some(
                match spec_parse(spec) {
                    Some(t) => DetectStepSpec::Found(path, t),
                    None => DetectStepSpec::Failed(ApvmError::UnknownOrigin),
                },
            ),
        },
    }
}

/// Looking for the file of `phase` alone, from `dir` upwards, in the file
/// system `fs`, through at most `fuel` directories: how it ends, and the
/// fuel left.
pub open spec fn phase_search(phase: DetectPhase, dir: Seq<char>, fs: Map<Seq<char>, Seq<char>>, fuel: nat) -> (SearchEnd, nat)
    decreases fuel,
{
    if fuel == 0 {
        (SearchEnd::Unfinished, 0)
    } else {
        let path = spec_join(dir, phase_file(phase));
        let decided = if fs.contains_key(path) {
            file_outcome(phase, path, fs[path])
        } else {
            None
        };
        match decided {
            Some(step) => (SearchEnd::Decided(step), (fuel - 1) as nat),
            None => match spec_parent(dir) {
                Some(p) => phase_search(phase, p, fs, (fuel - 1) as nat),
                None => (SearchEnd::Exhausted, (fuel - 1) as nat),
            },
        }
    }
}

/// The last step of the walk run against `fs` for at most `fuel` steps from
/// state `s` (a `Read` when it has not ended by then).
pub open spec fn walk_outcome(s: DetectionSpec, fs: Map<Seq<char>, Seq<char>>, fuel: nat) -> DetectStepSpec
    decreases fuel,
{
    if fuel == 0 {
        DetectStepSpec::Read(spec_join(s.dir, phase_file(s.phase)))
    } else {
        let path = spec_join(s.dir, phase_file(s.phase));
        let contents = if fs.contains_key(path) {
            Some(fs[path])
        } else {
            None
        };
        let (next, step) = spec_detect_next(s, contents);
        match step {
            DetectStepSpec::Read(_) => walk_outcome(next, fs, (fuel - 1) as nat),
            _ => step,
        }
    }
}

/// The `package.json` part of the walk is the `package.json` search alone.
proof fn lemma_package_json_walk(pwd: Seq<char>, dir: Seq<char>, fs: Map<Seq<char>, Seq<char>>, fuel: nat)
    ensures
        ({
            let out = walk_outcome(DetectionSpec { pwd, phase: DetectPhase::PackageJson, dir }, fs, fuel);
            match phase_search(DetectPhase::PackageJson, dir, fs, fuel).0 {
                SearchEnd::Decided(step) => out == step,
                SearchEnd::Exhausted => out == DetectStepSpec::NotFound,
                SearchEnd::Unfinished => out is Read,
            }
        }),
    decreases fuel,
{
    if fuel > 0 {
        if let Some(p) = spec_parent(dir) {
            lemma_package_json_walk(pwd, p, fs, (fuel - 1) as nat);
        }
    }
}

/// The `.apvmrc` part of the walk is the `.apvmrc` search, followed, when
/// that passes the root, by the `package.json` search from the start
/// directory with the fuel left.
proof fn lemma_rc_walk(pwd: Seq<char>, dir: Seq<char>, fs: Map<Seq<char>, Seq<char>>, fuel: nat)
    ensures
        ({
            let out = walk_outcome(DetectionSpec { pwd, phase: DetectPhase::RcFile, dir }, fs, fuel);
            match phase_search(DetectPhase::RcFile, dir, fs, fuel) {
                (SearchEnd::Decided(step), _) => out == step,
                (SearchEnd::Exhausted, left) => match phase_search(DetectPhase::PackageJson, pwd, fs, left).0 {
                    SearchEnd::Decided(step) => out == step,
                    SearchEnd::Exhausted => out == DetectStepSpec::NotFound,
                    SearchEnd::Unfinished => out is Read,
                },
                (SearchEnd::Unfinished, _) => out is Read,
            }
        }),
    decreases fuel,
{
    if fuel > 0 {
        match spec_parent(dir) {
            Some(p) => lemma_rc_walk(pwd, p, fs, (fuel - 1) as nat),
            None => lemma_package_json_walk(pwd, pwd, fs, (fuel - 1) as nat),
        }
    }
}

/// The search for the configuration is the search for an `.apvmrc` from the
/// working directory up to the root, and only when that finds none, the
/// search for a `package.json` naming a version from the working directory
/// up to the root: its outcome is the `.apvmrc` search's when that decides,
/// otherwise the `package.json` search's, and `NotFound` when neither
/// decides (for a run of any length; a run cut short ends on a `Read`).
pub proof fn lemma_search_is_apvmrc_then_package_json(pwd: Seq<char>, fs: Map<Seq<char>, Seq<char>>, fuel: nat)
    ensures
        ({
            let out = walk_outcome(DetectionSpec { pwd, phase: DetectPhase::RcFile, dir: pwd }, fs, fuel);
            match phase_search(DetectPhase::RcFile, pwd, fs, fuel) {
                (SearchEnd::Decided(step), _) => out == step,
                (SearchEnd::Exhausted, left) => match phase_search(DetectPhase::PackageJson, pwd, fs, left).0 {
                    SearchEnd::Decided(step) => out == step,
                    SearchEnd::Exhausted => out == DetectStepSpec::NotFound,
                    SearchEnd::Unfinished => out is Read,
                },
                (SearchEnd::Unfinished, _) => out is Read,
            }
        }),
{
    lemma_rc_walk(pwd, pwd, fs, fuel);
}

/// `key` first occurs among `entries` at index `i`.
pub open spec fn first_key_at(entries: Seq<(Seq<char>, JsonValueSpec)>, key: Seq<char>, i: int) -> bool {
    &&& 0 <= i < entries.len()
    &&& entries[i].0 == key
    &&& forall|j: int| 0 <= j < i ==> entries[j].0 != key
}

/// Looking up a key finds the value of its first entry, and nothing when no
/// entry has that key.
pub proof fn lemma_lookup_first_key(entries: Seq<(Seq<char>, JsonValueSpec)>, key: Seq<char>)
    ensures
        (forall|j: int| 0 <= j < entries.len() ==> entries[j].0 != key) ==> spec_lookup(entries, key) is None,
        forall|i: int| #[trigger] first_key_at(entries, key, i) ==> spec_lookup(entries, key) == Some(entries[i].1),
    decreases entries.len(),
{
    if entries.len() > 0 {
        let rest = entries.drop_first();
        lemma_lookup_first_key(rest, key);
        assert forall|i: int| #[trigger] first_key_at(entries, key, i) implies spec_lookup(entries, key) == Some(
            entries[i].1,
        ) by {
            if i > 0 {
                assert(first_key_at(rest, key, i - 1));
            }
        }
        if forall|j: int| 0 <= j < entries.len() ==> entries[j].0 != key {
            assert(entries[0].0 != key);
            assert forall|j: int| 0 <= j < rest.len() implies rest[j].0 != key by {
                assert(rest[j] == entries[j + 1]);
            }
        }
    }
}

/// A `package.json` names a version only through its `atlaspack` object:
/// a document that is not an object, or has no `atlaspack` key, or whose
/// first `atlaspack` member is not an object, or has no `version` key, names
/// none; otherwise it names the first `version` member of that object when
/// it is a string, and none when it is not.
pub proof fn lemma_specifier_is_atlaspack_version(doc: JsonValueSpec)
    ensures
        match doc {
            JsonValueSpec::Object(entries) => {
                &&& (forall|i: int| 0 <= i < entries.len() ==> entries[i].0 != "atlaspack"@) ==> tree_specifier(doc) is None
                &&& forall|i: int| #[trigger] first_key_at(entries, "atlaspack"@, i) ==> match entries[i].1 {
                    JsonValueSpec::Object(inner) => {
                        &&& (forall|j: int| 0 <= j < inner.len() ==> inner[j].0 != "version"@) ==> tree_specifier(doc) is None
                        &&& forall|j: int| #[trigger] first_key_at(inner, "version"@, j) ==> tree_specifier(doc) == match inner[j].1 {
                            JsonValueSpec::Text(s) => Some(s),
                            _ => None,
                        }
                    },
                    _ => tree_specifier(doc) is None,
                }
            },
            _ => tree_specifier(doc) is None,
        },
{
    if let JsonValueSpec::Object(entries) = doc {
        lemma_lookup_first_key(entries, "atlaspack"@);
        assert forall|i: int| #[trigger] first_key_at(entries, "atlaspack"@, i) implies match entries[i].1 {
            JsonValueSpec::Object(inner) => {
                &&& (forall|j: int| 0 <= j < inner.len() ==> inner[j].0 != "version"@) ==> tree_specifier(doc) is None
                &&& forall|j: int| #[trigger] first_key_at(inner, "version"@, j) ==> tree_specifier(doc) == match inner[j].1 {
                    JsonValueSpec::Text(s) => Some(s),
                    _ => None,
                }
            },
            _ => tree_specifier(doc) is None,
        } by {
            if let JsonValueSpec::Object(inner) = entries[i].1 {
                lemma_lookup_first_key(inner, "version"@);
            }
        }
    }
}

/// The lines before `i` all start with `#`.
pub open spec fn comments_before(lines: Seq<Seq<char>>, i: int) -> bool {
    forall|j: int| 0 <= j < i ==> lines[j].len() > 0 && lines[j][0] == '#'
}

/// The setting of an `.apvmrc` is its first line that does not start with
/// `#`: every line before it does; and there is none exactly when every line
/// starts with `#`.
pub proof fn lemma_rc_setting_is_first_uncommented_line(contents: Seq<char>)
    ensures
        ({
            let lines = spec_lines(contents);
            match rc_setting(contents) {
                Some(l) => exists|i: int|
                    0 <= i < lines.len() && lines[i] == l && !(l.len() > 0 && l[0] == '#') && #[trigger] comments_before(lines, i),
                None => comments_before(lines, lines.len() as int),
            }
        }),
{
    lemma_first_setting(spec_lines(contents));
}

proof fn lemma_first_setting(lines: Seq<Seq<char>>)
    ensures
        match first_setting(lines) {
            Some(l) => exists|i: int|
                0 <= i < lines.len() && lines[i] == l && !(l.len() > 0 && l[0] == '#') && #[trigger] comments_before(lines, i),
            None => comments_before(lines, lines.len() as int),
        },
    decreases lines.len(),
{
    if lines.len() > 0 {
        let rest = lines.drop_first();
        lemma_first_setting(rest);
        if is_comment(lines[0]) {
            match first_setting(rest) {
                Some(l) => {
                    let i = choose|i: int|
                        0 <= i < rest.len() && rest[i] == l && !(l.len() > 0 && l[0] == '#') && #[trigger] comments_before(rest, i);
                    assert forall|j: int| 0 <= j < i + 1 implies lines[j].len() > 0 && lines[j][0] == '#' by {
                        if j > 0 {
                            assert(lines[j] == rest[j - 1]);
                        }
                    }
                    assert(comments_before(lines, i + 1));
                },
                None => {
                    assert forall|j: int| 0 <= j < lines.len() implies lines[j].len() > 0 && lines[j][0] == '#' by {
                        if j > 0 {
                            assert(lines[j] == rest[j - 1]);
                        }
                    }
                },
            }
        } else {
            assert(comments_before(lines, 0));
        }
    }
}

/// Reading an existing `.apvmrc` ends the walk on its setting: the target
/// is its first line not starting with `#`, trimmed and read as a
/// specifier, found at `<dir>/.apvmrc`; a specifier with an unknown origin
/// fails the walk. The state stays where it is.
pub proof fn lemma_apvmrc_step_reads_setting(s: DetectionSpec, contents: Seq<char>)
    requires
        s.phase == DetectPhase::RcFile,
    ensures
        ({
            let path = spec_join(s.dir, ".apvmrc"@);
            let step = match spec_parse(spec_trim(rc_setting(contents).unwrap())) {
                Some(t) => DetectStepSpec::Found(path, t),
                None => DetectStepSpec::Failed(ApvmError::UnknownOrigin),
            };
            &&& spec_detect_next(s, Some(contents)) == (s, step)
            &&& file_outcome(DetectPhase::RcFile, path, contents) == Some(step)
        }),
{
}

impl ApvmRc {
    /// Starts looking for the configuration of the project in `pwd`: the
    /// first file to read is `pwd/.apvmrc`.
    pub fn detect(pwd: &str) -> (res: (Detection, DetectStep))
        ensures
            res.0@ == (DetectionSpec { pwd: pwd@, phase: DetectPhase::RcFile, dir: pwd@ }),
            res.1@ == DetectStepSpec::Read(spec_join(pwd@, ".apvmrc"@)),
    {
        let first = join(pwd, ".apvmrc");
        (Detection { pwd: pwd.to_owned(), phase: DetectPhase::RcFile, dir: pwd.to_owned() }, DetectStep::Read(first))
    }

    /// Reads the `.apvmrc` at `config_path`: the first line that is not a
    /// comment, trimmed, is the version specifier.
    pub fn detect_apvmrc(config_path: &str, contents: &str) -> (res: Result<ApvmRc, ApvmError>)
        requires
            rc_setting(contents@) is Some,
        ensures
            match spec_parse(spec_trim(rc_setting(contents@).unwrap())) {
                Some(t) => res matches Ok(rc) && rc.path@ == config_path@ && rc.version_target@ == t,
                None => res == Err::<ApvmRc, ApvmError>(ApvmError::UnknownOrigin),
            },
    {
        let line = rc_setting_of(contents).unwrap();
        let specifier = trim(line.as_str());
        Ok(ApvmRc { path: config_path.to_owned(), version_target: VersionTarget::parse(specifier.as_str())? })
    }

    /// Reads the `package.json` at `config_path`: `atlaspack.version`, when it
    /// is a string, is the version specifier.
    pub fn detect_package_json(config_path: &str, contents: &str) -> (res: Result<Option<ApvmRc>, ApvmError>)
        requires
            fraction_zeros_bounded(contents@),
        ensures
            match package_json_specifier(contents@) {
                Err(m) => res matches Err(ApvmError::InvalidJson(e)) && e@ == m,
                Ok(None) => res == Ok::<Option<ApvmRc>, ApvmError>(None),
                Ok(Some(s)) => match spec_parse(s) {
                    Some(t) => res matches Ok(Some(rc)) && rc.path@ == config_path@ && rc.version_target@ == t,
                    None => res == Err::<Option<ApvmRc>, ApvmError>(ApvmError::UnknownOrigin),
                },
            },
    {
        match package_json_specifier_of(contents)? {
            Some(specifier) => Ok(Some(ApvmRc {
                path: config_path.to_owned(),
                version_target: VersionTarget::parse(specifier.as_str())?,
            })),
            None => Ok(None),
        }
    }

    fn go_up(state: Detection) -> (res: (Detection, DetectStep))
        ensures
            (res.0@, res.1@) == go_up(state@),
    {
        match parent(state.dir.as_str()) {
            Some(p) => {
                let file = match state.phase {
                    DetectPhase::RcFile => join(p.as_str(), ".apvmrc"),
                    DetectPhase::PackageJson => join(p.as_str(), "package.json"),
                };
                (Detection { pwd: state.pwd, phase: state.phase, dir: p }, DetectStep::Read(file))
            },
            None => match state.phase {
                DetectPhase::RcFile => {
                    let file = join(state.pwd.as_str(), "package.json");
                    let dir = state.pwd.clone();
                    (Detection { pwd: state.pwd, phase: DetectPhase::PackageJson, dir }, DetectStep::Read(file))
                },
                DetectPhase::PackageJson => (state, DetectStep::NotFound),
            },
        }
    }

    /// The next step of the walk, given the contents of the file the last
    /// step asked for (`None` when it does not exist). An `.apvmrc` that
    /// exists must hold a line that is not a comment.
    pub fn detect_next(state: Detection, contents: Option<String>) -> (res: (Detection, DetectStep))
        requires
            state.phase == DetectPhase::RcFile && contents is Some ==> rc_setting(contents.unwrap()@) is Some,
            state.phase == DetectPhase::PackageJson && contents is Some ==> fraction_zeros_bounded(contents.unwrap()@),
        ensures
            (res.0@, res.1@) == spec_detect_next(state@, match contents {
                Some(c) => Some(c@),
                None => None,
            }),
    {
        match contents {
            None => Self::go_up(state),
            Some(c) => match state.phase {
                DetectPhase::RcFile => {
                    let path = join(state.dir.as_str(), ".apvmrc");
                    let step = match Self::detect_apvmrc(path.as_str(), c.as_str()) {
                        Ok(rc) => DetectStep::Found(rc),
                        Err(e) => DetectStep::Failed(e),
                    };
                    (state, step)
                },
                DetectPhase::PackageJson => {
                    let path = join(state.dir.as_str(), "package.json");
                    match Self::detect_package_json(path.as_str(), c.as_str()) {
                        Ok(Some(rc)) => (state, DetectStep::Found(rc)),
                        Ok(None) => Self::go_up(state),
                        Err(e) => (state, DetectStep::Failed(e)),
                    }
                },
            },
        }
    }
}

} // verus!
