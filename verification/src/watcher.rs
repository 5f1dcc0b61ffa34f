//! Decisions of the file watcher: which raw notifications become events,
//! and which paths match the watched patterns.
use vstd::prelude::*;
use crate::file_event::{FileEvent, FileEventKind};
use crate::text::{
    contains_char, ends_with, has_suffix, lemma_replace_absent, lemma_replace_concat, lemma_replace_keeps_absent,
    lemma_replace_single, replace_char, replace_char_spec,
};
use crate::trusted::{regex_search, spec_regex_search};

verus! {

/// Handle for a file watcher instance, used to stop it.
#[derive(Debug, Clone)]
pub struct WatcherHandle {
    pub id: String,
}

impl WatcherHandle {
    /// A handle with the given identifier.
    pub fn new(id: String) -> (h: WatcherHandle)
        ensures
            h.id == id,
    {
        WatcherHandle { id }
    }
}

/// The top-level kind of a raw file system notification.
#[derive(Debug, Clone, Copy, PartialEq, Eq, Structural)]
pub enum NotificationKind {
    Any,
    Access,
    Create,
    Modify,
    Remove,
    Other,
}

/// The event kind a notification becomes, if any.
pub open spec fn event_kind_of(k: NotificationKind) -> Option<FileEventKind> {
    match k {
        NotificationKind::Create => Some(FileEventKind::Created),
        NotificationKind::Modify => Some(FileEventKind::Modified),
        NotificationKind::Remove => Some(FileEventKind::Deleted),
        _ => None,
    }
}

/// Creations, modifications and removals become events; other
/// notifications are dropped.
pub fn classify_notification(k: NotificationKind) -> (r: Option<FileEventKind>)
    ensures
        r == event_kind_of(k),
{
    match k {
        NotificationKind::Create => Some(FileEventKind::Created),
        NotificationKind::Modify => Some(FileEventKind::Modified),
        NotificationKind::Remove => Some(FileEventKind::Deleted),
        _ => None,
    }
}

/// The event for a notification on `path`, given what was observed of the
/// path: whether it is a directory, whether it is a regular file, and the
/// size its metadata gave, if any. Only a regular file has a size.
pub fn observed_event(
    kind: FileEventKind,
    path: String,
    is_directory: bool,
    is_file: bool,
    metadata_size: Option<u64>,
) -> (e: FileEvent)
    ensures
        e.kind == kind,
        e.path == path,
        e.old_path is None,
        e.is_directory == is_directory,
        e.file_size == (if is_file { metadata_size } else { None }),
{
    let e = FileEvent::new(kind, path).with_is_directory(is_directory);
    if is_file {
        match metadata_size {
            Some(n) => e.with_file_size(n),
            None => e,
        }
    } else {
        e
    }
}

/// The regular expression a glob pattern stands for: `.` is escaped, `*`
/// becomes `.*` and `?` becomes `.`, in that order, and the expression is
/// anchored at the end of the text, so a pattern matches up to the end of
/// the path.
pub open spec fn glob_regex(p: Seq<char>) -> Seq<char> {
    replace_char_spec(replace_char_spec(replace_char_spec(p, '.', "\\."@), '*', ".*"@), '?', "."@) + "$"@
}

/// Whether `path` matches one pattern: a pattern with `*` whose regular
/// expression compiles is searched for in the path; otherwise the pattern
/// must end the path.
pub open spec fn pattern_matches(path: Seq<char>, p: Seq<char>) -> bool {
    if p.contains('*') && spec_regex_search(glob_regex(p), path) is Some {
        spec_regex_search(glob_regex(p), path)->0
    } else {
        has_suffix(path, p)
    }
}

/// Whether `path` matches the patterns: every path matches an empty list,
/// otherwise some pattern must match.
pub open spec fn matches_any(path: Seq<char>, patterns: Seq<String>) -> bool {
    patterns.len() == 0 || exists|i: int| 0 <= i < patterns.len() && pattern_matches(path, #[trigger] patterns[i]@)
}

/// Turns a glob pattern into a regular expression.
pub fn glob_to_regex(pattern: &str) -> (r: String)
    ensures
        r@ == glob_regex(pattern@),
{
    let a = replace_char(pattern, '.', "\\.");
    let b = replace_char(a.as_str(), '*', ".*");
    let mut c = replace_char(b.as_str(), '?', ".");
    c.append("$");
    c
}

/// Whether `path` matches one pattern.
pub fn matches_pattern(path: &str, pattern: &str) -> (b: bool)
    ensures
        b == pattern_matches(path@, pattern@),
{
    let found = if contains_char(pattern, '*') {
        let re = glob_to_regex(pattern);
        regex_search(re.as_str(), path)
    } else {
        None
    };
    match_from_search(path, pattern, found)
}

/// Whether `path` matches `pattern`, given what searching the path with
/// the pattern's regular expression gave: that answer when there is one,
/// otherwise (no `*` in the pattern, or an expression that does not
/// compile) whether the pattern ends the path.
pub fn match_from_search(path: &str, pattern: &str, found: Option<bool>) -> (b: bool)
    ensures
        b == match found {
            Some(f) => f,
            None => has_suffix(path@, pattern@),
        },
{
    match found {
        Some(f) => f,
        None => ends_with(path, pattern),
    }
}

/// Whether `path` matches any of `patterns` (an empty list matches all).
pub fn matches_patterns(path: &str, patterns: &[String]) -> (b: bool)
    ensures
        b == matches_any(path@, patterns@),
{
    let n = patterns.len();
    if n == 0 {
        return true;
    }
    let mut i: usize = 0;
    while i < n
        invariant
            n == patterns@.len(),
            n > 0,
            i <= n,
            forall|j: int| 0 <= j < i ==> !pattern_matches(path@, #[trigger] patterns@[j]@),
        decreases n - i,
    {
        if matches_pattern(path, patterns[i].as_str()) {
            return true;
        }
        i = i + 1;
    }
    false
}

/// A `*` stands for any text wherever it is in a glob pattern: for a
/// pattern made of a prefix, `*` and a suffix, neither holding `*` or `?`,
/// the regular expression is the prefix with its dots escaped, `.*`, the
/// suffix with its dots escaped, anchored at the end of the text.
pub proof fn lemma_glob_star_anywhere(prefix: Seq<char>, suffix: Seq<char>)
    requires
        !prefix.contains('*'),
        !prefix.contains('?'),
        !suffix.contains('*'),
        !suffix.contains('?'),
    ensures
        glob_regex(prefix + seq!['*'] + suffix)
            == replace_char_spec(prefix, '.', "\\."@) + ".*"@ + replace_char_spec(suffix, '.', "\\."@) + "$"@,
{
    reveal_strlit("\\.");
    reveal_strlit(".*");
    reveal_strlit(".");
    reveal_strlit("$");
    let esc = "\\."@;
    let star = seq!['*'];
    let ep = replace_char_spec(prefix, '.', esc);
    let es = replace_char_spec(suffix, '.', esc);
    // escaping the dots
    lemma_replace_concat(prefix + star, suffix, '.', esc);
    lemma_replace_concat(prefix, star, '.', esc);
    lemma_replace_single('*', '.', esc);
    let r1 = replace_char_spec(prefix + star + suffix, '.', esc);
    assert(r1 == ep + star + es);
    // the star
    assert(!esc.contains('*')) by {
        assert(esc =~= seq!['\\', '.']);
    }
    assert(!esc.contains('?')) by {
        assert(esc =~= seq!['\\', '.']);
    }
    lemma_replace_keeps_absent(prefix, '.', esc, '*');
    lemma_replace_keeps_absent(suffix, '.', esc, '*');
    lemma_replace_keeps_absent(prefix, '.', esc, '?');
    lemma_replace_keeps_absent(suffix, '.', esc, '?');
    lemma_replace_concat(ep + star, es, '*', ".*"@);
    lemma_replace_concat(ep, star, '*', ".*"@);
    lemma_replace_single('*', '*', ".*"@);
    lemma_replace_absent(ep, '*', ".*"@);
    lemma_replace_absent(es, '*', ".*"@);
    let r2 = replace_char_spec(r1, '*', ".*"@);
    assert(r2 == ep + ".*"@ + es);
    // the question marks
    assert(".*"@ =~= seq!['.', '*']);
    assert(!(".*"@).contains('?'));
    assert(!r2.contains('?')) by {
        if r2.contains('?') {
            let i = choose|i: int| 0 <= i < r2.len() && r2[i] == '?';
            if i < ep.len() {
                assert(ep[i] == '?');
            } else if i < ep.len() + 2 {
                assert((".*"@)[i - ep.len()] == '?');
            } else {
                assert(es[i - ep.len() - 2] == '?');
            }
        }
    }
    lemma_replace_absent(r2, '?', "."@);
}

/// A pattern holding `*`, wherever the `*` stands, matches a path exactly
/// when the search with its regular expression finds it (when that
/// expression compiles); a pattern without `*` matches the paths it ends.
pub proof fn lemma_star_patterns_search(path: Seq<char>, p: Seq<char>)
    ensures
        p.contains('*') ==> (spec_regex_search(glob_regex(p), path) matches Some(found)
            ==> pattern_matches(path, p) == found),
        !p.contains('*') ==> pattern_matches(path, p) == has_suffix(path, p),
{
}

} // verus!
