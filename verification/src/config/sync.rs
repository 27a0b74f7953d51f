use vstd::prelude::*;

use crate::utils::text::chars_of;

verus! {

/// Name of the sync repo used when none is configured (or the configured one is unsafe).
pub open spec fn spec_default_repo_name() -> Seq<char> {
    "orivo-data"@
}

/// Name of the synced database blob used when none is configured (or the configured one is unsafe).
pub open spec fn spec_default_file_name() -> Seq<char> {
    "orivo.sqlite.gz"@
}

pub fn default_repo_name() -> (res: String)
    ensures
        res@ == spec_default_repo_name(),
{
    "orivo-data".to_owned()
}

pub fn default_file_name() -> (res: String)
    ensures
        res@ == spec_default_file_name(),
{
    "orivo.sqlite.gz".to_owned()
}

/// A character that may appear in a repo or file name: an ASCII letter or digit, `.`, `_` or `-`.
pub open spec fn is_segment_char(c: char) -> bool {
    ||| ('a' <= c && c <= 'z')
    ||| ('A' <= c && c <= 'Z')
    ||| ('0' <= c && c <= '9')
    ||| c == '.'
    ||| c == '_'
    ||| c == '-'
}

/// `name` is a safe single path/repo segment: non-empty, at most 100 characters, not
/// starting with `-`, neither `.` nor `..`, and made only of ASCII letters, digits, `.`,
/// `_` and `-`.
pub open spec fn safe_segment(name: Seq<char>) -> bool {
    &&& name.len() > 0
    &&& name.len() <= 100
    &&& name[0] != '-'
    &&& name != seq!['.']
    &&& name != seq!['.', '.']
    &&& forall|i: int| 0 <= i < name.len() ==> is_segment_char(#[trigger] name[i])
}

/// Returns whether `name` is a safe single path/repo segment.
///
/// Both values reach `gh`/`git` as positional arguments and `file_name` is
/// joined onto the sync directory, so an unchecked value is more than a bad
/// name: `../` escapes the sync directory when writing, and a leading `-`
/// is parsed as a flag rather than an argument.
pub fn is_safe_segment(name: &str) -> (res: bool)
    ensures
        res == safe_segment(name@),
{
    let chars = chars_of(name);
    let n = chars.len();
    if n == 0 || n > 100 {
        return false;
    }
    if chars[0] == '-' {
        return false;
    }
    if n == 1 && chars[0] == '.' {
        assert(name@ =~= seq!['.']);
        return false;
    }
    if n == 2 && chars[0] == '.' && chars[1] == '.' {
        assert(name@ =~= seq!['.', '.']);
        return false;
    }
    assert(name@ != seq!['.']) by {
        if n == 1 {
            assert(seq!['.'][0] == '.');
        }
    }
    assert(name@ != seq!['.', '.']) by {
        if n == 2 {
            assert(seq!['.', '.'][0] == '.' && seq!['.', '.'][1] == '.');
        }
    }
    let mut i: usize = 0;
    while i < n
        invariant
            n == chars@.len(),
            chars@ == name@,
            i <= n,
            forall|j: int| 0 <= j < i ==> is_segment_char(#[trigger] name@[j]),
        decreases n - i,
    {
        let c = chars[i];
        let ok = ('a' <= c && c <= 'z') || ('A' <= c && c <= 'Z') || ('0' <= c && c <= '9')
            || c == '.' || c == '_' || c == '-';
        if !ok {
            assert(!is_segment_char(name@[i as int]));
            return false;
        }
        i = i + 1;
    }
    true
}

/// Configuration for the `sync` command, as read from the user's config file.
#[derive(Debug)]
pub struct SyncConfig {
    /// Name of the GitHub repo, under the signed-in `gh` user's account, used to sync the
    /// local database.
    pub repo_name: String,
    /// Name of the synced database blob inside the sync repo.
    pub file_name: String,
}

impl Default for SyncConfig {
    fn default() -> (res: Self)
        ensures
            res.repo_name@ == spec_default_repo_name(),
            res.file_name@ == spec_default_file_name(),
    {
        SyncConfig { repo_name: default_repo_name(), file_name: default_file_name() }
    }
}

impl SyncConfig {
    /// Builds a config from the entries of a config file; a missing entry takes its default.
    pub fn from_entries(repo_name: Option<String>, file_name: Option<String>) -> (res: Self)
        ensures
            res.repo_name@ == (match repo_name {
                Some(s) => s@,
                None => spec_default_repo_name(),
            }),
            res.file_name@ == (match file_name {
                Some(s) => s@,
                None => spec_default_file_name(),
            }),
    {
        let repo_name = match repo_name {
            Some(s) => s,
            None => default_repo_name(),
        };
        let file_name = match file_name {
            Some(s) => s,
            None => default_file_name(),
        };
        SyncConfig { repo_name, file_name }
    }

    /// The repo name actually used: the configured one when it is a safe segment, else the default.
    pub open spec fn effective_repo_name(&self) -> Seq<char> {
        if safe_segment(self.repo_name@) {
            self.repo_name@
        } else {
            spec_default_repo_name()
        }
    }

    /// The file name actually used: the configured one when it is a safe segment, else the default.
    pub open spec fn effective_file_name(&self) -> Seq<char> {
        if safe_segment(self.file_name@) {
            self.file_name@
        } else {
            spec_default_file_name()
        }
    }

    /// Whether the configured repo name is ignored for being unsafe (the default is used).
    pub fn repo_name_rejected(&self) -> (res: bool)
        ensures
            res == !safe_segment(self.repo_name@),
    {
        !is_safe_segment(self.repo_name.as_str())
    }

    /// Whether the configured file name is ignored for being unsafe (the default is used).
    pub fn file_name_rejected(&self) -> (res: bool)
        ensures
            res == !safe_segment(self.file_name@),
    {
        !is_safe_segment(self.file_name.as_str())
    }

    /// Returns the configured sync repo name, falling back to the default if
    /// the configured value isn't a safe single segment.
    pub fn repo_name(&self) -> (res: &str)
        ensures
            res@ == self.effective_repo_name(),
    {
        if is_safe_segment(self.repo_name.as_str()) {
            self.repo_name.as_str()
        } else {
            "orivo-data"
        }
    }

    /// Returns the configured sync file name, falling back to the default if
    /// the configured value isn't a safe single segment.
    pub fn file_name(&self) -> (res: &str)
        ensures
            res@ == self.effective_file_name(),
    {
        if is_safe_segment(self.file_name.as_str()) {
            self.file_name.as_str()
        } else {
            "orivo.sqlite.gz"
        }
    }
}

/// Whatever is configured, the names handed to `gh`/`git` are safe segments.
pub proof fn lemma_effective_names_are_safe(config: SyncConfig)
    ensures
        safe_segment(config.effective_repo_name()),
        safe_segment(config.effective_file_name()),
{
    reveal_strlit("orivo-data");
    reveal_strlit("orivo.sqlite.gz");
    let r = spec_default_repo_name();
    let f = spec_default_file_name();
    assert(r[0] != '-');
    assert(f[0] != '-');
    assert(r.len() != 1 && r.len() != 2);
    assert(f.len() != 1 && f.len() != 2);
    assert(r != seq!['.']);
    assert(r != seq!['.', '.']);
    assert(f != seq!['.']);
    assert(f != seq!['.', '.']);
}

/// A name is accepted exactly when it has 1 to 100 characters, each an ASCII letter,
/// an ASCII digit, `.`, `_` or `-`, does not start with `-`, and is neither `.` nor `..`.
pub proof fn lemma_safe_segment_characterised(name: Seq<char>)
    ensures
        safe_segment(name) <==> {
            &&& 1 <= name.len() <= 100
            &&& name[0] != '-'
            &&& name != seq!['.']
            &&& name != seq!['.', '.']
            &&& forall|i: int|
                0 <= i < name.len() ==> {
                    let c = #[trigger] name[i];
                    ||| 'a' <= c <= 'z'
                    ||| 'A' <= c <= 'Z'
                    ||| '0' <= c <= '9'
                    ||| c == '.'
                    ||| c == '_'
                    ||| c == '-'
                }
        },
{
}

/// A configured name that is accepted is used as it is, so a repo named `2024-notes` or
/// a file named `db.gz` is kept rather than replaced by the default.
pub proof fn lemma_accepted_names_are_kept(config: SyncConfig)
    ensures
        safe_segment(config.repo_name@) ==> config.effective_repo_name() == config.repo_name@,
        safe_segment(config.file_name@) ==> config.effective_file_name() == config.file_name@,
{
}

} // verus!
