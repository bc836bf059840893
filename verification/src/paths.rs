//! Per-user directory resolution.
//!
//! Every job works inside a `(music_dir, temp_dir)` pair derived from the
//! global configuration and the user's optional library-path override.  An
//! override equal to the global music root is redirected into a `default`
//! subdirectory so a misconfigured account can never dump files at the shared
//! root, and its temp directory falls back to the global one so no scratch
//! space nests inside that subdirectory.
//!
//! Directory creation itself happens outside the library; [`DirSet`] models
//! which directories exist, and the caller runs the actual `mkdir -p`
//! exactly when [`ensure_directory_exists`] reports a directory as new.

use vstd::prelude::*;

use crate::config::Config;
use crate::strutil::str_concat;
use crate::strutil::str_eq_str;

verus! {

/// The music directory a user's files end in.
pub open spec fn spec_user_music_dir(global_music: Seq<char>, lp: Option<Seq<char>>) -> Seq<char> {
    match lp {
        Some(p) => if p == global_music {
            global_music + "/default"@
        } else {
            p
        },
        None => global_music,
    }
}

/// The scratch directory a user's jobs download into.
pub open spec fn spec_user_temp_dir(
    global_music: Seq<char>,
    global_temp: Seq<char>,
    lp: Option<Seq<char>>,
) -> Seq<char> {
    match lp {
        Some(p) => if p == global_music {
            global_temp
        } else {
            p + "/tmp"@
        },
        None => global_temp,
    }
}

pub fn get_user_music_dir(config: &Config, library_path: &Option<String>) -> (r: String)
    ensures
        r@ == spec_user_music_dir(config.paths.music_dir@, library_path.deep_view()),
{
    match library_path {
        Some(path) => {
            if str_eq_str(path.as_str(), config.paths.music_dir.as_str()) {
                str_concat(config.paths.music_dir.as_str(), "/default")
            } else {
                path.clone()
            }
        },
        None => config.paths.music_dir.clone(),
    }
}

pub fn get_user_temp_dir(config: &Config, library_path: &Option<String>) -> (r: String)
    ensures
        r@ == spec_user_temp_dir(
            config.paths.music_dir@,
            config.paths.temp_dir@,
            library_path.deep_view(),
        ),
{
    match library_path {
        Some(path) => {
            if str_eq_str(path.as_str(), config.paths.music_dir.as_str()) {
                config.paths.temp_dir.clone()
            } else {
                str_concat(path.as_str(), "/tmp")
            }
        },
        None => config.paths.temp_dir.clone(),
    }
}

/// Law: an override equal to the global music root resolves to the root's
/// `default` subdirectory - never the bare root - and to the global temp
/// directory - never a `tmp` nested below the override.
pub proof fn lemma_resolve_override_at_root(music: Seq<char>, temp: Seq<char>, lp: Seq<char>)
    requires
        lp == music,
    ensures
        spec_user_music_dir(music, Some(lp)) == music + "/default"@,
        spec_user_music_dir(music, Some(lp)) != music,
        spec_user_temp_dir(music, temp, Some(lp)) == temp,
{
    reveal_strlit("/default");
    assert((music + "/default"@).len() == music.len() + 8);
}

/// Law: an override distinct from the global music root resolves to itself
/// and to its own `tmp` subdirectory.
pub proof fn lemma_resolve_override_elsewhere(music: Seq<char>, temp: Seq<char>, lp: Seq<char>)
    requires
        lp != music,
    ensures
        spec_user_music_dir(music, Some(lp)) == lp,
        spec_user_temp_dir(music, temp, Some(lp)) == lp + "/tmp"@,
{
}

/// The set of directories known to exist.
pub struct DirSet {
    dirs: Vec<String>,
}

impl View for DirSet {
    type V = Set<Seq<char>>;

    closed spec fn view(&self) -> Set<Seq<char>> {
        self.dirs.deep_view().to_set()
    }
}

impl DirSet {
    pub fn new() -> (r: DirSet)
        ensures
            r@ == Set::<Seq<char>>::empty(),
    {
        let r = DirSet { dirs: Vec::new() };
        proof {
            assert(r@ =~= Set::<Seq<char>>::empty());
        }
        r
    }

    pub fn contains_dir(&self, path: &String) -> (r: bool)
        ensures
            r == self@.contains(path@),
    {
        let n = self.dirs.len();
        let mut i: usize = 0;
        while i < n
            invariant
                i <= n == self.dirs.len(),
                forall|k: int| 0 <= k < i ==> self.dirs.deep_view()[k] != path@,
            decreases n - i,
        {
            if str_eq_str(self.dirs[i].as_str(), path.as_str()) {
                assert(self.dirs.deep_view()[i as int] == path@);
                assert(self.dirs.deep_view().contains(path@));
                return true;
            }
            i += 1;
        }
        assert(!self.dirs.deep_view().contains(path@));
        false
    }
}

/// Make sure a directory exists, recording it if it is new.  The result says
/// whether the caller must actually create it on disk; asking again for the
/// same path is a no-op that reports `false`.
pub fn ensure_directory_exists(fs: &mut DirSet, path: &String) -> (created: bool)
    ensures
        final(fs)@ == old(fs)@.insert(path@),
        created == !old(fs)@.contains(path@),
{
    if fs.contains_dir(path) {
        proof {
            assert(fs@ =~= fs@.insert(path@));
        }
        false
    } else {
        let ghost before = fs.dirs.deep_view();
        fs.dirs.push(path.clone());
        proof {
            assert(fs.dirs.deep_view() =~= before.push(path@));
            before.lemma_push_to_set_commute(path@);
        }
        true
    }
}

/// Law: ensuring a directory that a previous call already ensured changes
/// nothing and never fails - the model after the second call is the model
/// after the first, and the second call reports nothing to create.
pub proof fn lemma_ensure_exists_idempotent(dirs: Set<Seq<char>>, path: Seq<char>)
    ensures
        dirs.insert(path).insert(path) == dirs.insert(path),
        dirs.insert(path).contains(path),
{
    assert(dirs.insert(path).insert(path) =~= dirs.insert(path));
}

/// Resolve both directories for a user and record that both must exist.
pub fn get_user_directories(config: &Config, library_path: &Option<String>, fs: &mut DirSet) -> (r:
    (String, String))
    ensures
        r.0@ == spec_user_music_dir(config.paths.music_dir@, library_path.deep_view()),
        r.1@ == spec_user_temp_dir(
            config.paths.music_dir@,
            config.paths.temp_dir@,
            library_path.deep_view(),
        ),
        final(fs)@ == old(fs)@.insert(r.0@).insert(r.1@),
{
    let music_dir = get_user_music_dir(config, library_path);
    let temp_dir = get_user_temp_dir(config, library_path);
    ensure_directory_exists(fs, &music_dir);
    ensure_directory_exists(fs, &temp_dir);
    (music_dir, temp_dir)
}

} // verus!
