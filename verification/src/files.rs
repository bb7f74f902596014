//! Track discovery and selection.
//!
//! The host walks the directory tree and hands this module the paths it
//! found, as plain strings.  A path is a playable track when its file name —
//! the component after the last `/` — has the extension `flac`: it ends in
//! `.flac` and that dot is not the file name's first character (a bare
//! `.flac` is a hidden file without an extension).  Filtering keeps exactly
//! the playable paths in their discovery order, and selection resolves the
//! user's numeric choice against that list.

use vstd::prelude::*;

verus! {

/// The file-name component of a path: everything after the last `/`, or the
/// whole path when it has none.
pub open spec fn file_name_of(p: Seq<char>) -> Seq<char>
    decreases p.len(),
{
    if p.len() == 0 {
        p
    } else if p.last() == '/' {
        Seq::empty()
    } else {
        file_name_of(p.drop_last()).push(p.last())
    }
}

/// The extension rule: the file name ends in `.flac`, with at least one
/// character before the dot.
pub open spec fn is_flac_path(p: Seq<char>) -> bool {
    let name = file_name_of(p);
    name.len() >= 6 && name.subrange(name.len() - 5, name.len() as int) == seq!['.', 'f', 'l', 'a', 'c']
}

/// Whether `path` names a playable track, by the extension rule.
pub fn is_music_file(path: &str) -> (r: bool)
    ensures
        r == is_flac_path(path@),
{
    let len = path.unicode_len();
    let mut i: usize = 0;
    let mut start: usize = 0;
    while i < len
        invariant
            i <= len,
            start <= i,
            len == path@.len(),
            file_name_of(path@.take(i as int)) =~= path@.subrange(start as int, i as int),
        decreases len - i,
    {
        proof {
            assert(path@.take(i + 1).drop_last() =~= path@.take(i as int));
        }
        if path.get_char(i) == '/' {
            start = i + 1;
        } else {
            proof {
                assert(path@.subrange(start as int, i + 1) =~= path@.subrange(
                    start as int,
                    i as int,
                ).push(path@[i as int]));
            }
        }
        i = i + 1;
    }
    proof {
        assert(path@.take(len as int) =~= path@);
    }
    let ghost name = file_name_of(path@);
    if len - start < 6 {
        return false;
    }
    let ok = path.get_char(len - 5) == '.' && path.get_char(len - 4) == 'f' && path.get_char(
        len - 3,
    ) == 'l' && path.get_char(len - 2) == 'a' && path.get_char(len - 1) == 'c';
    proof {
        let tail = name.subrange(name.len() - 5, name.len() as int);
        assert(tail.len() == 5);
        assert(tail[0] == path@[len - 5]);
        assert(tail[1] == path@[len - 4]);
        assert(tail[2] == path@[len - 3]);
        assert(tail[3] == path@[len - 2]);
        assert(tail[4] == path@[len - 1]);
        if ok {
            assert(tail =~= seq!['.', 'f', 'l', 'a', 'c']);
        } else {
            assert(tail != seq!['.', 'f', 'l', 'a', 'c']) by {
                if tail == seq!['.', 'f', 'l', 'a', 'c'] {
                    assert(tail[0] == '.' && tail[1] == 'f' && tail[2] == 'l' && tail[3] == 'a'
                        && tail[4] == 'c');
                }
            }
        }
    }
    ok
}

/// The subsequence of `paths` that the extension rule accepts, in order.
pub open spec fn flac_tracks(paths: Seq<Seq<char>>) -> Seq<Seq<char>>
    decreases paths.len(),
{
    if paths.len() == 0 {
        paths
    } else if is_flac_path(paths.last()) {
        flac_tracks(paths.drop_last()).push(paths.last())
    } else {
        flac_tracks(paths.drop_last())
    }
}

/// Keeps exactly the playable paths, in their original order.
pub fn filter_music_files(paths: &Vec<String>) -> (r: Vec<String>)
    ensures
        r@.map_values(|s: String| s@) == flac_tracks(paths@.map_values(|s: String| s@)),
{
    let mut r: Vec<String> = Vec::new();
    let mut i: usize = 0;
    while i < paths.len()
        invariant
            i <= paths@.len(),
            r@.map_values(|s: String| s@) =~= flac_tracks(
                paths@.map_values(|s: String| s@).take(i as int),
            ),
        decreases paths@.len() - i,
    {
        proof {
            let mapped = paths@.map_values(|s: String| s@);
            assert(mapped.take(i + 1).drop_last() =~= mapped.take(i as int));
            assert(mapped.take(i + 1).last() == paths@[i as int]@);
        }
        if is_music_file(paths[i].as_str()) {
            let track = paths[i].clone();
            r.push(track);
            proof {
                let mapped = paths@.map_values(|s: String| s@);
                assert(r@.map_values(|s: String| s@) =~= flac_tracks(mapped.take(i as int)).push(
                    paths@[i as int]@,
                ));
            }
        }
        i = i + 1;
    }
    proof {
        let mapped = paths@.map_values(|s: String| s@);
        assert(mapped.take(paths@.len() as int) =~= mapped);
    }
    r
}

/// Why resolving a selection can fail.
#[derive(Clone, Copy, PartialEq, Eq, Structural, Debug)]
pub enum SelectError {
    /// The chosen number does not name any listed track.
    IndexOutOfRange,
}

/// Resolves the user's numeric selection against the track list: `Ok` with
/// the chosen track exactly when the index is in range, and the
/// invalid-selection error otherwise — in which case no playback begins.
pub fn select_track(files: &Vec<String>, index: usize) -> (r: Result<String, SelectError>)
    ensures
        r is Ok <==> index < files@.len(),
        (r matches Ok(f) ==> f@ == files@[index as int]@),
        (r matches Err(e) ==> e == SelectError::IndexOutOfRange),
{
    if index < files.len() {
        Ok(files[index].clone())
    } else {
        Err(SelectError::IndexOutOfRange)
    }
}

} // verus!
