//! Path classification and destination-path construction.
//!
//! All functions here are pure string logic: a relative file path is
//! classified as convert-or-copy by its extension, and destination paths
//! are built by concatenating the destination root with the relative path,
//! optionally rewriting the extension to the target format's.

use vstd::prelude::*;
use vstd::string::StrSliceExecFns;
use vstd::string::StringExecFns;

verus! {

/// What a worker does with one file: copy it verbatim or convert it.
#[derive(Clone, Copy, Debug, PartialEq, Eq, Structural)]
pub enum FileAction {
    Copy,
    Convert,
}

/// The recognised lossless extension, as a character sequence: ".flac".
pub open spec fn flac_suffix() -> Seq<char> {
    seq!['.', 'f', 'l', 'a', 'c']
}

/// The target format's canonical extension, as a character sequence: ".mp3".
pub open spec fn mp3_suffix() -> Seq<char> {
    seq!['.', 'm', 'p', '3']
}

/// True when the path ends in the recognised lossless extension.
pub open spec fn is_flac_path(s: Seq<char>) -> bool {
    s.len() >= 5 && s.subrange(s.len() - 5, s.len() as int) == flac_suffix()
}

/// Classify a relative path: files ending in the recognised lossless
/// extension are converted, everything else is copied.
pub fn decide_file_action(file_path: &String) -> (action: FileAction)
    ensures
        action == FileAction::Convert <==> is_flac_path(file_path@),
{
    let s = file_path.as_str();
    let len = s.unicode_len();
    if len >= 5 {
        let c0 = s.get_char(len - 5);
        let c1 = s.get_char(len - 4);
        let c2 = s.get_char(len - 3);
        let c3 = s.get_char(len - 2);
        let c4 = s.get_char(len - 1);
        if c0 == '.' && c1 == 'f' && c2 == 'l' && c3 == 'a' && c4 == 'c' {
            proof {
                assert(file_path@.subrange(file_path@.len() - 5, file_path@.len() as int)
                    =~= flac_suffix());
            }
            return FileAction::Convert;
        }
        proof {
            if is_flac_path(file_path@) {
                assert(file_path@.subrange(file_path@.len() - 5, file_path@.len() as int)
                    =~= flac_suffix());
                assert(false);
            }
        }
        return FileAction::Copy;
    }
    FileAction::Copy
}

/// Index of the last occurrence of `c` in `s`, or -1 when `c` is absent.
pub open spec fn last_index_of(s: Seq<char>, c: char) -> int
    decreases s.len(),
{
    if s.len() == 0 {
        -1
    } else if s[s.len() - 1] == c {
        s.len() - 1
    } else {
        last_index_of(s.drop_last(), c)
    }
}

proof fn lemma_last_index_of_found(s: Seq<char>, c: char, j: int)
    requires
        0 <= j < s.len(),
        s[j] == c,
        forall|k: int| j < k < s.len() ==> s[k] != c,
    ensures
        last_index_of(s, c) == j,
    decreases s.len(),
{
    if j == s.len() - 1 {
    } else {
        assert(s.drop_last()[j] == c);
        lemma_last_index_of_found(s.drop_last(), c, j);
    }
}

proof fn lemma_last_index_of_absent(s: Seq<char>, c: char)
    requires
        forall|k: int| 0 <= k < s.len() ==> s[k] != c,
    ensures
        last_index_of(s, c) == -1,
    decreases s.len(),
{
    if s.len() > 0 {
        lemma_last_index_of_absent(s.drop_last(), c);
    }
}

/// Everything before the last '/' of `s`; empty when `s` has no '/'.
/// This is the directory that must exist before the file at `s` can be
/// written.
pub open spec fn parent_directory(s: Seq<char>) -> Seq<char> {
    if last_index_of(s, '/') < 0 {
        Seq::empty()
    } else {
        s.take(last_index_of(s, '/'))
    }
}

/// Directory part of destination-root + relative-path: the tree that must
/// be created before the file is copied or written there.
pub fn get_target_directory(dest_path: String, file_path: &String) -> (dir: String)
    ensures
        dir@ == parent_directory(dest_path@ + file_path@),
{
    let target_path = dest_path.concat(file_path.as_str());
    let s = target_path.as_str();
    let len = s.unicode_len();
    let mut i: usize = len;
    while i > 0
        invariant
            i <= len,
            s@ == target_path@,
            target_path@ == dest_path@ + file_path@,
            len == target_path@.len(),
            forall|k: int| i <= k < len ==> target_path@[k] != '/',
        decreases i,
    {
        i = i - 1;
        if s.get_char(i) == '/' {
            proof {
                lemma_last_index_of_found(target_path@, '/', i as int);
            }
            let dir = s.substring_char(0, i);
            proof {
                assert(target_path@.subrange(0, i as int)
                    =~= (dest_path@ + file_path@).take(i as int));
            }
            return String::from_str(dir);
        }
    }
    proof {
        lemma_last_index_of_absent(target_path@, '/');
    }
    String::new()
}

/// Destination-root + relative-path with the extension replaced by ".mp3".
///
/// The extension is the part of the final path component after its last
/// '.', provided that dot is not the component's first character; when the
/// component has no extension, ".mp3" is appended instead.
pub open spec fn with_mp3_extension(s: Seq<char>) -> Seq<char> {
    let comp_start = last_index_of(s, '/') + 1;
    let dot = last_index_of(s, '.');
    if dot > comp_start {
        s.take(dot) + mp3_suffix()
    } else {
        s + mp3_suffix()
    }
}

/// Full path a converted file is written to: destination-root +
/// relative-path, with the extension rewritten to the target format's.
pub fn converted_file_path(dest_path: &String, file_path: &String) -> (out: String)
    ensures
        out@ == with_mp3_extension(dest_path@ + file_path@),
{
    let target_path = dest_path.clone().concat(file_path.as_str());
    let s = target_path.as_str();
    let len = s.unicode_len();

    let mut i: usize = len;
    let mut slash: usize = 0;
    let mut have_slash = false;
    while i > 0 && !have_slash
        invariant
            i <= len,
            s@ == target_path@,
            target_path@ == dest_path@ + file_path@,
            len == target_path@.len(),
            !have_slash ==> forall|k: int| i <= k < len ==> target_path@[k] != '/',
            have_slash ==> slash < len && target_path@[slash as int] == '/'
                && forall|k: int| slash < k < len ==> target_path@[k] != '/',
        decreases i,
    {
        let j = i - 1;
        if s.get_char(j) == '/' {
            slash = j;
            have_slash = true;
        }
        i = j;
    }
    proof {
        if have_slash {
            lemma_last_index_of_found(target_path@, '/', slash as int);
        } else {
            lemma_last_index_of_absent(target_path@, '/');
        }
    }

    let comp_start: usize = if have_slash {
        slash + 1
    } else {
        0
    };

    let mut i: usize = len;
    let mut dot: usize = 0;
    let mut have_dot = false;
    while i > 0 && !have_dot
        invariant
            i <= len,
            s@ == target_path@,
            target_path@ == dest_path@ + file_path@,
            len == target_path@.len(),
            !have_dot ==> forall|k: int| i <= k < len ==> target_path@[k] != '.',
            have_dot ==> dot < len && target_path@[dot as int] == '.'
                && forall|k: int| dot < k < len ==> target_path@[k] != '.',
        decreases i,
    {
        let j = i - 1;
        if s.get_char(j) == '.' {
            dot = j;
            have_dot = true;
        }
        i = j;
    }
    proof {
        if have_dot {
            lemma_last_index_of_found(target_path@, '.', dot as int);
        } else {
            lemma_last_index_of_absent(target_path@, '.');
        }
        reveal_strlit(".mp3");
        assert(".mp3"@ =~= mp3_suffix());
    }

    if have_dot && dot > comp_start {
        let stem = s.substring_char(0, dot);
        let out = String::from_str(stem).concat(".mp3");
        proof {
            assert(out@ =~= with_mp3_extension(dest_path@ + file_path@));
        }
        out
    } else {
        let out = target_path.concat(".mp3");
        proof {
            assert(out@ =~= with_mp3_extension(dest_path@ + file_path@));
        }
        out
    }
}

/// The part of `full` after its first `root_len` characters: the path of a
/// discovered file relative to the traversal root.
pub fn relative_path_of(full: &String, root_len: usize) -> (rel: String)
    requires
        root_len <= full@.len(),
    ensures
        rel@ == full@.skip(root_len as int),
{
    let s = full.as_str();
    let len = s.unicode_len();
    let sub = s.substring_char(root_len, len);
    proof {
        assert(full@.subrange(root_len as int, full@.len() as int)
            =~= full@.skip(root_len as int));
    }
    String::from_str(sub)
}

} // verus!
