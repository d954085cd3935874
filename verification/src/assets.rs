//! Asset naming: sounds are requested by file name, not by path.
use vstd::prelude::*;

verus! {

/// Index of the last `c` among the first `end` characters of `s`, or -1.
pub open spec fn last_index_of(s: Seq<char>, c: char, end: int) -> int
    decreases end,
{
    if end <= 0 {
        -1
    } else if s[end - 1] == c {
        end - 1
    } else {
        last_index_of(s, c, end - 1)
    }
}

/// The part of an asset path after its last `/` (the whole path when it has
/// none).
pub open spec fn file_name_of(path: Seq<char>) -> Seq<char> {
    path.subrange(last_index_of(path, '/', path.len() as int) + 1, path.len() as int)
}

proof fn lemma_last_index_bounds(s: Seq<char>, c: char, end: int)
    requires
        end <= s.len(),
    ensures
        -1 <= last_index_of(s, c, end) < end || (end <= 0 && last_index_of(s, c, end) == -1),
        last_index_of(s, c, end) >= 0 ==> s[last_index_of(s, c, end)] == c,
    decreases end,
{
    if end > 0 && s[end - 1] != c {
        lemma_last_index_bounds(s, c, end - 1);
    }
}

/// The name a sound is requested by: its path's file name, e.g.
/// `"jump.wav"` for `"audio/jump.wav"`.
pub fn sound_name(path: &str) -> (r: &str)
    ensures
        r@ == file_name_of(path@),
{
    let n = path.unicode_len();
    let mut j: usize = n;
    while j > 0
        invariant
            j <= n,
            n == path@.len(),
            last_index_of(path@, '/', n as int) == last_index_of(path@, '/', j as int),
        decreases j,
    {
        if path.get_char(j - 1) == '/' {
            proof {
                lemma_last_index_bounds(path@, '/', n as int);
            }
            return path.substring_char(j, n);
        }
        j = j - 1;
    }
    path.substring_char(0, n)
}

/// Where the loading of one required asset stands.
#[derive(Debug, Clone, Copy, PartialEq, Eq, Structural)]
pub enum LoadProgress {
    Loaded,
    Failed,
    Pending,
}

/// What the loading screen does this frame.
#[derive(Debug, Clone, Copy, PartialEq, Eq, Structural)]
pub enum LoadVerdict {
    /// Every asset is loaded: build the clips and go to the main menu.
    Ready,
    /// Keep waiting.
    Wait,
    /// A required asset failed to load: the game cannot start.
    Failed,
}

/// The required assets are checked in order, and the first one not yet
/// loaded decides: a failure is fatal, anything else means waiting.
pub fn load_verdict(assets: &Vec<LoadProgress>) -> (r: LoadVerdict)
    ensures
        r == LoadVerdict::Ready <==> forall|j: int| 0 <= j < assets.len() ==> assets@[j] == LoadProgress::Loaded,
        r != LoadVerdict::Ready ==> exists|k: int|
            0 <= k < assets.len() && assets@[k] != LoadProgress::Loaded && (forall|j: int|
                0 <= j < k ==> assets@[j] == LoadProgress::Loaded) && (r == LoadVerdict::Failed
                <==> assets@[k] == LoadProgress::Failed),
{
    let mut i: usize = 0;
    while i < assets.len()
        invariant
            i <= assets.len(),
            forall|j: int| 0 <= j < i ==> assets@[j] == LoadProgress::Loaded,
        decreases assets.len() - i,
    {
        match assets[i] {
            LoadProgress::Loaded => {},
            LoadProgress::Failed => {
                assert(assets@[i as int] != LoadProgress::Loaded);
                return LoadVerdict::Failed;
            },
            LoadProgress::Pending => {
                assert(assets@[i as int] != LoadProgress::Loaded);
                return LoadVerdict::Wait;
            },
        }
        i = i + 1;
    }
    LoadVerdict::Ready
}

} // verus!
