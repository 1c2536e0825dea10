//! Resolution of a logical song request into an ordered list of candidate
//! files.  For every path prefix, in order, a dual-part Ogg stream is
//! preferred over a single-part one, which is preferred over a sequenced
//! score.

use vstd::prelude::*;
use vstd::string::StringExecFns;

verus! {

/// The format of one candidate source for a song.
#[derive(Clone, Copy, PartialEq, Eq, Structural)]
pub enum SongFormat {
    Organya,
    OggSinglePart,
    OggMultiPart,
}

/// One candidate for a song: its format, and every file the format needs.
pub struct SongCandidate {
    pub format: SongFormat,
    pub paths: Vec<String>,
}

/// Concatenates a path prefix, a song name and a fixed suffix.
pub fn join_path(prefix: &String, name: &String, suffix: &str) -> (r: String)
    ensures
        r@ == prefix@ + name@ + suffix@,
{
    let mut r = String::from_str(prefix.as_str());
    r.append(name.as_str());
    r.append(suffix);
    r
}

/// The ordered list of path prefixes a song is looked for under: the
/// override directory of a named soundtrack when there is one, then the
/// directory of the selected soundtrack, then the built-in fallback paths.
pub fn ordered_prefixes(
    organya_paths: &Vec<String>,
    soundtrack: &String,
    soundtrack_dir: &Option<String>,
) -> (r: Vec<String>)
    ensures
        r@.len() == organya_paths@.len() + (if soundtrack_dir is Some {
            2int
        } else {
            1int
        }),
        soundtrack_dir matches Some(d) ==> r@[0]@ == d@,
        r@[if soundtrack_dir is Some {
            1int
        } else {
            0int
        }]@ == "/Soundtracks/"@ + soundtrack@ + "/"@,
        forall|i: int|
            0 <= i < organya_paths@.len() ==> r@[i + if soundtrack_dir is Some {
                2int
            } else {
                1int
            }]@ == organya_paths@[i]@,
{
    let mut r: Vec<String> = Vec::new();
    if let Some(d) = soundtrack_dir {
        r.push(d.clone());
    }
    let mut base = String::from_str("/Soundtracks/");
    base.append(soundtrack.as_str());
    base.append("/");
    r.push(base);
    let mut i: usize = 0;
    while i < organya_paths.len()
        invariant
            i <= organya_paths@.len(),
            r@.len() == i + (if soundtrack_dir is Some {
                2int
            } else {
                1int
            }),
            soundtrack_dir matches Some(d) ==> r@[0]@ == d@,
            r@[if soundtrack_dir is Some {
                1int
            } else {
                0int
            }]@ == "/Soundtracks/"@ + soundtrack@ + "/"@,
            forall|j: int|
                0 <= j < i ==> r@[j + if soundtrack_dir is Some {
                    2int
                } else {
                    1int
                }]@ == organya_paths@[j]@,
        decreases organya_paths@.len() - i,
    {
        r.push(organya_paths[i].clone());
        i += 1;
    }
    r
}

/// What the candidate at a given index must look like: index `3 * i` is the
/// dual-part Ogg pair under prefix `i`, `3 * i + 1` the single-part Ogg file,
/// `3 * i + 2` the sequenced score.
pub open spec fn candidate_shape(
    c: SongCandidate,
    prefix: Seq<char>,
    name: Seq<char>,
    slot: int,
) -> bool {
    if slot == 0 {
        &&& c.format is OggMultiPart
        &&& c.paths@.len() == 2
        &&& c.paths@[0]@ == prefix + name + "_intro.ogg"@
        &&& c.paths@[1]@ == prefix + name + "_loop.ogg"@
    } else if slot == 1 {
        &&& c.format is OggSinglePart
        &&& c.paths@.len() == 1
        &&& c.paths@[0]@ == prefix + name + ".ogg"@
    } else {
        &&& c.format is Organya
        &&& c.paths@.len() == 1
        &&& c.paths@[0]@ == prefix + name + ".org"@
    }
}

/// The first candidate at or after `from` whose files all exist, or `None`
/// when every remaining candidate misses a file.  `exists[i]` says whether
/// every file of candidate `i` exists.  Because the candidate list is in
/// preference order, the found index is the preferred choice; when the
/// found candidate fails to decode, resolution retries from the next index.
pub fn first_existing(candidates: &Vec<SongCandidate>, exists: &Vec<bool>, from: usize) -> (r:
    Option<usize>)
    requires
        exists@.len() == candidates@.len(),
        from <= candidates@.len(),
    ensures
        r matches Some(i) ==> (from <= i < candidates@.len() && exists@[i as int] && forall|j: int|
            from <= j < i ==> !exists@[j]),
        r is None ==> forall|j: int| from <= j < candidates@.len() ==> !exists@[j],
{
    let mut i: usize = from;
    while i < exists.len()
        invariant
            exists@.len() == candidates@.len(),
            from <= i <= exists@.len(),
            forall|j: int| from <= j < i ==> !exists@[j],
        decreases exists@.len() - i,
    {
        if exists[i] {
            return Some(i);
        }
        i += 1;
    }
    None
}

/// The full ordered candidate list for a song: for each prefix in order, the
/// dual-part Ogg pair, then the single-part Ogg file, then the sequenced
/// score.
pub fn song_candidates(song_name: &String, prefixes: &Vec<String>) -> (r: Vec<SongCandidate>)
    ensures
        r@.len() == 3 * prefixes@.len(),
        forall|n: int|
            0 <= n < r@.len() ==> candidate_shape(
                #[trigger] r@[n],
                prefixes@[n / 3]@,
                song_name@,
                n % 3,
            ),
{
    let mut r: Vec<SongCandidate> = Vec::new();
    let mut i: usize = 0;
    while i < prefixes.len()
        invariant
            i <= prefixes@.len(),
            r@.len() == 3 * i,
            forall|n: int|
                0 <= n < r@.len() ==> candidate_shape(
                    #[trigger] r@[n],
                    prefixes@[n / 3]@,
                    song_name@,
                    n % 3,
                ),
        decreases prefixes@.len() - i,
    {
        let prefix = &prefixes[i];
        let mut multi_paths: Vec<String> = Vec::new();
        multi_paths.push(join_path(prefix, song_name, "_intro.ogg"));
        multi_paths.push(join_path(prefix, song_name, "_loop.ogg"));
        r.push(SongCandidate { format: SongFormat::OggMultiPart, paths: multi_paths });
        let mut single_paths: Vec<String> = Vec::new();
        single_paths.push(join_path(prefix, song_name, ".ogg"));
        r.push(SongCandidate { format: SongFormat::OggSinglePart, paths: single_paths });
        let mut org_paths: Vec<String> = Vec::new();
        org_paths.push(join_path(prefix, song_name, ".org"));
        r.push(SongCandidate { format: SongFormat::Organya, paths: org_paths });
        i += 1;
    }
    r
}

} // verus!
