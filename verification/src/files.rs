//! Listings of directories: the downloads, newest first, and the search
//! for the bundled tools.
//!
//! Reading a directory is the caller's business. What it read comes here
//! as plain values.

use vstd::prelude::*;

use crate::text::contains_char;
use crate::text::ends_with;
use crate::text::starts_with;

verus! {

/// One entry of a directory.
#[derive(Debug)]
pub struct FileInfo {
    pub name: String,
    pub is_dir: bool,
    /// When the entry was last modified, in seconds since 1970.
    pub last_modified: u64,
    pub file_size: u64,
}

/// Whether the entries stand newest first.
pub open spec fn newest_first(entries: Seq<FileInfo>) -> bool {
    forall|i: int, j: int|
        0 <= i < j < entries.len() ==> entries[i].last_modified >= entries[j].last_modified
}

/// The entries that were last modified at `time`.
pub open spec fn modified_at(time: u64) -> spec_fn(FileInfo) -> bool {
    |entry: FileInfo| entry.last_modified == time
}

/// Where `entry` goes among `sorted` so that entries of its own time and
/// older ones come behind it.
fn place_for(sorted: &Vec<FileInfo>, entry: &FileInfo) -> (at: usize)
    requires
        newest_first(sorted@),
    ensures
        at <= sorted@.len(),
        forall|i: int| 0 <= i < at ==> sorted@[i].last_modified > entry.last_modified,
        forall|i: int| at <= i < sorted@.len() ==> sorted@[i].last_modified <= entry.last_modified,
{
    let mut at: usize = 0;
    while at < sorted.len() && sorted[at].last_modified > entry.last_modified
        invariant
            at <= sorted@.len(),
            forall|i: int| 0 <= i < at ==> sorted@[i].last_modified > entry.last_modified,
        decreases sorted@.len() - at,
    {
        at += 1;
    }
    at
}

/// Putting `entry` at its place in front of its own time keeps, for every
/// time, the entries of that time in the order in which `entry` followed
/// by `sorted` has them.
proof fn lemma_insert_keeps_order(sorted: Seq<FileInfo>, entry: FileInfo, at: int, time: u64)
    requires
        0 <= at <= sorted.len(),
        forall|i: int| 0 <= i < at ==> sorted[i].last_modified > entry.last_modified,
    ensures
        sorted.insert(at, entry).filter(modified_at(time)) == (seq![entry] + sorted).filter(
            modified_at(time),
        ),
{
    let keep = modified_at(time);
    let front = sorted.subrange(0, at);
    let back = sorted.subrange(at, sorted.len() as int);
    let one = seq![entry];
    assert(sorted.insert(at, entry) == front + one + back);
    assert(sorted == front + back);
    assert(one + sorted == one + front + back);
    Seq::filter_distributes_over_add(front + one, back, keep);
    Seq::filter_distributes_over_add(front, one, keep);
    Seq::filter_distributes_over_add(one + front, back, keep);
    Seq::filter_distributes_over_add(one, front, keep);
    if entry.last_modified == time {
        assert forall|i: int| 0 <= i < front.len() implies !keep(#[trigger] front[i]) by {
            assert(front[i] == sorted[i]);
        }
        front.lemma_all_neg_filter_empty(keep);
        assert(front.filter(keep) + one.filter(keep) == one.filter(keep) + front.filter(keep));
    } else {
        assert(!keep(one[0]));
        one.lemma_all_neg_filter_empty(keep);
        assert(front.filter(keep) + one.filter(keep) == one.filter(keep) + front.filter(keep));
    }
}

/// Sorts the entries of a directory, the newest first. Entries of the same
/// time keep the order in which they came.
pub fn get_sorted_directory_contents(entries: Vec<FileInfo>) -> (sorted: Vec<FileInfo>)
    ensures
        newest_first(sorted@),
        sorted@.len() == entries@.len(),
        forall|time: u64| #[trigger]
            sorted@.filter(modified_at(time)) == entries@.filter(modified_at(time)),
{
    let ghost all = entries@;
    let mut rest = entries;
    let mut sorted: Vec<FileInfo> = Vec::new();
    proof {
        assert(all.skip(all.len() as int) == Seq::<FileInfo>::empty());
    }
    while rest.len() > 0
        invariant
            rest@ == all.take(rest@.len() as int),
            rest@.len() <= all.len(),
            sorted@.len() + rest@.len() == all.len(),
            newest_first(sorted@),
            forall|time: u64| #[trigger]
                sorted@.filter(modified_at(time)) == all.skip(rest@.len() as int).filter(
                    modified_at(time),
                ),
        decreases rest@.len(),
    {
        let ghost before = sorted@;
        let ghost left = rest@.len() as int;
        let entry = rest.pop().unwrap();
        let at = place_for(&sorted, &entry);
        sorted.insert(at, entry);
        proof {
            assert(entry == all[left - 1]);
            assert(all.skip(left - 1) == seq![entry] + all.skip(left));
            assert forall|time: u64| #[trigger]
                sorted@.filter(modified_at(time)) == all.skip(left - 1).filter(
                    modified_at(time),
                ) by {
                lemma_insert_keeps_order(before, entry, at as int, time);
                before.lemma_filter_prepend(entry, modified_at(time));
                all.skip(left).lemma_filter_prepend(entry, modified_at(time));
                assert(before.filter(modified_at(time)) == all.skip(left).filter(modified_at(time)));
            }
            assert forall|i: int, j: int| 0 <= i < j < sorted@.len() implies sorted@[i].last_modified
                >= sorted@[j].last_modified by {
                let a = if i < at { i } else { i - 1 };
                let b = if j < at { j } else { j - 1 };
                if i != at && j != at {
                    assert(sorted@[i] == before[a]);
                    assert(sorted@[j] == before[b]);
                } else if i == at {
                    assert(sorted@[j] == before[b]);
                } else {
                    assert(sorted@[i] == before[a]);
                }
            }
            assert(rest@ == all.take(left - 1));
        }
    }
    proof {
        assert(all.skip(0) == all);
    }
    sorted
}

/// An entry of a directory with what lies under it.
#[derive(Debug)]
pub struct DirNode {
    /// The name of the entry.
    pub name: String,
    /// The whole path of the entry.
    pub path: String,
    /// For a directory, its entries in the order in which they were read,
    /// none where it could not be read; for anything else `None`.
    pub children: Option<Vec<DirNode>>,
}

/// Whether a file of this name is the program `tool`: its name begins
/// with the tool's, and either ends in `.exe` or has no dot at all.
pub open spec fn names_tool(name: Seq<char>, tool: Seq<char>) -> bool {
    tool.is_prefix_of(name) && (".exe"@.is_suffix_of(name) || !name.contains('.'))
}

/// Whether a file of this name is the program `tool`.
pub fn is_tool_binary(name: &str, tool: &str) -> (r: bool)
    ensures
        r == names_tool(name@, tool@),
{
    starts_with(name, tool) && (ends_with(name, ".exe") || !contains_char(name, '.'))
}

/// The path of the first entry among `entries` whose name is that of the
/// program `tool`, whether it is a file or a directory; the empty path
/// where there is none.
pub open spec fn first_named(entries: Seq<DirNode>, tool: Seq<char>) -> Seq<char>
    decreases entries.len(),
{
    if entries.len() == 0 {
        Seq::empty()
    } else if names_tool(entries[0].name@, tool) {
        entries[0].path@
    } else {
        first_named(entries.drop_first(), tool)
    }
}

/// The path of the first file under `entries` whose name is that of the
/// program `tool`, where each directory is searched to its end before the
/// entry behind it is looked at; the empty path where there is none.
pub open spec fn first_file(entries: Seq<DirNode>, tool: Seq<char>) -> Seq<char>
    decreases entries,
{
    if entries.len() == 0 {
        Seq::empty()
    } else {
        let here = match entries[0].children {
            Some(children) => first_file(children@, tool),
            None => if names_tool(entries[0].name@, tool) {
                entries[0].path@
            } else {
                Seq::empty()
            },
        };
        if here.len() > 0 {
            here
        } else {
            first_file(entries.drop_first(), tool)
        }
    }
}

/// Looks for ffmpeg among `entries` and in the directories under them.
pub fn find_ffmpeg_recursive(entries: &Vec<DirNode>) -> (path: String)
    ensures
        path@ == first_file(entries@, "ffmpeg"@),
    decreases entries,
{
    let mut i: usize = 0;
    assert(entries@.skip(0) == entries@);
    while i < entries.len()
        invariant
            i <= entries@.len(),
            first_file(entries@, "ffmpeg"@) == first_file(entries@.skip(i as int), "ffmpeg"@),
        decreases entries@.len() - i,
    {
        let entry = &entries[i];
        let ghost rest = entries@.skip(i as int);
        proof {
            assert(rest[0] == entries@[i as int]);
            assert(rest.drop_first() == entries@.skip(i + 1));
        }
        match &entry.children {
            Some(children) => {
                let found = find_ffmpeg_recursive(children);
                if !found.as_str().is_empty() {
                    return found;
                }
            },
            None => {
                if is_tool_binary(entry.name.as_str(), "ffmpeg") && !entry.path.as_str().is_empty() {
                    return entry.path.clone();
                }
            },
        }
        i += 1;
    }
    String::new()
}

/// The paths of the bundled tools, yt-dlp first and ffmpeg second, each
/// empty where the tool is not there. `listing` holds the entries of the
/// directory of the bundled tools, or nothing where there is no such
/// directory.
pub open spec fn bundle_paths(listing: Option<Seq<DirNode>>) -> Seq<Seq<char>> {
    match listing {
        Some(entries) => seq![first_named(entries, "yt-dlp"@), first_file(entries, "ffmpeg"@)],
        None => seq![Seq::empty(), Seq::empty()],
    }
}

fn find_named(entries: &Vec<DirNode>, tool: &str) -> (path: String)
    ensures
        path@ == first_named(entries@, tool@),
{
    let mut i: usize = 0;
    assert(entries@.skip(0) == entries@);
    while i < entries.len()
        invariant
            i <= entries@.len(),
            first_named(entries@, tool@) == first_named(entries@.skip(i as int), tool@),
        decreases entries@.len() - i,
    {
        proof {
            assert(entries@.skip(i as int)[0] == entries@[i as int]);
            assert(entries@.skip(i as int).drop_first() == entries@.skip(i + 1));
        }
        if is_tool_binary(entries[i].name.as_str(), tool) {
            return entries[i].path.clone();
        }
        i += 1;
    }
    String::new()
}

/// Looks for the bundled tools: yt-dlp among the entries of their
/// directory, ffmpeg also in the directories under it.
pub fn get_bundle_tool_paths(listing: Option<&Vec<DirNode>>) -> (paths: Vec<String>)
    ensures
        paths.deep_view() == bundle_paths(
            match listing {
                Some(entries) => Some(entries@),
                None => None,
            },
        ),
{
    let mut paths: Vec<String> = Vec::new();
    match listing {
        None => {
            paths.push(String::new());
            paths.push(String::new());
        },
        Some(entries) => {
            paths.push(find_named(entries, "yt-dlp"));
            paths.push(find_ffmpeg_recursive(entries));
        },
    }
    proof {
        assert(paths.deep_view() =~= bundle_paths(
            match listing {
                Some(entries) => Some(entries@),
                None => None,
            },
        ));
    }
    paths
}

} // verus!
