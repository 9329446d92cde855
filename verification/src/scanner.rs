//! The reference scanner: where in a text the names of media files occur.
//!
//! Matching is case-insensitive substring containment on bytes. Every
//! occurrence counts, also one that overlaps the occurrence before it.

use vstd::prelude::*;
use vstd::utf8::encode_utf8;

verus! {

/// The part of a text that a scan covered, as byte offsets.
#[derive(Debug, Clone, Copy, PartialEq, Eq)]
pub struct ContentRange {
    pub start: usize,
    pub end: usize,
}

/// One occurrence of a media file's name in a scanned text.
#[derive(Debug, PartialEq, Eq)]
pub struct MediaMatch {
    /// The media file's full path.
    pub filename: String,
    /// Byte offset of the occurrence in the lower-cased text.
    pub position: usize,
    /// Byte length of the lower-cased name.
    pub length: usize,
}

/// What a scan found, and the range it covered.
#[derive(Debug, PartialEq, Eq)]
pub struct ScanResult {
    pub matches: Vec<MediaMatch>,
    pub scanned_range: ContentRange,
}

/// One entry of the media directory as the host read it. A part that is not
/// text is absent; an entry that could not be read at all has neither part.
#[derive(Debug, PartialEq, Eq)]
pub struct MediaEntry {
    /// The entry's bare name.
    pub file_name: Option<String>,
    /// The entry's full path.
    pub path: Option<String>,
}

/// The mathematical value of a [`MediaMatch`].
pub struct MatchView {
    pub filename: Seq<char>,
    pub position: int,
    pub length: int,
}

/// The mathematical value of a [`ScanResult`].
pub struct ScanView {
    pub matches: Seq<MatchView>,
    pub start: int,
    pub end: int,
}

/// The mathematical value of a [`MediaEntry`].
pub struct EntryView {
    pub file_name: Option<Seq<char>>,
    pub path: Option<Seq<char>>,
}

impl View for MediaMatch {
    type V = MatchView;

    open spec fn view(&self) -> MatchView {
        MatchView {
            filename: self.filename@,
            position: self.position as int,
            length: self.length as int,
        }
    }
}

/// The values of a list of matches, in order.
pub open spec fn matches_view(matches: Seq<MediaMatch>) -> Seq<MatchView> {
    matches.map_values(|m: MediaMatch| m@)
}

impl View for ScanResult {
    type V = ScanView;

    open spec fn view(&self) -> ScanView {
        ScanView {
            matches: matches_view(self.matches@),
            start: self.scanned_range.start as int,
            end: self.scanned_range.end as int,
        }
    }
}

/// The value of an optional string.
pub open spec fn text_view(text: Option<String>) -> Option<Seq<char>> {
    match text {
        Some(s) => Some(s@),
        None => None,
    }
}

impl View for MediaEntry {
    type V = EntryView;

    open spec fn view(&self) -> EntryView {
        EntryView { file_name: text_view(self.file_name), path: text_view(self.path) }
    }
}

/// The values of a list of directory entries, in order.
pub open spec fn entries_view(entries: Seq<MediaEntry>) -> Seq<EntryView> {
    entries.map_values(|e: MediaEntry| e@)
}

/// `needle` stands in `haystack` at byte offset `at`.
pub open spec fn occurs_at(haystack: Seq<u8>, needle: Seq<u8>, at: int) -> bool {
    &&& 0 <= at
    &&& at + needle.len() <= haystack.len()
    &&& haystack.subrange(at, at + needle.len()) == needle
}

/// The offsets below `limit` at which `needle` stands in `haystack`,
/// ascending.
pub open spec fn occurrences_below(haystack: Seq<u8>, needle: Seq<u8>, limit: int) -> Seq<int>
    decreases limit,
{
    if limit <= 0 {
        Seq::empty()
    } else {
        let before = occurrences_below(haystack, needle, limit - 1);
        if occurs_at(haystack, needle, limit - 1) {
            before.push(limit - 1)
        } else {
            before
        }
    }
}

/// Every offset at which `needle` stands in `haystack`, ascending. Two
/// occurrences may overlap: `aa` stands in `aaa` at 0 and at 1.
pub open spec fn occurrences(haystack: Seq<u8>, needle: Seq<u8>) -> Seq<int> {
    occurrences_below(haystack, needle, haystack.len() as int + 1)
}

/// The matches that a list of offsets gives for one media file.
pub open spec fn matches_at_offsets(offsets: Seq<int>, needle_len: int, path: Seq<char>) -> Seq<
    MatchView,
> {
    offsets.map_values(|at: int| MatchView { filename: path, position: at, length: needle_len })
}

/// The matches of one media file: one for each offset at which its
/// lower-cased name `needle` stands in the lower-cased text `haystack`.
pub open spec fn entry_matches(haystack: Seq<u8>, needle: Seq<u8>, path: Seq<char>) -> Seq<
    MatchView,
> {
    matches_at_offsets(occurrences(haystack, needle), needle.len() as int, path)
}

/// Offsets from `from` up to `to` hold no occurrence.
pub open spec fn none_between(haystack: Seq<u8>, needle: Seq<u8>, from: int, to: int) -> bool {
    forall|at: int| from <= at < to ==> !occurs_at(haystack, needle, at)
}

/// Offsets from `from` on hold no occurrence.
pub open spec fn none_from(haystack: Seq<u8>, needle: Seq<u8>, from: int) -> bool {
    forall|at: int| from <= at ==> !occurs_at(haystack, needle, at)
}

/// A stretch without occurrences adds nothing to the list of offsets.
pub proof fn lemma_skip_stretch(haystack: Seq<u8>, needle: Seq<u8>, from: int, to: int)
    requires
        0 <= from <= to,
        none_between(haystack, needle, from, to),
    ensures
        occurrences_below(haystack, needle, to) == occurrences_below(haystack, needle, from),
    decreases to - from,
{
    if from < to {
        lemma_skip_stretch(haystack, needle, from, to - 1);
    }
}

/// The list of offsets holds exactly the offsets below `limit` at which the
/// needle stands.
pub proof fn lemma_occurrences_below_complete(
    haystack: Seq<u8>,
    needle: Seq<u8>,
    limit: int,
    at: int,
)
    ensures
        occurrences_below(haystack, needle, limit).contains(at) <==> (at < limit && occurs_at(
            haystack,
            needle,
            at,
        )),
    decreases limit,
{
    if limit > 0 {
        lemma_occurrences_below_complete(haystack, needle, limit - 1, at);
        let before = occurrences_below(haystack, needle, limit - 1);
        if occurs_at(haystack, needle, limit - 1) {
            let all = before.push(limit - 1);
            assert(all[before.len() as int] == limit - 1);
            if before.contains(at) {
                let k = choose|k: int| 0 <= k < before.len() && before[k] == at;
                assert(all[k] == at);
            }
        }
    }
}

/// The list of offsets is strictly ascending, and each is below `limit`.
pub proof fn lemma_occurrences_below_ascending(haystack: Seq<u8>, needle: Seq<u8>, limit: int)
    ensures
        ({
            let offsets = occurrences_below(haystack, needle, limit);
            &&& forall|i: int, j: int| 0 <= i < j < offsets.len() ==> offsets[i] < offsets[j]
            &&& forall|i: int|
                0 <= i < offsets.len() ==> 0 <= #[trigger] offsets[i] && offsets[i] < limit
        }),
    decreases limit,
{
    if limit > 0 {
        lemma_occurrences_below_ascending(haystack, needle, limit - 1);
        let before = occurrences_below(haystack, needle, limit - 1);
        let offsets = occurrences_below(haystack, needle, limit);
        assert forall|i: int| 0 <= i < offsets.len() implies 0 <= #[trigger] offsets[i]
            && offsets[i] < limit by {
            if i < before.len() {
                assert(offsets[i] == before[i]);
            }
        }
        assert forall|i: int, j: int| 0 <= i < j < offsets.len() implies offsets[i]
            < offsets[j] by {
            assert(offsets[i] == before[i]);
            if j < before.len() {
                assert(offsets[j] == before[j]);
            }
        }
    }
}

/// A scan finds every occurrence, and only occurrences: an offset is in the
/// list exactly if the needle stands there.
pub proof fn lemma_occurrences_complete(haystack: Seq<u8>, needle: Seq<u8>, at: int)
    ensures
        occurrences(haystack, needle).contains(at) <==> occurs_at(haystack, needle, at),
{
    lemma_occurrences_below_complete(haystack, needle, haystack.len() as int + 1, at);
}

/// Within one media file the offsets come in strictly ascending order, so no
/// offset is reported twice.
pub proof fn lemma_occurrences_ascending(haystack: Seq<u8>, needle: Seq<u8>)
    ensures
        ({
            let offsets = occurrences(haystack, needle);
            forall|i: int, j: int| 0 <= i < j < offsets.len() ==> offsets[i] < offsets[j]
        }),
{
    lemma_occurrences_below_ascending(haystack, needle, haystack.len() as int + 1);
}

/// Whether `needle` stands in `haystack` at offset `at`.
pub fn stands_at(haystack: &[u8], needle: &[u8], at: usize) -> (found: bool)
    ensures
        found == occurs_at(haystack@, needle@, at as int),
{
    if needle.len() > haystack.len() || at > haystack.len() - needle.len() {
        return false;
    }
    let mut k: usize = 0;
    while k < needle.len()
        invariant
            k <= needle.len(),
            at + needle.len() <= haystack.len(),
            forall|j: int| 0 <= j < k ==> haystack@[at + j] == needle@[j],
        decreases needle.len() - k,
    {
        if haystack[at + k] != needle[k] {
            proof {
                let part = haystack@.subrange(at as int, at + needle.len());
                assert(part[k as int] == haystack@[at + k]);
            }
            return false;
        }
        k = k + 1;
    }
    proof {
        assert(haystack@.subrange(at as int, at + needle.len()) =~= needle@);
    }
    true
}

/// The first offset at or after `start` at which `needle` stands in
/// `haystack`, if there is one.
pub fn find_from(haystack: &[u8], needle: &[u8], start: usize) -> (found: Option<usize>)
    ensures
        match found {
            Some(at) => {
                &&& start <= at
                &&& occurs_at(haystack@, needle@, at as int)
                &&& none_between(haystack@, needle@, start as int, at as int)
            },
            None => none_from(haystack@, needle@, start as int),
        },
{
    if needle.len() > haystack.len() {
        return None;
    }
    let last: usize = haystack.len() - needle.len();
    let mut at: usize = start;
    loop
        invariant
            start <= at,
            last == haystack.len() - needle.len(),
            none_between(haystack@, needle@, start as int, at as int),
        decreases last + 1 - at,
    {
        if at > last {
            return None;
        }
        if stands_at(haystack, needle, at) {
            return Some(at);
        }
        if at == last {
            return None;
        }
        at = at + 1;
    }
}

/// Appends to `matches` the matches of one media file, in ascending order of
/// offset: one for each offset at which `needle`, the file's lower-cased
/// name, stands in `haystack`, the lower-cased text. After a match the search
/// goes on one byte behind the match's start, not behind its end.
pub fn collect_matches(
    haystack: &[u8],
    needle: &[u8],
    full_path: &String,
    matches: &mut Vec<MediaMatch>,
)
    ensures
        matches_view(final(matches)@) == matches_view(old(matches)@) + entry_matches(
            haystack@,
            needle@,
            full_path@,
        ),
{
    let ghost before = matches_view(matches@);
    let ghost length = needle@.len() as int;
    let ghost limit = haystack@.len() as int + 1;
    let mut start: usize = 0;
    loop
        invariant_except_break
            start <= haystack@.len(),
            matches_view(matches@) == before + matches_at_offsets(
                occurrences_below(haystack@, needle@, start as int),
                length,
                full_path@,
            ),
        invariant
            length == needle@.len(),
            limit == haystack@.len() + 1,
        ensures
            matches_view(matches@) == before + matches_at_offsets(
                occurrences_below(haystack@, needle@, limit),
                length,
                full_path@,
            ),
        decreases haystack@.len() - start,
    {
        match find_from(haystack, needle, start) {
            None => {
                proof {
                    lemma_skip_stretch(haystack@, needle@, start as int, limit);
                }
                break ;
            },
            Some(at) => {
                let ghost earlier = matches_view(matches@);
                let found_match = MediaMatch {
                    filename: full_path.clone(),
                    position: at,
                    length: needle.len(),
                };
                matches.push(found_match);
                proof {
                    lemma_skip_stretch(haystack@, needle@, start as int, at as int);
                    assert(matches_view(matches@) =~= earlier.push(found_match@));
                }
                if at == haystack.len() {
                    break ;
                }
                start = at + 1;
            },
        }
    }
}

/// The lower-case form that `str::to_lowercase` gives a text.
pub uninterp spec fn lowercase_of(text: Seq<char>) -> Seq<char>;

/// Calls `str::to_lowercase`, which maps each character by the Unicode
/// lower-case rules. Nothing is proved of it: the contract only gives the
/// result its name, since the result depends on the text alone.
#[verifier::external_body]
fn to_lowercase(text: &str) -> (lower: String)
    ensures
        lower@ == lowercase_of(text@),
{
    text.to_lowercase()
}

/// The bytes of a text's lower-case form.
pub open spec fn lower_bytes(text: Seq<char>) -> Seq<u8> {
    encode_utf8(lowercase_of(text))
}

/// An entry takes part in a scan if both its name and its path are text.
pub open spec fn scannable(entry: EntryView) -> bool {
    entry.file_name is Some && entry.path is Some
}

/// The matches of a scan of the lower-cased text `haystack`: the matches of
/// each scannable entry, entry after entry in the order of the listing.
pub open spec fn scan_matches(haystack: Seq<u8>, entries: Seq<EntryView>) -> Seq<MatchView>
    decreases entries.len(),
{
    if entries.len() == 0 {
        Seq::empty()
    } else {
        let before = scan_matches(haystack, entries.drop_last());
        let entry = entries.last();
        if scannable(entry) {
            before + entry_matches(
                haystack,
                lower_bytes(entry.file_name.unwrap()),
                entry.path.unwrap(),
            )
        } else {
            before
        }
    }
}

/// The matches come grouped by media file, in the order of the listing: a
/// scan of two listings in a row gives the matches of the first, then those
/// of the second.
pub proof fn lemma_scan_matches_grouped(
    haystack: Seq<u8>,
    first: Seq<EntryView>,
    second: Seq<EntryView>,
)
    ensures
        scan_matches(haystack, first + second) == scan_matches(haystack, first) + scan_matches(
            haystack,
            second,
        ),
    decreases second.len(),
{
    if second.len() == 0 {
        assert(first + second =~= first);
    } else {
        lemma_scan_matches_grouped(haystack, first, second.drop_last());
        assert((first + second).drop_last() =~= first + second.drop_last());
        assert((first + second).last() == second.last());
    }
}

/// What a scan of `content` against a listing of the media directory gives.
/// The range is always the whole of `content`, in bytes.
pub open spec fn scan_model(content: Seq<char>, entries: Seq<EntryView>) -> ScanView {
    ScanView {
        matches: scan_matches(lower_bytes(content), entries),
        start: 0,
        end: encode_utf8(content).len() as int,
    }
}

/// Scans `content` for the names of the listed media files, ignoring case.
/// Entries whose name or path is not text are passed over.
pub fn scan_entries(content: &str, entries: &Vec<MediaEntry>) -> (result: ScanResult)
    ensures
        result@ == scan_model(content@, entries_view(entries@)),
{
    let content_lower = to_lowercase(content);
    let haystack = content_lower.as_str().as_bytes();
    let mut matches: Vec<MediaMatch> = Vec::new();
    let ghost listing = entries_view(entries@);
    let mut i: usize = 0;
    while i < entries.len()
        invariant
            i <= entries.len(),
            listing == entries_view(entries@),
            haystack@ == lower_bytes(content@),
            matches_view(matches@) == scan_matches(haystack@, listing.take(i as int)),
        decreases entries.len() - i,
    {
        let entry = &entries[i];
        proof {
            assert(listing.take(i + 1).drop_last() =~= listing.take(i as int));
        }
        if let Some(name) = &entry.file_name {
            if let Some(path) = &entry.path {
                let name_lower = to_lowercase(name.as_str());
                collect_matches(haystack, name_lower.as_str().as_bytes(), path, &mut matches);
            }
        }
        i = i + 1;
    }
    proof {
        assert(listing.take(entries.len() as int) =~= listing);
    }
    ScanResult { matches, scanned_range: ContentRange { start: 0, end: content.as_bytes().len() } }
}

} // verus!
