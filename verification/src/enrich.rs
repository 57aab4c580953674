//! Decisions of the metadata tools: the MusicBrainz enrichment run and the JSON import.

use vstd::prelude::*;
use crate::text::owned;
use crate::json::{json_string_array, strings_to_json};
use crate::artists::display_value;
use crate::text::join;

verus! {

/// How many artists an enrichment run handles: all of them, or at most `limit`.
pub fn artists_to_process(count: usize, limit: Option<usize>) -> (n: usize)
    ensures
        match limit {
            Some(l) => n == if count <= l { count } else { l },
            None => n == count,
        },
{
    match limit {
        Some(l) => if count <= l { count } else { l },
        None => count,
    }
}

/// What the run does before the artist at a position.
#[derive(Debug, Clone, Copy)]
pub struct EnrichStep {
    /// Print a progress line (for the first artist and every tenth).
    pub report_progress: bool,
    /// Wait between two MusicBrainz requests (before every artist but the first).
    pub pause_first: bool,
}

/// The step before the artist at position `idx` (counted from 0).
pub fn enrich_step(idx: usize) -> (s: EnrichStep)
    requires
        idx < usize::MAX,
    ensures
        s.report_progress == (idx == 0 || (idx + 1) % 10 == 0),
        s.pause_first == (idx > 0),
{
    EnrichStep { report_progress: (idx + 1) % 10 == 0 || idx == 0, pause_first: idx > 0 }
}

/// The query that looks an artist up in MusicBrainz by exact name.
pub fn musicbrainz_query(name: &str) -> (q: String)
    ensures
        q@ == "artist:\""@ + name@ + "\""@,
{
    let mut q: String = owned("artist:\"");
    q.append(name);
    q.append("\"");
    q
}

/// The tags kept for an artist found in MusicBrainz: its genres, then its tags.
pub fn merged_tags(genres: Vec<String>, tags: Option<Vec<String>>) -> (all: Vec<String>)
    ensures
        all.deep_view() == genres.deep_view() + match tags {
            Some(t) => t.deep_view(),
            None => Seq::<Seq<char>>::empty(),
        },
{
    let mut all: Vec<String> = genres;
    match tags {
        Some(t) => {
            let ghost start = all.deep_view();
            let n: usize = t.len();
            let mut i: usize = 0;
            while i < n
                invariant
                    n == t@.len(),
                    i <= n,
                    all.deep_view() == start + t.deep_view().take(i as int),
                decreases n - i,
            {
                let ghost before = all.deep_view();
                let item: String = t[i].clone();
                all.push(item);
                assert(all.deep_view() =~= before.push(t.deep_view()[i as int]));
                i = i + 1;
                assert(all.deep_view() =~= start + t.deep_view().take(i as int));
            }
            assert(t.deep_view().take(n as int) =~= t.deep_view());
        },
        None => {
            assert(all.deep_view() =~= all.deep_view() + Seq::<Seq<char>>::empty());
        },
    }
    all
}

/// The stored tags of an enriched artist: nothing for no tags, else the JSON
/// text of the list, which the detail panel shows comma-separated.
pub fn tags_json(all_tags: &Vec<String>) -> (res: Option<String>)
    ensures
        all_tags@.len() == 0 ==> res is None,
        all_tags@.len() > 0 ==> (res matches Some(t) && t@ == json_string_array(all_tags.deep_view())
            && display_value("tags"@, t@) == join(all_tags.deep_view(), ", "@)),
{
    if all_tags.len() == 0 {
        None
    } else {
        Some(strings_to_json(all_tags))
    }
}

/// The stored tags of an imported artist: the JSON text of its tag list when it
/// has one, which the detail panel shows comma-separated.
pub fn import_tags_json(tags: Option<Vec<String>>) -> (res: Option<String>)
    ensures
        match tags {
            Some(t) => (res matches Some(r) && r@ == json_string_array(t.deep_view())
                && display_value("tags"@, r@) == join(t.deep_view(), ", "@)),
            None => res is None,
        },
{
    match tags {
        Some(t) => Some(strings_to_json(&t)),
        None => None,
    }
}

/// What a MusicBrainz lookup gave for one artist.
#[derive(Debug, Clone, Copy)]
pub enum LookupOutcome {
    /// Found, with or without tags.
    Found { has_tags: bool },
    /// Not known to MusicBrainz.
    NotFound,
    /// The lookup failed.
    Failed,
}

/// The counts that an enrichment run reports.
#[derive(Debug)]
pub struct EnrichStats {
    pub processed: usize,
    pub found_musicbrainz: usize,
    pub total_with_tags: usize,
}

impl EnrichStats {
    /// Artists with tags were found, and found artists were processed.
    pub open spec fn wf(&self) -> bool {
        self.total_with_tags <= self.found_musicbrainz <= self.processed
    }

    /// No artist handled yet.
    pub fn new() -> (s: EnrichStats)
        ensures
            s.wf(),
            s.processed == 0,
            s.found_musicbrainz == 0,
            s.total_with_tags == 0,
    {
        EnrichStats { processed: 0, found_musicbrainz: 0, total_with_tags: 0 }
    }

    /// Counts one artist: every artist as processed, a found one as found, and a
    /// found one with tags as having tags.
    pub fn record(&mut self, outcome: LookupOutcome)
        requires
            old(self).wf(),
            old(self).processed < usize::MAX,
        ensures
            final(self).wf(),
            final(self).processed == old(self).processed + 1,
            final(self).found_musicbrainz == old(self).found_musicbrainz + if outcome is Found { 1int } else { 0int },
            final(self).total_with_tags == old(self).total_with_tags + if (outcome matches LookupOutcome::Found { has_tags } && has_tags) { 1int } else { 0int },
    {
        match outcome {
            LookupOutcome::Found { has_tags } => {
                self.found_musicbrainz = self.found_musicbrainz + 1;
                if has_tags {
                    self.total_with_tags = self.total_with_tags + 1;
                }
            },
            LookupOutcome::NotFound => {},
            LookupOutcome::Failed => {},
        }
        self.processed = self.processed + 1;
    }
}

} // verus!
