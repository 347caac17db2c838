//! The search index of a trajectory, and searches that ask for every word.
use crate::text::{contains, lowered, occurs_in, to_lower, views};
use crate::trajectory::record::{
    kind_display_name, kind_name, lane_display_name, lane_name, status_display_name, status_name,
    TrajectoryRowSummary,
};
use std::collections::HashMap;
use vstd::prelude::*;

verus! {

broadcast use vstd::std_specs::hash::group_hash_axioms;

/// What the index holds of a record before its letters are lowered.
pub open spec fn search_blob(r: TrajectoryRowSummary) -> Seq<char> {
    r.title@ + " "@ + r.preview@ + " "@ + r.search_text@ + " "@ + kind_name(r.kind) + " "@
        + status_name(r.status) + " "@ + lane_name(r.lane)
}

/// The search index of a list of records: for each id, the lowered text of the last
/// record with that id.
pub open spec fn search_index(records: Seq<TrajectoryRowSummary>) -> Map<u128, Seq<char>>
    decreases records.len(),
{
    if records.len() == 0 {
        Map::empty()
    } else {
        search_index(records.drop_last()).insert(
            records.last().record_id,
            lowered(search_blob(records.last())),
        )
    }
}

/// The contents of an index.
pub open spec fn index_view(index: Map<u128, String>) -> Map<u128, Seq<char>> {
    Map::new(|id: u128| index.contains_key(id), |id: u128| index[id]@)
}

/// Tells whether a record holds every word searched for. With no word, every record
/// does; with some, only an indexed one can.
pub open spec fn search_matches(
    record_id: u128,
    tokens: Seq<Seq<char>>,
    index: Map<u128, Seq<char>>,
) -> bool {
    tokens.len() == 0 || (index.contains_key(record_id) && forall|i: int|
        0 <= i < tokens.len() ==> occurs_in(index[record_id], #[trigger] tokens[i]))
}

/// Tells whether a record holds every word searched for.
pub fn matches_and_search(
    record_id: u128,
    tokens: &[String],
    search_index: &HashMap<u128, String>,
) -> (r: bool)
    ensures
        r == search_matches(record_id, views(tokens@), index_view(search_index@)),
{
    if tokens.len() == 0 {
        return true;
    }
    let indexed: &String = match search_index.get(&record_id) {
        Some(text) => text,
        None => return false,
    };
    for i in 0..tokens.len()
        invariant
            search_index@.contains_key(record_id),
            *indexed == search_index@[record_id],
            forall|k: int| 0 <= k < i ==> occurs_in(indexed@, #[trigger] views(tokens@)[k]),
    {
        if !contains(indexed.as_str(), tokens[i].as_str()) {
            assert(!occurs_in(indexed@, views(tokens@)[i as int]));
            return false;
        }
    }
    true
}

fn record_blob(record: &TrajectoryRowSummary) -> (r: String)
    ensures
        r@ == search_blob(*record),
{
    let mut blob = record.title.clone();
    blob.append(" ");
    blob.append(record.preview.as_str());
    blob.append(" ");
    blob.append(record.search_text.as_str());
    blob.append(" ");
    blob.append(kind_display_name(record.kind));
    blob.append(" ");
    blob.append(status_display_name(record.status));
    blob.append(" ");
    blob.append(lane_display_name(record.lane));
    blob
}

/// Indexes records for search.
pub fn build_search_index(records: &[TrajectoryRowSummary]) -> (r: HashMap<u128, String>)
    ensures
        index_view(r@) == search_index(records@),
{
    let mut index: HashMap<u128, String> = HashMap::new();
    assert(index_view(index@) =~= search_index(records@.take(0)));
    for i in 0..records.len()
        invariant
            index_view(index@) == search_index(records@.take(i as int)),
    {
        let blob = record_blob(&records[i]);
        let lowered = to_lower(blob.as_str());
        let ghost before = index@;
        index.insert(records[i].record_id, lowered);
        assert(records@.take(i as int + 1).drop_last() =~= records@.take(i as int));
        assert(index_view(index@) =~= index_view(before).insert(
            records@[i as int].record_id,
            lowered@,
        ));
    }
    assert(records@.take(records@.len() as int) =~= records@);
    index
}

/// The index knows exactly the ids of the records.
pub proof fn index_knows_every_record(records: Seq<TrajectoryRowSummary>, id: u128)
    ensures
        search_index(records).contains_key(id) <==> exists|i: int|
            0 <= i < records.len() && #[trigger] records[i].record_id == id,
    decreases records.len(),
{
    if records.len() > 0 {
        index_knows_every_record(records.drop_last(), id);
        if search_index(records).contains_key(id) {
            if records.last().record_id == id {
                assert(records[records.len() - 1].record_id == id);
            } else {
                let i = choose|i: int|
                    0 <= i < records.drop_last().len() && #[trigger] records.drop_last()[i].record_id
                        == id;
                assert(records[i].record_id == id);
            }
        }
        if exists|i: int| 0 <= i < records.len() && #[trigger] records[i].record_id == id {
            let i = choose|i: int| 0 <= i < records.len() && #[trigger] records[i].record_id == id;
            if i < records.len() - 1 {
                assert(records.drop_last()[i].record_id == id);
            }
        }
    }
}

/// Asking for more words never finds more: a record that holds every word of a search
/// holds every word of a part of it.
pub proof fn more_words_match_less(
    record_id: u128,
    tokens: Seq<Seq<char>>,
    more: Seq<Seq<char>>,
    index: Map<u128, Seq<char>>,
)
    requires
        search_matches(record_id, tokens + more, index),
    ensures
        search_matches(record_id, tokens, index),
        search_matches(record_id, more, index),
{
    assert forall|i: int| 0 <= i < tokens.len() implies occurs_in(
        index[record_id],
        #[trigger] tokens[i],
    ) by {
        assert((tokens + more)[i] == tokens[i]);
    }
    assert forall|i: int| 0 <= i < more.len() implies occurs_in(
        index[record_id],
        #[trigger] more[i],
    ) by {
        assert((tokens + more)[tokens.len() + i] == more[i]);
    }
}

} // verus!
