use std::collections::HashMap;
use vstd::prelude::*;

verus! {

broadcast use vstd::std_specs::hash::group_hash_axioms;

/// A record that carries a numeric identifier.
pub trait Keyed {
    /// The identifier of the record.
    spec fn key(&self) -> i32;

    /// Returns the identifier of the record.
    fn record_id(&self) -> (r: i32)
        ensures
            r == self.key(),
    ;
}

/// The index built from `records` taken in order: each record is stored under
/// its identifier, and a later record replaces an earlier one with the same
/// identifier.
pub open spec fn index_of<R: Keyed>(records: Seq<R>) -> Map<i32, R>
    decreases records.len(),
{
    if records.len() == 0 {
        Map::empty()
    } else {
        index_of(records.drop_last()).insert(records.last().key(), records.last())
    }
}

/// The index of a sequence of records holds the identifier of a record, and
/// maps it to that record, when no later record carries the same identifier.
pub proof fn lemma_index_of_last_wins<R: Keyed>(records: Seq<R>, i: int)
    requires
        0 <= i < records.len(),
        forall|j: int| i < j < records.len() ==> #[trigger] records[j].key() != records[i].key(),
    ensures
        index_of(records).contains_key(records[i].key()),
        index_of(records)[records[i].key()] == records[i],
    decreases records.len(),
{
    if i < records.len() - 1 {
        let prefix = records.drop_last();
        assert forall|j: int| i < j < prefix.len() implies #[trigger] prefix[j].key()
            != prefix[i].key() by {
            assert(prefix[j] == records[j]);
        }
        lemma_index_of_last_wins(prefix, i);
        assert(records.last() == records[records.len() - 1]);
    }
}

/// An identifier that no record carries is not in the index.
pub proof fn lemma_index_of_absent<R: Keyed>(records: Seq<R>, id: i32)
    requires
        forall|j: int| 0 <= j < records.len() ==> #[trigger] records[j].key() != id,
    ensures
        !index_of(records).contains_key(id),
    decreases records.len(),
{
    if records.len() > 0 {
        let prefix = records.drop_last();
        assert forall|j: int| 0 <= j < prefix.len() implies #[trigger] prefix[j].key() != id by {
            assert(prefix[j] == records[j]);
        }
        lemma_index_of_absent(prefix, id);
        assert(records.last() == records[records.len() - 1]);
    }
}

/// Builds the identifier index of `records`, later records winning.
pub fn build_index<R: Keyed>(records: Vec<R>) -> (m: HashMap<i32, R>)
    ensures
        m@ == index_of(records@),
{
    let ghost all = records@;
    let mut m: HashMap<i32, R> = HashMap::new();
    for rec in it: records
        invariant
            it.seq() == all,
            m@ == index_of(all.subrange(0, it.index() as int)),
    {
        let ghost done = all.subrange(0, it.index() as int);
        proof {
            assert(all.subrange(0, it.index() + 1).drop_last() =~= done);
        }
        let id = rec.record_id();
        m.insert(id, rec);
    }
    proof {
        assert(all.subrange(0, all.len() as int) =~= all);
    }
    m
}

/// Why a load failed.
#[derive(Debug)]
pub enum LoadError {
    /// The HTTP exchange failed (no `status`) or answered with a non-success status.
    Request { status: Option<u16>, url: String },
    /// The response body did not decode into the expected records.
    Decode { message: String },
}

/// Whether an HTTP exchange that ended with `status` succeeded: it must have
/// produced a status, and that status must be in the 2xx range.
pub open spec fn status_ok(status: Option<u16>) -> bool {
    status matches Some(s) && 200 <= s <= 299
}

/// Returns whether an HTTP exchange that ended with `status` succeeded.
pub fn is_success(status: Option<u16>) -> (r: bool)
    ensures
        r == status_ok(status),
{
    match status {
        Some(s) => 200 <= s && s <= 299,
        None => false,
    }
}

/// The outcome `r` of loading from `url`, given the exchange's `status` and
/// the decoded `body`: a request error unless the status succeeded, else a
/// decode error when the body did not decode, else the index of the records.
pub open spec fn load_post<R: Keyed>(
    url: Seq<char>,
    status: Option<u16>,
    body: Result<Vec<R>, String>,
    r: Result<Map<i32, R>, LoadError>,
) -> bool {
    if !status_ok(status) {
        r matches Err(LoadError::Request { status: s, url: u }) && s == status && u@ == url
    } else {
        match body {
            Ok(records) => r == Ok::<Map<i32, R>, LoadError>(index_of(records@)),
            Err(m) => r matches Err(LoadError::Decode { message }) && message@ == m@,
        }
    }
}

/// A load outcome with the index seen through its view.
pub open spec fn result_view<T: View>(r: Result<T, LoadError>) -> Result<T::V, LoadError> {
    match r {
        Ok(t) => Ok(t@),
        Err(e) => Err(e),
    }
}

/// Decides what a fetch from `url` yields before indexing: the decoded
/// records when the status succeeded and the body decoded, else the error.
pub fn check_response<R>(url: &str, status: Option<u16>, body: Result<Vec<R>, String>) -> (r:
    Result<Vec<R>, LoadError>)
    ensures
        !status_ok(status) ==> (r matches Err(LoadError::Request { status: s, url: u }) && s
            == status && u@ == url@),
        status_ok(status) ==> match body {
            Ok(records) => r matches Ok(v) && v == records,
            Err(m) => r matches Err(LoadError::Decode { message }) && message@ == m@,
        },
{
    if !is_success(status) {
        return Err(LoadError::Request { status, url: url.to_owned() });
    }
    match body {
        Ok(records) => Ok(records),
        Err(message) => Err(LoadError::Decode { message }),
    }
}

} // verus!
