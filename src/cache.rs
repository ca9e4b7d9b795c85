use vstd::prelude::*;
use std::collections::HashMap;
use crate::record::{QueryRecord, RecordTime};
use crate::value::SqlType;

verus! {

broadcast use vstd::std_specs::hash::group_hash_axioms;

/// What a record holds: its time and its values.
pub open spec fn record_view(r: QueryRecord) -> (RecordTime, Seq<SqlType>) {
    (r.ready, r.columns@)
}

pub open spec fn records_view(rs: Seq<QueryRecord>) -> Seq<(RecordTime, Seq<SqlType>)> {
    rs.map_values(|r: QueryRecord| record_view(r))
}

/// The rows of a relation's partitions, partition after partition, each in
/// its own order.
pub open spec fn flatten_rows(parts: Seq<Vec<QueryRecord>>) -> Seq<(RecordTime, Seq<SqlType>)>
    decreases parts.len(),
{
    if parts.len() == 0 {
        Seq::empty()
    } else {
        flatten_rows(parts.drop_last()) + records_view(parts.last()@)
    }
}

/// The rows that a scan of relation `id` yields: none where the cache holds
/// no partition for it.
pub open spec fn scan_rows(parts: Map<i64, Seq<Vec<QueryRecord>>>, id: i64) -> Seq<(RecordTime, Seq<SqlType>)> {
    if parts.contains_key(id) {
        flatten_rows(parts[id])
    } else {
        Seq::empty()
    }
}

/// The partitions of relation `id`, empty where there are none.
pub open spec fn partitions_of(parts: Map<i64, Seq<Vec<QueryRecord>>>, id: i64) -> Seq<Vec<QueryRecord>> {
    if parts.contains_key(id) {
        parts[id]
    } else {
        Seq::empty()
    }
}

/// The shared row cache: for each relation id, the partitions ingested for
/// it, in the order they arrived.
#[derive(Debug)]
pub struct TableCache {
    partitions: HashMap<i64, Vec<Vec<QueryRecord>>>,
}

impl TableCache {
    pub closed spec fn spec_parts(&self) -> Map<i64, Seq<Vec<QueryRecord>>> {
        self.partitions@.map_values(|v: Vec<Vec<QueryRecord>>| v@)
    }

    pub fn new() -> (r: TableCache)
        ensures
            r.spec_parts() == Map::<i64, Seq<Vec<QueryRecord>>>::empty(),
    {
        let r = TableCache { partitions: HashMap::new() };
        assert(r.spec_parts() =~= Map::<i64, Seq<Vec<QueryRecord>>>::empty());
        r
    }

    /// Appends a partition of rows to relation `table_id`.
    pub fn append_partition(&mut self, table_id: i64, records: Vec<QueryRecord>)
        ensures
            final(self).spec_parts() == old(self).spec_parts().insert(
                table_id,
                partitions_of(old(self).spec_parts(), table_id).push(records),
            ),
    {
        let ghost before = self.partitions@;
        let parts = match self.partitions.remove(&table_id) {
            Some(mut parts) => {
                parts.push(records);
                parts
            },
            None => {
                let mut parts: Vec<Vec<QueryRecord>> = Vec::new();
                parts.push(records);
                parts
            },
        };
        self.partitions.insert(table_id, parts);
        assert(self.spec_parts() =~= before.map_values(|v: Vec<Vec<QueryRecord>>| v@).insert(
            table_id,
            partitions_of(before.map_values(|v: Vec<Vec<QueryRecord>>| v@), table_id).push(
                records,
            ),
        ));
    }

    /// The number of partitions held for relation `table_id`.
    pub fn partition_count(&self, table_id: i64) -> (r: usize)
        ensures
            r == partitions_of(self.spec_parts(), table_id).len(),
    {
        match self.partitions.get(&table_id) {
            Some(parts) => parts.len(),
            None => 0,
        }
    }

    /// Every row of relation `table_id`: partition after partition, each in
    /// its own order. `None` where the cache holds nothing for it.
    pub fn scan(&self, table_id: i64) -> (r: Option<Vec<QueryRecord>>)
        ensures
            match r {
                Some(rows) => self.spec_parts().contains_key(table_id) && records_view(rows@)
                    == scan_rows(self.spec_parts(), table_id),
                None => !self.spec_parts().contains_key(table_id),
            },
    {
        match self.partitions.get(&table_id) {
            None => None,
            Some(parts) => {
                let mut rows: Vec<QueryRecord> = Vec::new();
                let n = parts.len();
                let mut p: usize = 0;
                while p < n
                    invariant
                        n == parts@.len(),
                        p <= n,
                        records_view(rows@) == flatten_rows(parts@.subrange(0, p as int)),
                    decreases n - p,
                {
                    let part = &parts[p];
                    let m = part.len();
                    let ghost start = rows@;
                    let mut k: usize = 0;
                    while k < m
                        invariant
                            m == part@.len(),
                            k <= m,
                            rows@.len() == start.len() + k,
                            forall|j: int| 0 <= j < start.len() ==> rows@[j] == start[j],
                            forall|j: int|
                                0 <= j < k ==> record_view(#[trigger] rows@[start.len() + j])
                                    == record_view(part@[j]),
                        decreases m - k,
                    {
                        rows.push(part[k].clone());
                        k = k + 1;
                    }
                    assert(records_view(rows@) =~= records_view(start) + records_view(part@)) by {
                        assert forall|i: int| 0 <= i < rows@.len() implies #[trigger] records_view(
                            rows@,
                        )[i] == (records_view(start) + records_view(part@))[i] by {
                            if i >= start.len() {
                                assert(rows@[start.len() + (i - start.len())] == rows@[i]);
                            }
                        }
                    }
                    let ghost next = parts@.subrange(0, p + 1);
                    assert(next.drop_last() =~= parts@.subrange(0, p as int));
                    assert(next.last() == parts@[p as int]);
                    p = p + 1;
                }
                assert(parts@.subrange(0, n as int) =~= parts@);
                assert(self.spec_parts()[table_id] == parts@);
                Some(rows)
            },
        }
    }
}

/// Ingesting a partition for one relation leaves the scan of every other
/// relation as it was, and appends that partition's rows, in order, to the
/// scan of its own relation.
pub proof fn lemma_ingest_isolated(
    parts: Map<i64, Seq<Vec<QueryRecord>>>,
    target: i64,
    records: Vec<QueryRecord>,
    other: i64,
)
    ensures
        ({
            let after = parts.insert(target, partitions_of(parts, target).push(records));
            &&& other != target ==> scan_rows(after, other) == scan_rows(parts, other)
            &&& scan_rows(after, target) == scan_rows(parts, target) + records_view(records@)
        }),
{
    let after = parts.insert(target, partitions_of(parts, target).push(records));
    let grown = partitions_of(parts, target).push(records);
    assert(grown.drop_last() =~= partitions_of(parts, target));
    if !parts.contains_key(target) {
        assert(flatten_rows(Seq::<Vec<QueryRecord>>::empty()) == Seq::<(RecordTime, Seq<SqlType>)>::empty());
        assert(scan_rows(after, target) =~= scan_rows(parts, target) + records_view(records@));
    }
}

/// The scan of a relation depends on that relation's partitions alone:
/// whatever any other relation holds, or gains while a query runs, the scan
/// is the same.
pub proof fn lemma_scan_depends_on_own_partitions(
    a: Map<i64, Seq<Vec<QueryRecord>>>,
    b: Map<i64, Seq<Vec<QueryRecord>>>,
    id: i64,
)
    requires
        a.contains_key(id) == b.contains_key(id),
        partitions_of(a, id) == partitions_of(b, id),
    ensures
        scan_rows(a, id) == scan_rows(b, id),
{
}

} // verus!
