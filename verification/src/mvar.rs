//! The metrics variations table.
//!
//! Maps a metric tag (ascender, x-height, and so on) to an `(outer, inner)`
//! delta address inside an item variation store. Records are sorted by tag
//! and found by binary search.

use crate::parser::{
    be_u16_at, be_u32_at, FromData, LazyArray16, Stream,
};
use crate::var_store::ItemVariationStore;
use crate::Tag;
use vstd::prelude::*;

verus! {

/// One metric record: a tag and its delta address.
#[derive(Clone, Copy, PartialEq, Eq, Structural, Debug)]
pub struct ValueRecord {
    pub value_tag: u32,
    pub delta_set_outer_index: u16,
    pub delta_set_inner_index: u16,
}

impl FromData for ValueRecord {
    open spec fn spec_size() -> int {
        8
    }

    open spec fn spec_parse(data: Seq<u8>) -> Self {
        ValueRecord {
            value_tag: be_u32_at(data, 0) as u32,
            delta_set_outer_index: be_u16_at(data, 4) as u16,
            delta_set_inner_index: be_u16_at(data, 6) as u16,
        }
    }

    fn size() -> usize {
        8
    }

    fn parse(data: &[u8]) -> Self {
        ValueRecord {
            value_tag: crate::parser::read_u32_at(data, 0),
            delta_set_outer_index: crate::parser::read_u16_at(data, 4),
            delta_set_inner_index: crate::parser::read_u16_at(data, 6),
        }
    }
}

/// The records are sorted by tag, as the format requires of valid tables.
pub open spec fn spec_records_sorted(records: LazyArray16<ValueRecord>) -> bool {
    forall|i: int, j: int|
        0 <= i <= j < records.count ==> records.spec_at(i).value_tag <= records.spec_at(
            j,
        ).value_tag
}

/// The records are strictly sorted by tag: each tag appears at most once.
pub open spec fn spec_records_strictly_sorted(records: LazyArray16<ValueRecord>) -> bool {
    forall|i: int, j: int|
        0 <= i < j < records.count ==> records.spec_at(i).value_tag < records.spec_at(
            j,
        ).value_tag
}

/// A parsed metrics variations table.
#[derive(Clone, Copy)]
pub struct Table<'a> {
    pub records: LazyArray16<'a, ValueRecord>,
    pub variation_store: ItemVariationStore<'a>,
}

impl<'a> Table<'a> {
    pub open spec fn wf(&self) -> bool {
        self.records.wf() && self.variation_store.wf()
    }

    /// Parses the table header, the record array and the variation store.
    ///
    /// Rejects an unknown version, a foreign record size, an empty record
    /// array and a missing store. The store is parsed here, eagerly, so a
    /// table whose store is malformed is rejected as an invalid optional
    /// table rather than accepted and failed lazily on each lookup.
    pub fn parse(data: &'a [u8]) -> (r: Option<Self>)
        ensures
            r is Some <==> data@.len() >= 12 && be_u32_at(data@, 0) == 0x00010000 && be_u16_at(
                data@,
                6,
            ) == 8 && be_u16_at(data@, 8) > 0 && be_u16_at(data@, 10) != 0 && 12 + 8 * be_u16_at(
                data@,
                8,
            ) <= data@.len() && be_u16_at(data@, 10) <= data@.len()
                && crate::var_store::spec_store_ok(
                data@.subrange(be_u16_at(data@, 10), data@.len() as int),
            ),
            match r {
                Some(t) => {
                    &&& t.wf()
                    &&& data@.len() >= 12
                    &&& be_u32_at(data@, 0) == 0x00010000
                    &&& be_u16_at(data@, 6) == 8
                    &&& t.records.count as int == be_u16_at(data@, 8)
                    &&& t.records.count > 0
                    &&& t.records.data@ == data@.subrange(12, 12 + 8 * be_u16_at(data@, 8))
                    &&& t.variation_store.data@ == data@.subrange(
                        be_u16_at(data@, 10),
                        data@.len() as int,
                    )
                },
                None => true,
            },
    {
        let mut s = Stream::new(data);
        let version: u32 = match s.read_u32() {
            Some(v) => v,
            None => {
                return None;
            },
        };
        if version != 0x00010000 {
            return None;
        }
        s.advance(2);  // reserved
        let value_record_size: u16 = match s.read_u16() {
            Some(v) => v,
            None => {
                return None;
            },
        };
        if value_record_size != 8 {
            return None;
        }
        let count: u16 = match s.read_u16() {
            Some(v) => v,
            None => {
                return None;
            },
        };
        if count == 0 {
            return None;
        }
        let variation_store_offset: u16 = match s.read_u16() {
            Some(v) => v,
            None => {
                return None;
            },
        };
        if variation_store_offset == 0 {
            return None;
        }
        let records = match s.read_array16::<ValueRecord>(count) {
            Some(a) => a,
            None => {
                return None;
            },
        };
        if variation_store_offset as usize > data.len() {
            return None;
        }
        let store_s = Stream::new_at(data, variation_store_offset as usize);
        let variation_store = match ItemVariationStore::new(store_s) {
            Some(store) => store,
            None => {
                return None;
            },
        };
        Some(Table { records, variation_store })
    }
}

/// The metric delta for `tag` at `coordinates`, in f2.14.
///
/// `None` covers both a tag with no record (conclusive when the records
/// are sorted, see `binary_search_tag`) and a record whose delta address
/// runs out of the store; on a strictly sorted table — each tag at most
/// once, as the format requires — success is exactly a present tag with
/// an in-store delta row.
pub fn metrics_offset(table: &Table, tag: Tag, coordinates: &Vec<i16>) -> (r: Option<i64>)
    requires
        table.wf(),
        coordinates@.len() <= 32,
    ensures
        spec_records_strictly_sorted(table.records) ==> (r is Some <==> exists|k: int|
            {
                &&& 0 <= k < table.records.count
                &&& #[trigger] table.records.spec_at(k).value_tag == tag.0
                &&& table.variation_store.spec_delta_ok(
                    table.records.spec_at(k).delta_set_outer_index as int,
                    table.records.spec_at(k).delta_set_inner_index as int,
                )
            }),
        match r {
            Some(d) => exists|k: int|
                {
                    &&& 0 <= k < table.records.count
                    &&& #[trigger] table.records.spec_at(k).value_tag == tag.0
                    &&& table.variation_store.spec_delta_ok(
                        table.records.spec_at(k).delta_set_outer_index as int,
                        table.records.spec_at(k).delta_set_inner_index as int,
                    )
                    &&& d == table.variation_store.spec_delta(
                        table.records.spec_at(k).delta_set_outer_index as int,
                        table.records.spec_at(k).delta_set_inner_index as int,
                        coordinates@,
                    )
                },
            None => true,
        },
{
    let record = match binary_search_tag(&table.records, tag) {
        Some(rec) => rec,
        None => {
            proof {
                if spec_records_strictly_sorted(table.records) {
                    assert(spec_records_sorted(table.records)) by {
                        assert forall|i: int, j: int|
                            0 <= i <= j < table.records.count implies table.records.spec_at(
                            i,
                        ).value_tag <= table.records.spec_at(j).value_tag by {
                            if i < j {
                                assert(table.records.spec_at(i).value_tag < table.records.spec_at(
                                    j,
                                ).value_tag);
                            }
                        }
                    }
                }
            }
            return None;
        },
    };
    let r = table.variation_store.parse_delta(
        record.delta_set_outer_index,
        record.delta_set_inner_index,
        coordinates,
    );
    proof {
        let k0 = choose|k: int|
            0 <= k < table.records.count && #[trigger] table.records.spec_at(k) == record
                && record.value_tag == tag.0;
        if r is Some {
            assert(0 <= k0 < table.records.count && table.records.spec_at(k0).value_tag == tag.0
                && table.variation_store.spec_delta_ok(
                table.records.spec_at(k0).delta_set_outer_index as int,
                table.records.spec_at(k0).delta_set_inner_index as int,
            ) && r.unwrap() == table.variation_store.spec_delta(
                table.records.spec_at(k0).delta_set_outer_index as int,
                table.records.spec_at(k0).delta_set_inner_index as int,
                coordinates@,
            ));
        } else {
            if spec_records_strictly_sorted(table.records) {
                // The found record is the only one with this tag, so a
                // failed delta row refutes every witness.
                assert forall|k: int|
                    0 <= k < table.records.count && #[trigger] table.records.spec_at(k).value_tag
                        == tag.0 implies !table.variation_store.spec_delta_ok(
                    table.records.spec_at(k).delta_set_outer_index as int,
                    table.records.spec_at(k).delta_set_inner_index as int,
                ) by {
                    if k < k0 {
                        assert(table.records.spec_at(k).value_tag < table.records.spec_at(
                            k0,
                        ).value_tag);
                    } else if k > k0 {
                        assert(table.records.spec_at(k0).value_tag < table.records.spec_at(
                            k,
                        ).value_tag);
                    }
                }
            }
        }
    }
    r
}

/// Binary search over records sorted by tag.
///
/// A returned record always carries `tag`; a miss is conclusive only when
/// the records really are sorted.
fn binary_search_tag(records: &LazyArray16<ValueRecord>, tag: Tag) -> (r: Option<ValueRecord>)
    requires
        records.wf(),
    ensures
        match r {
            Some(rec) => exists|k: int|
                0 <= k < records.count && #[trigger] records.spec_at(k) == rec && rec.value_tag
                    == tag.0,
            None => spec_records_sorted(*records) ==> (forall|k: int|
                0 <= k < records.count ==> #[trigger] records.spec_at(k).value_tag != tag.0),
        },
{
    let mut lo: u16 = 0;
    let mut hi: u16 = records.len();
    while lo < hi
        invariant
            records.wf(),
            0 <= lo <= hi <= records.count,
            spec_records_sorted(*records) ==> (forall|k: int|
                0 <= k < lo ==> #[trigger] records.spec_at(k).value_tag < tag.0),
            spec_records_sorted(*records) ==> (forall|k: int|
                hi <= k < records.count ==> #[trigger] records.spec_at(k).value_tag > tag.0),
        decreases hi - lo,
    {
        let mid: u16 = lo + (hi - lo) / 2;
        let rec = match records.get(mid) {
            Some(v) => v,
            None => {
                return None;
            },
        };
        if rec.value_tag < tag.0 {
            lo = mid + 1;
        } else if rec.value_tag > tag.0 {
            hi = mid;
        } else {
            return Some(rec);
        }
    }
    None
}

} // verus!
