//! Model of the authoritative DNS provider's zone, as the processor
//! relies on it: creation is idempotent on `(name, value)` and deletion
//! of an unknown record id is a no-op, so retries after partial failure
//! converge.

use vstd::prelude::*;

use crate::bytestr::bytes_eq;

verus! {

/// One TXT record on the delegation zone.
#[derive(Debug)]
pub struct DnsRecord {
    pub id: u64,
    pub name: Vec<u8>,
    pub value: Vec<u8>,
}

/// Record `i` of `rs` carries exactly this name and value.
pub open spec fn match_at(rs: Seq<DnsRecord>, name: Seq<u8>, value: Seq<u8>, i: int) -> bool {
    rs[i].name@ == name && rs[i].value@ == value
}

/// Some record of `rs` carries this name and value.
pub open spec fn has_match(rs: Seq<DnsRecord>, name: Seq<u8>, value: Seq<u8>) -> bool {
    exists|i: int| 0 <= i < rs.len() && match_at(rs, name, value, i)
}

/// Records `i` and `j` share neither their id nor their full
/// `(name, value)` pair.
pub open spec fn distinct_entry(rs: Seq<DnsRecord>, i: int, j: int) -> bool {
    rs[i].id != rs[j].id && !(rs[i].name@ == rs[j].name@ && rs[i].value@ == rs[j].value@)
}

/// The delegation zone: live records and the next fresh record id.
pub struct Zone {
    records: Vec<DnsRecord>,
    next_id: u64,
}

/// What `create` guarantees: an existing `(name, value)` record is
/// returned as is and the zone is untouched; otherwise exactly one new
/// record with a fresh id is appended.
pub open spec fn create_post(o: Zone, n: Zone, id: u64, name: Seq<u8>, value: Seq<u8>) -> bool {
    &&& n.wf()
    &&& if has_match(o.records(), name, value) {
        &&& n == o
        &&& exists|i: int|
            0 <= i < o.records().len() && match_at(o.records(), name, value, i) && o.records()[i].id
                == id
    } else {
        &&& n.records().len() == o.records().len() + 1
        &&& n.records().take(o.records().len() as int) == o.records()
        &&& n.records().last().id == o.next_id()
        &&& n.records().last().name@ == name
        &&& n.records().last().value@ == value
        &&& id == o.next_id()
        &&& n.next_id() == o.next_id() + 1
    }
}

impl Zone {
    pub closed spec fn records(&self) -> Seq<DnsRecord> {
        self.records@
    }

    pub closed spec fn next_id(&self) -> u64 {
        self.next_id
    }

    /// Record ids and `(name, value)` pairs are unique, and every id is
    /// below the next fresh one.
    pub closed spec fn wf(&self) -> bool {
        &&& forall|i: int, j: int|
            0 <= i < j < self.records@.len() ==> #[trigger] distinct_entry(self.records@, i, j)
        &&& forall|i: int|
            0 <= i < self.records@.len() ==> (#[trigger] self.records@[i]).id < self.next_id
    }

    pub fn new() -> (z: Zone)
        ensures
            z.wf(),
            z.records() =~= Seq::<DnsRecord>::empty(),
    {
        Zone { records: Vec::new(), next_id: 0 }
    }

    /// Whether a fresh record id is still available.
    pub fn fresh_ids_left(&self) -> (r: bool)
        ensures
            r == (self.next_id() < u64::MAX),
    {
        self.next_id < u64::MAX
    }

    /// How many records are live on the zone.
    pub fn record_count(&self) -> (r: usize)
        ensures
            r == self.records().len(),
    {
        self.records.len()
    }

    /// Creates the `(name, value)` TXT record, or returns the id of the
    /// record already carrying that pair.
    pub fn create(&mut self, name: &Vec<u8>, value: &Vec<u8>) -> (id: u64)
        requires
            old(self).wf(),
            old(self).next_id() < u64::MAX,
        ensures
            create_post(*old(self), *final(self), id, name@, value@),
    {
        let mut i: usize = 0;
        while i < self.records.len()
            invariant
                i <= self.records@.len(),
                *self == *old(self),
                old(self).wf(),
                old(self).next_id() < u64::MAX,
                forall|j: int| 0 <= j < i ==> !match_at(self.records@, name@, value@, j),
            decreases self.records@.len() - i,
        {
            if bytes_eq(&self.records[i].name, name) && bytes_eq(&self.records[i].value, value) {
                assert(match_at(self.records@, name@, value@, i as int));
                return self.records[i].id;
            }
            i += 1;
        }
        assert(!has_match(self.records@, name@, value@));
        let id = self.next_id;
        self.records.push(DnsRecord { id, name: name.clone(), value: value.clone() });
        self.next_id = id + 1;
        proof {
            let o = old(self).records();
            let n = self.records@;
            assert(n.take(o.len() as int) =~= o);
            assert(n.last().name@ == name@ && n.last().value@ == value@);
            assert forall|p: int, q: int| 0 <= p < q < n.len() implies #[trigger] distinct_entry(
                n,
                p,
                q,
            ) by {
                if q < o.len() {
                    assert(distinct_entry(o, p, q));
                    assert(n[p] == o[p] && n[q] == o[q]);
                } else {
                    assert(n[p] == o[p]);
                    assert(o[p].id < old(self).next_id());
                    assert(!match_at(o, name@, value@, p));
                }
            }
            assert forall|p: int| 0 <= p < n.len() implies (#[trigger] n[p]).id
                < self.next_id by {
                if p < o.len() {
                    assert(n[p] == o[p]);
                    assert(o[p].id < old(self).next_id());
                }
            }
        }
        id
    }

    /// Deletes the record with this id; an unknown id is a no-op.
    pub fn delete(&mut self, id: u64)
        requires
            old(self).wf(),
        ensures
            final(self).wf(),
            final(self).next_id() == old(self).next_id(),
            forall|k: int|
                0 <= k < final(self).records().len() ==> (#[trigger] final(self).records()[k]).id
                    != id,
            if exists|i: int|
                0 <= i < old(self).records().len() && (#[trigger] old(self).records()[i]).id
                    == id {
                exists|i: int|
                    0 <= i < old(self).records().len() && (#[trigger] old(self).records()[i]).id
                        == id && final(self).records() == old(self).records().remove(i)
            } else {
                *final(self) == *old(self)
            },
    {
        let mut i: usize = 0;
        while i < self.records.len()
            invariant
                i <= self.records@.len(),
                old(self).wf(),
                *self == *old(self),
                forall|j: int| 0 <= j < i ==> (#[trigger] self.records@[j]).id != id,
            decreases self.records@.len() - i,
        {
            if self.records[i].id == id {
                let ghost o = self.records@;
                let ghost k = i as int;
                self.records.remove(i);
                proof {
                    let n = self.records@;
                    assert(n == o.remove(k));
                    assert forall|p: int, q: int| 0 <= p < q < n.len() implies
                        #[trigger] distinct_entry(n, p, q) by {
                        let p0: int = if p < k {
                            p
                        } else {
                            p + 1
                        };
                        let q0: int = if q < k {
                            q
                        } else {
                            q + 1
                        };
                        assert(n[p] == o[p0] && n[q] == o[q0]);
                        assert(distinct_entry(o, p0, q0));
                    }
                    assert forall|p: int| 0 <= p < n.len() implies (#[trigger] n[p]).id
                        != id by {
                        let p0: int = if p < k {
                            p
                        } else {
                            p + 1
                        };
                        assert(n[p] == o[p0]);
                        if p0 != k {
                            if p0 < k {
                                assert(distinct_entry(o, p0, k));
                            } else {
                                assert(distinct_entry(o, k, p0));
                            }
                        }
                    }
                    assert forall|p: int| 0 <= p < n.len() implies (#[trigger] n[p]).id
                        < self.next_id by {
                        let p0: int = if p < k {
                            p
                        } else {
                            p + 1
                        };
                        assert(n[p] == o[p0]);
                    }
                }
                return ;
            }
            i += 1;
        }
    }
}

/// Law: DNS record creation is idempotent. Creating the same
/// `(name, value)` pair twice returns the same record id, and the
/// second call leaves the zone exactly as it stood after the first, so
/// exactly one live record carries the pair.
pub proof fn lemma_create_idempotent(
    z0: Zone,
    z1: Zone,
    id1: u64,
    z2: Zone,
    id2: u64,
    name: Seq<u8>,
    value: Seq<u8>,
)
    requires
        z0.wf(),
        create_post(z0, z1, id1, name, value),
        create_post(z1, z2, id2, name, value),
    ensures
        id2 == id1,
        z2 == z1,
{
    if has_match(z0.records(), name, value) {
        let i = choose|i: int|
            0 <= i < z0.records().len() && match_at(z0.records(), name, value, i)
                && z0.records()[i].id == id1;
        assert(z1 == z0);
        let j = choose|j: int|
            0 <= j < z1.records().len() && match_at(z1.records(), name, value, j)
                && z1.records()[j].id == id2;
        if i < j {
            assert(distinct_entry(z1.records(), i, j));
        } else if j < i {
            assert(distinct_entry(z1.records(), j, i));
        }
    } else {
        let l = z0.records().len() as int;
        assert(z1.records()[l] == z1.records().last());
        assert(match_at(z1.records(), name, value, l));
        assert(has_match(z1.records(), name, value));
        let j = choose|j: int|
            0 <= j < z1.records().len() && match_at(z1.records(), name, value, j)
                && z1.records()[j].id == id2;
        if j < l {
            assert(distinct_entry(z1.records(), j, l));
        }
    }
}

} // verus!
