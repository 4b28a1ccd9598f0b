//! Evidence objects: handle wrappers carrying the ids the host reported,
//! the two-pass resolution of parent/child references, and the decoding of
//! the host's packed report-table association records.

use vstd::prelude::*;
use crate::error::XwfError;
use crate::marshal::{utf16_decoded, spec_nul_prefix, wchar_str_to_string};
use crate::volume::Volume;

verus! {

/// One evidence object of the case: its non-null host handle and the ids
/// the host reported for it.  The child reference is not host data; it is
/// established by the two-pass walk over the whole evidence list.
#[derive(Debug, Clone, Copy, PartialEq, Eq, Structural)]
pub struct Evidence {
    evidence_handle: u64,
    id: u32,
    short_id: u16,
    parent_id: Option<u32>,
    child_evidence_id: Option<u32>,
}

impl Evidence {
    /// The raw handle behind this wrapper; never null.
    pub closed spec fn spec_handle(&self) -> u64 {
        self.evidence_handle
    }

    pub closed spec fn spec_id(&self) -> u32 {
        self.id
    }

    pub closed spec fn spec_short_id(&self) -> u16 {
        self.short_id
    }

    pub closed spec fn spec_parent_id(&self) -> Option<u32> {
        self.parent_id
    }

    pub closed spec fn spec_child_id(&self) -> Option<u32> {
        self.child_evidence_id
    }

    /// Wraps a raw evidence handle; the null handle yields no evidence.
    /// The ids start out blank until `set_info` records what the host
    /// reported.
    pub fn new(evidence_handle: u64) -> (r: Option<Evidence>)
        ensures
            evidence_handle == 0 <==> r is None,
            r matches Some(e) ==> {
                &&& e.spec_handle() == evidence_handle
                &&& e.spec_id() == 0
                &&& e.spec_short_id() == 0
                &&& e.spec_parent_id() is None
                &&& e.spec_child_id() is None
            },
    {
        if evidence_handle == 0 {
            return None;
        }
        Some(
            Evidence {
                evidence_handle,
                id: 0,
                short_id: 0,
                parent_id: None,
                child_evidence_id: None,
            },
        )
    }

    /// Records the ids the host reported for this evidence object.
    pub fn set_info(&mut self, id: u32, short_id: u16, parent_id: Option<u32>)
        ensures
            final(self).spec_handle() == old(self).spec_handle(),
            final(self).spec_id() == id,
            final(self).spec_short_id() == short_id,
            final(self).spec_parent_id() == parent_id,
            final(self).spec_child_id() == old(self).spec_child_id(),
    {
        self.id = id;
        self.short_id = short_id;
        self.parent_id = parent_id;
    }

    /// The raw handle this wrapper was built from.
    pub fn handle(&self) -> (r: u64)
        ensures
            r == self.spec_handle(),
    {
        self.evidence_handle
    }

    /// The evidence object's id, as recorded from the host.
    pub fn get_id(&self) -> (r: u32)
        ensures
            r == self.spec_id(),
    {
        self.id
    }

    /// The evidence object's short id, as recorded from the host.
    pub fn get_short_id(&self) -> (r: u16)
        ensures
            r == self.spec_short_id(),
    {
        self.short_id
    }

    /// Interprets the host's reply to the parent-id query: zero means
    /// the evidence object has no parent.
    pub fn get_parent_id(&self, host_ret: i64) -> (r: Option<u32>)
        requires
            host_ret <= u32::MAX,
        ensures
            host_ret > 0 <==> r is Some,
            r matches Some(p) ==> p == host_ret,
    {
        if host_ret > 0 {
            Some(host_ret as u32)
        } else {
            None
        }
    }

    /// The parent id recorded for this evidence object.
    pub fn get_parent(&self) -> (r: Option<u32>)
        ensures
            r == self.spec_parent_id(),
    {
        self.parent_id
    }

    /// Interprets the host's reply to an open request: the returned
    /// volume handle must be non-null.
    pub fn open(&self, volume_handle: u64) -> (r: Result<Volume, XwfError>)
        ensures
            volume_handle == 0 <==> r is Err,
            r is Err ==> r == Err::<Volume, XwfError>(XwfError::InputHandleIsNull),
            r matches Ok(v) ==> v.spec_handle() == volume_handle,
    {
        Volume::new(volume_handle)
    }

    /// Interprets the host's flag word for this evidence object; every
    /// bit the host set is kept.
    pub fn get_flags(&self, host_ret: i64) -> (r: crate::flags::EvObjPropFlags)
        requires
            0 <= host_ret <= u32::MAX,
        ensures
            r.bits == host_ret,
    {
        crate::flags::EvObjPropFlags::from_bits_truncate(host_ret as u32)
    }

    /// Decodes the abbreviated title from the host's buffer; the host's
    /// failure convention for this call is a reply of exactly -1.
    pub fn get_name(&self, host_ret: i64, buf: &[u16]) -> (r: Result<String, XwfError>)
        ensures
            r is Ok <==> host_ret != -1,
            r matches Ok(s) ==> s@ == utf16_decoded(spec_nul_prefix(buf@)),
            r is Err ==> r == Err::<String, XwfError>(
                XwfError::XwfFunctionCallFailed("get_ev_obj_prop"),
            ),
    {
        if host_ret == -1 {
            Err(XwfError::XwfFunctionCallFailed("get_ev_obj_prop"))
        } else {
            Ok(wchar_str_to_string(buf))
        }
    }

    /// Interprets a description or comment reply: the host returns a
    /// text pointer, or 0 for none, or -1 for failure; the export layer
    /// passes the decoded text in.
    pub fn get_description(&self, host_ret: i64, text: String) -> (r: Option<String>)
        ensures
            host_ret == -1 || host_ret == 0 <==> r is None,
            r matches Some(s) ==> s == text,
    {
        if host_ret == -1 || host_ret == 0 {
            None
        } else {
            Some(text)
        }
    }

    /// Interprets an examiner-comment reply, under the same convention
    /// as the description.
    pub fn get_comments(&self, host_ret: i64, text: String) -> (r: Option<String>)
        ensures
            host_ret == -1 || host_ret == 0 <==> r is None,
            r matches Some(s) ==> s == text,
    {
        if host_ret == -1 || host_ret == 0 {
            None
        } else {
            Some(text)
        }
    }

    /// Decodes this evidence object's association reply: a null list
    /// pointer means no associations are available.
    pub fn get_report_table_assocs(
        &self,
        list_present: bool,
        bytes: &[u8],
        num_pairs: usize,
    ) -> (r: Option<ReportTableMap>)
        requires
            bytes@.len() >= 6 * num_pairs,
        ensures
            list_present <==> r is Some,
            r matches Some(m) ==> m@ == spec_assoc_pairs(bytes@, num_pairs as int),
    {
        ReportTableListItem::get_report_table_assocs(list_present, bytes, num_pairs)
    }

    /// The id of the child evidence resolved for this object, if any.
    pub fn child(&self) -> (r: Option<u32>)
        ensures
            r == self.spec_child_id(),
    {
        self.child_evidence_id
    }

    pub fn has_child(&self) -> (r: bool)
        ensures
            r == (self.spec_child_id() is Some),
    {
        match self.child_evidence_id {
            Some(_) => true,
            None => false,
        }
    }

    /// Records a child reference on this evidence object.
    pub fn set_child(&mut self, evidence_id: u32)
        ensures
            final(self).spec_child_id() == Some(evidence_id),
            final(self).spec_handle() == old(self).spec_handle(),
            final(self).spec_id() == old(self).spec_id(),
            final(self).spec_short_id() == old(self).spec_short_id(),
            final(self).spec_parent_id() == old(self).spec_parent_id(),
    {
        self.child_evidence_id = Some(evidence_id);
    }
}

/// The child that the declarations of the listed evidence objects give
/// the object with the given id: the last object in the list that names
/// `id` as its parent, or nothing when none does.
pub open spec fn spec_child_of(list: Seq<Evidence>, id: u32) -> Option<u32>
    decreases list.len(),
{
    if list.len() == 0 {
        None
    } else if list.last().spec_parent_id() == Some(id) {
        Some(list.last().spec_id())
    } else {
        spec_child_of(list.drop_last(), id)
    }
}

/// A declared child reference when there is one, else what was there.
pub open spec fn spec_merge_child(declared: Option<u32>, fallback: Option<u32>) -> Option<u32> {
    if declared is Some {
        declared
    } else {
        fallback
    }
}

/// Everything about an evidence object except its child reference.
pub open spec fn spec_same_but_child(a: Evidence, b: Evidence) -> bool {
    &&& a.spec_handle() == b.spec_handle()
    &&& a.spec_id() == b.spec_id()
    &&& a.spec_short_id() == b.spec_short_id()
    &&& a.spec_parent_id() == b.spec_parent_id()
}

impl Evidence {
    /// The two-pass resolution over a collected evidence list: every
    /// object that another object declares as its parent receives that
    /// declaring object's id as its child reference; all other fields
    /// stay as collected.  An empty case yields no list.
    pub fn get_evidences(list: Vec<Evidence>) -> (r: Option<Vec<Evidence>>)
        ensures
            list@.len() == 0 <==> r is None,
            r matches Some(out) ==> {
                &&& out@.len() == list@.len()
                &&& forall|k: int|
                    0 <= k < out@.len() ==> spec_same_but_child(#[trigger] out@[k], list@[k])
                &&& forall|k: int|
                    0 <= k < out@.len() ==> (#[trigger] out@[k]).spec_child_id()
                        == spec_merge_child(
                        spec_child_of(list@, list@[k].spec_id()),
                        list@[k].spec_child_id(),
                    )
            },
    {
        if list.len() == 0 {
            return None;
        }
        let n = list.len();
        let mut out = list;
        let ghost orig = out@;
        let mut a: usize = 0;
        proof {
            assert forall|k: int| 0 <= k < orig.len() implies (#[trigger] orig[k]).spec_child_id()
                == spec_merge_child(
                spec_child_of(orig.take(0), orig[k].spec_id()),
                orig[k].spec_child_id(),
            ) by {
                assert(orig.take(0) =~= Seq::<Evidence>::empty());
            }
        }
        while a < n
            invariant
                out@.len() == n,
                orig.len() == n,
                a <= n,
                forall|k: int|
                    0 <= k < n ==> spec_same_but_child(#[trigger] out@[k], orig[k]),
                forall|k: int|
                    0 <= k < n ==> (#[trigger] out@[k]).spec_child_id() == spec_merge_child(
                        spec_child_of(orig.take(a as int), orig[k].spec_id()),
                        orig[k].spec_child_id(),
                    ),
            decreases n - a,
        {
            let declared = out[a].get_parent();
            let declared_by = out[a].get_id();
            proof {
                assert(spec_same_but_child(out@[a as int], orig[a as int]));
                assert(orig.take(a + 1).drop_last() =~= orig.take(a as int));
                assert(orig.take(a + 1).last() == orig[a as int]);
            }
            match declared {
                Some(p) => {
                    let ghost mid = out@;
                    let mut b: usize = 0;
                    while b < n
                        invariant
                            out@.len() == n,
                            orig.len() == n,
                            mid.len() == n,
                            b <= n,
                            a < n,
                            spec_same_but_child(mid[a as int], orig[a as int]),
                            orig[a as int].spec_parent_id() == Some(p),
                            orig[a as int].spec_id() == declared_by,
                            forall|k: int|
                                0 <= k < n ==> spec_same_but_child(#[trigger] out@[k], orig[k]),
                            forall|k: int|
                                b <= k < n ==> (#[trigger] out@[k]).spec_child_id()
                                    == mid[k].spec_child_id(),
                            forall|k: int|
                                0 <= k < b ==> (#[trigger] out@[k]).spec_child_id() == (
                                if orig[k].spec_id() == p {
                                    Some(declared_by)
                                } else {
                                    mid[k].spec_child_id()
                                }),
                            forall|k: int|
                                0 <= k < n ==> (#[trigger] mid[k]).spec_child_id()
                                    == spec_merge_child(
                                    spec_child_of(orig.take(a as int), orig[k].spec_id()),
                                    orig[k].spec_child_id(),
                                ),
                        decreases n - b,
                    {
                        if out[b].get_id() == p {
                            let mut e = out[b];
                            e.set_child(declared_by);
                            out.set(b, e);
                        }
                        b += 1;
                    }
                    proof {
                        assert forall|k: int| 0 <= k < n implies (#[trigger] out@[k]).spec_child_id()
                            == spec_merge_child(
                            spec_child_of(orig.take(a + 1), orig[k].spec_id()),
                            orig[k].spec_child_id(),
                        ) by {
                            assert(orig.take(a + 1).drop_last() =~= orig.take(a as int));
                            assert(orig.take(a + 1).last() == orig[a as int]);
                        }
                    }
                },
                None => {
                    proof {
                        assert forall|k: int| 0 <= k < n implies (#[trigger] out@[k]).spec_child_id()
                            == spec_merge_child(
                            spec_child_of(orig.take(a + 1), orig[k].spec_id()),
                            orig[k].spec_child_id(),
                        ) by {
                            assert(orig.take(a + 1).drop_last() =~= orig.take(a as int));
                            assert(orig.take(a + 1).last() == orig[a as int]);
                        }
                    }
                },
            }
            a += 1;
        }
        proof {
            assert(orig.take(n as int) =~= orig);
        }
        Some(out)
    }
}

/// One association of a report table with an item, as the host packs it:
/// a 16-bit table id followed by a 32-bit item id, little endian, six
/// bytes per record.
#[derive(Debug, Clone, Copy, PartialEq, Eq, Structural)]
pub struct ReportTableListItem {
    pub report_table_id: u16,
    pub item_id: u32,
}

/// The record at position `k` of the host's packed association buffer.
pub open spec fn spec_assoc_pair(bytes: Seq<u8>, k: int) -> (u16, u32) {
    (
        (bytes[6 * k] + bytes[6 * k + 1] * 0x100) as u16,
        (bytes[6 * k + 2] + bytes[6 * k + 3] * 0x100 + bytes[6 * k + 4] * 0x10000 + bytes[6 * k
            + 5] * 0x1000000) as u32,
    )
}

/// All records of the host's packed association buffer, in order.
pub open spec fn spec_assoc_pairs(bytes: Seq<u8>, n: int) -> Seq<(u16, u32)> {
    Seq::new(n as nat, |k: int| spec_assoc_pair(bytes, k))
}

/// The associations of one evidence object, as an ordered multimap:
/// every decoded record is kept, in order, and duplicate table ids
/// accumulate their items rather than overwrite them.
pub struct ReportTableMap {
    pairs: Vec<(u16, u32)>,
}

impl View for ReportTableMap {
    type V = Seq<(u16, u32)>;

    closed spec fn view(&self) -> Seq<(u16, u32)> {
        self.pairs@
    }
}

impl ReportTableMap {
    /// An empty association map.
    pub fn new() -> (r: ReportTableMap)
        ensures
            r@ == Seq::<(u16, u32)>::empty(),
    {
        let r = ReportTableMap { pairs: Vec::new() };
        proof {
            assert(r@ =~= Seq::<(u16, u32)>::empty());
        }
        r
    }

    /// How many associations the map holds.
    pub fn len(&self) -> (r: usize)
        ensures
            r == self@.len(),
    {
        self.pairs.len()
    }

    /// The association at the given position.
    pub fn get(&self, i: usize) -> (r: (u16, u32))
        requires
            i < self@.len(),
        ensures
            r == self@[i as int],
    {
        self.pairs[i]
    }

    /// The items associated with one report table, in the order the
    /// host listed them.
    pub fn values_for(&self, id: u16) -> (r: Vec<u32>)
        ensures
            r@ == self@.filter(|p: (u16, u32)| p.0 == id).map_values(|p: (u16, u32)| p.1),
    {
        proof {
            reveal(Seq::filter);
        }
        let mut r: Vec<u32> = Vec::new();
        let mut i: usize = 0;
        proof {
            assert(self@.take(0) =~= Seq::<(u16, u32)>::empty());
            assert(r@ =~= self@.take(0).filter(|p: (u16, u32)| p.0 == id).map_values(
                |p: (u16, u32)| p.1,
            ));
        }
        while i < self.pairs.len()
            invariant
                i <= self@.len(),
                r@ == self@.take(i as int).filter(|p: (u16, u32)| p.0 == id).map_values(
                    |p: (u16, u32)| p.1,
                ),
            decreases self@.len() - i,
        {
            let ghost prefix = self@.take(i as int);
            let ghost next = self@.take(i + 1);
            proof {
                reveal(Seq::filter);
                assert(next.drop_last() =~= prefix);
                assert(next.last() == self@[i as int]);
            }
            let p = self.pairs[i];
            if p.0 == id {
                let ghost before = r@;
                r.push(p.1);
                proof {
                    assert(prefix.filter(|q: (u16, u32)| q.0 == id).push(self@[i as int])
                        =~= next.filter(|q: (u16, u32)| q.0 == id));
                    assert(r@ =~= next.filter(|q: (u16, u32)| q.0 == id).map_values(
                        |q: (u16, u32)| q.1,
                    ));
                }
            } else {
                proof {
                    assert(next.filter(|q: (u16, u32)| q.0 == id) == prefix.filter(
                        |q: (u16, u32)| q.0 == id,
                    ));
                }
            }
            i += 1;
        }
        proof {
            assert(self@.take(self@.len() as int) =~= self@);
        }
        r
    }
}

impl ReportTableListItem {
    /// Decodes the host's packed association buffer, record by record,
    /// appending every record to the map in order; never reads past the
    /// declared element count.
    pub fn insert_to_map(bytes: &[u8], num_elements: usize, table_map: &mut ReportTableMap)
        requires
            bytes@.len() >= 6 * num_elements,
        ensures
            final(table_map)@ == old(table_map)@ + spec_assoc_pairs(bytes@, num_elements as int),
    {
        let ghost base = table_map@;
        let buf_len = bytes.len();
        let mut idx: usize = 0;
        proof {
            assert(spec_assoc_pairs(bytes@, 0) =~= Seq::<(u16, u32)>::empty());
            assert(table_map@ =~= base + spec_assoc_pairs(bytes@, 0));
        }
        while idx < num_elements
            invariant
                bytes@.len() >= 6 * num_elements,
                bytes@.len() == buf_len,
                idx <= num_elements,
                table_map@ == base + spec_assoc_pairs(bytes@, idx as int),
            decreases num_elements - idx,
        {
            proof {
                assert(6 * (idx as int) + 5 < 6 * (num_elements as int)) by (nonlinear_arith)
                    requires
                        idx < num_elements,
                ;
            }
            let b0 = bytes[6 * idx];
            let b1 = bytes[6 * idx + 1];
            let b2 = bytes[6 * idx + 2];
            let b3 = bytes[6 * idx + 3];
            let b4 = bytes[6 * idx + 4];
            let b5 = bytes[6 * idx + 5];
            let table_id: u16 = b0 as u16 + (b1 as u16) * 0x100;
            let item_id: u32 = b2 as u32 + (b3 as u32) * 0x100 + (b4 as u32) * 0x10000 + (
            b5 as u32) * 0x1000000;
            let ghost before = table_map@;
            table_map.pairs.push((table_id, item_id));
            proof {
                assert((table_id, item_id) == spec_assoc_pair(bytes@, idx as int));
                assert(spec_assoc_pairs(bytes@, idx + 1) =~= spec_assoc_pairs(
                    bytes@,
                    idx as int,
                ).push(spec_assoc_pair(bytes@, idx as int)));
                assert(table_map@ =~= base + spec_assoc_pairs(bytes@, idx + 1));
            }
            idx += 1;
        }
    }

    /// Decodes one evidence object's association reply: a null list
    /// pointer means no associations are available.
    pub fn get_report_table_assocs(list_present: bool, bytes: &[u8], num_pairs: usize) -> (r:
        Option<ReportTableMap>)
        requires
            bytes@.len() >= 6 * num_pairs,
        ensures
            list_present <==> r is Some,
            r matches Some(m) ==> m@ == spec_assoc_pairs(bytes@, num_pairs as int),
    {
        if !list_present {
            return None;
        }
        let mut map = ReportTableMap::new();
        Self::insert_to_map(bytes, num_pairs, &mut map);
        proof {
            assert(map@ =~= spec_assoc_pairs(bytes@, num_pairs as int));
        }
        Some(map)
    }
}

} // verus!
