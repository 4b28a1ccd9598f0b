//! The case: its report tables, the cached association of tables with
//! items per evidence object, and the case's own properties.

use vstd::prelude::*;
use crate::datetime::{XwfTimestamp, FILETIME_TICKS_PER_SEC, FILETIME_UNIX_DIFF_SECS};
use crate::error::XwfError;
use crate::evidence::ReportTableMap;
use crate::flags::ReportTableFlags;
use crate::item::Item;
use crate::marshal::{utf16_decoded, spec_nul_prefix, wchar_str_to_string};

verus! {

/// A report table of the case: its name, its id, and the host's flag
/// word for it.
#[derive(Debug, Clone)]
#[verifier::ext_equal]
pub struct ReportTable {
    pub name: String,
    pub id: u16,
    pub flags: ReportTableFlags,
}

/// Two report tables are the same table exactly when their ids agree.
impl PartialEq for ReportTable {
    fn eq(&self, other: &Self) -> (r: bool) {
        self.id == other.id
    }
}

impl vstd::std_specs::cmp::PartialEqSpecImpl for ReportTable {
    open spec fn obeys_eq_spec() -> bool {
        true
    }

    open spec fn eq_spec(&self, other: &Self) -> bool {
        self.id == other.id
    }
}

impl Eq for ReportTable {}

/// A field-for-field copy of a report table.
pub fn copy_report_table(t: &ReportTable) -> (r: ReportTable)
    ensures
        r == *t,
{
    let r = ReportTable { name: t.name.clone(), id: t.id, flags: t.flags };
    proof {
        assert(r =~= *t);
    }
    r
}

impl ReportTable {
    /// The first table of the list with the given name.
    pub fn find_by_name(list: &Vec<ReportTable>, name: String) -> (r: Option<&ReportTable>)
        ensures
            r is Some <==> exists|i: int|
                0 <= i < list@.len() && (#[trigger] list@[i].name)@ == name@,
            r matches Some(t) ==> exists|i: int|
                {
                    &&& 0 <= i < list@.len()
                    &&& *t == list@[i]
                    &&& (#[trigger] list@[i].name)@ == name@
                    &&& forall|j: int| 0 <= j < i ==> (#[trigger] list@[j].name)@ != name@
                },
    {
        let mut i: usize = 0;
        while i < list.len()
            invariant
                i <= list@.len(),
                forall|j: int| 0 <= j < i ==> (#[trigger] list@[j].name)@ != name@,
            decreases list@.len() - i,
        {
            if list[i].name == name {
                return Some(&list[i]);
            }
            i += 1;
        }
        None
    }

    /// The first table of the list with the given id.
    pub fn find_by_id(list: &Vec<ReportTable>, id: u16) -> (r: Option<&ReportTable>)
        ensures
            r is Some <==> exists|i: int| 0 <= i < list@.len() && (#[trigger] list@[i]).id == id,
            r matches Some(t) ==> exists|i: int|
                {
                    &&& 0 <= i < list@.len()
                    &&& *t == list@[i]
                    &&& (#[trigger] list@[i]).id == id
                    &&& forall|j: int| 0 <= j < i ==> (#[trigger] list@[j]).id != id
                },
    {
        let mut i: usize = 0;
        while i < list.len()
            invariant
                i <= list@.len(),
                forall|j: int| 0 <= j < i ==> (#[trigger] list@[j]).id != id,
            decreases list@.len() - i,
        {
            if list[i].id == id {
                return Some(&list[i]);
            }
            i += 1;
        }
        None
    }

    /// The report tables the host listed, one per table index; an index
    /// the host returned nothing for is skipped.
    pub fn from_host_list(replies: &Vec<Option<(String, u32)>>) -> (r: Vec<ReportTable>)
        requires
            replies@.len() <= u16::MAX,
        ensures
            r@ == spec_report_tables(replies@),
    {
        let mut r: Vec<ReportTable> = Vec::new();
        let mut i: usize = 0;
        proof {
            assert(replies@.take(0) =~= Seq::<Option<(String, u32)>>::empty());
            assert(r@ =~= spec_report_tables(replies@.take(0)));
        }
        while i < replies.len()
            invariant
                replies@.len() <= u16::MAX,
                i <= replies@.len(),
                r@ == spec_report_tables(replies@.take(i as int)),
            decreases replies@.len() - i,
        {
            let ghost prefix = replies@.take(i as int);
            let ghost next = replies@.take(i + 1);
            proof {
                assert(next.drop_last() =~= prefix);
                assert(next.last() == replies@[i as int]);
            }
            match &replies[i] {
                Some(entry) => {
                    let table = ReportTable {
                        name: entry.0.clone(),
                        id: i as u16,
                        flags: ReportTableFlags::from_bits_truncate(entry.1),
                    };
                    let ghost before = r@;
                    r.push(table);
                    proof {
                        assert(r@ =~= before + seq![
                            ReportTable {
                                name: (replies@[i as int]->0).0,
                                id: i as u16,
                                flags: ReportTableFlags { bits: (replies@[i as int]->0).1 },
                            },
                        ]);
                    }
                },
                None => {
                    proof {
                        assert(r@ =~= r@ + Seq::<ReportTable>::empty());
                    }
                },
            }
            i += 1;
        }
        proof {
            assert(replies@.take(replies@.len() as int) =~= replies@);
        }
        r
    }
}

/// The tables built from the host's listing: for each index with a
/// reply, a table whose id is that index, whose name is the replied
/// text, and whose flag word is kept bit for bit.
pub open spec fn spec_report_tables(replies: Seq<Option<(String, u32)>>) -> Seq<ReportTable>
    decreases replies.len(),
{
    if replies.len() == 0 {
        Seq::empty()
    } else {
        spec_report_tables(replies.drop_last()) + (match replies.last() {
            Some(entry) => seq![
                ReportTable {
                    name: entry.0,
                    id: (replies.len() - 1) as u16,
                    flags: ReportTableFlags { bits: entry.1 },
                },
            ],
            None => Seq::<ReportTable>::empty(),
        })
    }
}

/// One association of the cache: an evidence object, a report table, and
/// an item of that evidence's snapshot.
pub type CaseAssoc = (u32, u16, u32);

/// The associations one evidence object's map contributes to the cache.
pub open spec fn spec_evidence_assocs(evidence_id: u32, pairs: Seq<(u16, u32)>) -> Seq<CaseAssoc> {
    pairs.map_values(|p: (u16, u32)| (evidence_id, p.0, p.1))
}

/// The whole cache: every evidence object's contributions, in order.
pub open spec fn spec_flatten_assocs(per_evidence: Seq<(u32, Seq<(u16, u32)>)>) -> Seq<CaseAssoc>
    decreases per_evidence.len(),
{
    if per_evidence.len() == 0 {
        Seq::empty()
    } else {
        spec_flatten_assocs(per_evidence.drop_last()) + spec_evidence_assocs(
            per_evidence.last().0,
            per_evidence.last().1,
        )
    }
}

/// The case's report tables and the cached table-to-item associations of
/// every evidence object.
pub struct Case {
    tables: Vec<ReportTable>,
    assocs: Vec<CaseAssoc>,
}

impl Case {
    /// The stored report tables.
    pub closed spec fn spec_tables(&self) -> Seq<ReportTable> {
        self.tables@
    }

    /// The cached associations.
    pub closed spec fn spec_assocs(&self) -> Seq<CaseAssoc> {
        self.assocs@
    }

    /// An empty case cache.
    pub fn new() -> (r: Case)
        ensures
            r.spec_tables() == Seq::<ReportTable>::empty(),
            r.spec_assocs() == Seq::<CaseAssoc>::empty(),
    {
        let r = Case { tables: Vec::new(), assocs: Vec::new() };
        proof {
            assert(r.spec_tables() =~= Seq::<ReportTable>::empty());
            assert(r.spec_assocs() =~= Seq::<CaseAssoc>::empty());
        }
        r
    }

    /// The first stored table with the given name.
    pub fn get_report_table_by_name(&self, name: &str) -> (r: Option<&ReportTable>)
        ensures
            r is Some <==> exists|i: int|
                0 <= i < self.spec_tables().len() && (#[trigger] self.spec_tables()[i].name)@
                    == name@,
            r matches Some(t) ==> exists|i: int|
                {
                    &&& 0 <= i < self.spec_tables().len()
                    &&& *t == self.spec_tables()[i]
                    &&& (#[trigger] self.spec_tables()[i].name)@ == name@
                },
    {
        let key = name.to_owned();
        let mut i: usize = 0;
        while i < self.tables.len()
            invariant
                key@ == name@,
                i <= self.spec_tables().len(),
                forall|j: int| 0 <= j < i ==> (#[trigger] self.spec_tables()[j].name)@ != name@,
            decreases self.spec_tables().len() - i,
        {
            if self.tables[i].name == key {
                return Some(&self.tables[i]);
            }
            i += 1;
        }
        None
    }

    /// The first stored table with the given id.
    pub fn get_report_table_by_id(&self, id: &u16) -> (r: Option<&ReportTable>)
        ensures
            r is Some <==> exists|i: int|
                0 <= i < self.spec_tables().len() && (#[trigger] self.spec_tables()[i]).id == *id,
            r matches Some(t) ==> exists|i: int|
                {
                    &&& 0 <= i < self.spec_tables().len()
                    &&& *t == self.spec_tables()[i]
                    &&& (#[trigger] self.spec_tables()[i]).id == *id
                },
    {
        let mut i: usize = 0;
        while i < self.tables.len()
            invariant
                i <= self.spec_tables().len(),
                forall|j: int| 0 <= j < i ==> (#[trigger] self.spec_tables()[j]).id != *id,
            decreases self.spec_tables().len() - i,
        {
            if self.tables[i].id == *id {
                return Some(&self.tables[i]);
            }
            i += 1;
        }
        None
    }

    /// Fills the cache from the host's table listing and the decoded
    /// association map of every evidence object.  A case without any
    /// evidence has nothing to cache and is rejected; the cache is then
    /// untouched.
    pub fn compute_report_table_cache(
        &mut self,
        tables: Vec<ReportTable>,
        per_evidence: &Vec<(u32, ReportTableMap)>,
    ) -> (r: Result<(), XwfError>)
        ensures
            r is Ok <==> per_evidence@.len() > 0,
            r is Err ==> r == Err::<(), XwfError>(XwfError::NoEvidenceAvaible) && *final(self)
                == *old(self),
            r is Ok ==> final(self).spec_tables() == tables@ && final(self).spec_assocs()
                == spec_flatten_assocs(
                per_evidence@.map_values(|e: (u32, ReportTableMap)| (e.0, e.1@)),
            ),
    {
        if per_evidence.len() == 0 {
            return Err(XwfError::NoEvidenceAvaible);
        }
        let ghost pe = per_evidence@.map_values(|e: (u32, ReportTableMap)| (e.0, e.1@));
        let mut assocs: Vec<CaseAssoc> = Vec::new();
        let mut i: usize = 0;
        proof {
            assert(pe.take(0) =~= Seq::<(u32, Seq<(u16, u32)>)>::empty());
            assert(assocs@ =~= spec_flatten_assocs(pe.take(0)));
        }
        while i < per_evidence.len()
            invariant
                pe == per_evidence@.map_values(|e: (u32, ReportTableMap)| (e.0, e.1@)),
                i <= per_evidence@.len(),
                pe.len() == per_evidence@.len(),
                assocs@ == spec_flatten_assocs(pe.take(i as int)),
            decreases per_evidence@.len() - i,
        {
            let evidence_id = per_evidence[i].0;
            let map = &per_evidence[i].1;
            let ghost contributed = spec_evidence_assocs(evidence_id, map@);
            let mut j: usize = 0;
            proof {
                assert(map@.take(0) =~= Seq::<(u16, u32)>::empty());
                assert(spec_evidence_assocs(evidence_id, map@.take(0)) =~= Seq::<
                    CaseAssoc,
                >::empty());
                assert(assocs@ =~= spec_flatten_assocs(pe.take(i as int))
                    + spec_evidence_assocs(evidence_id, map@.take(0)));
            }
            while j < map.len()
                invariant
                    pe == per_evidence@.map_values(|e: (u32, ReportTableMap)| (e.0, e.1@)),
                    i < per_evidence@.len(),
                    pe.len() == per_evidence@.len(),
                    j <= map@.len(),
                    map == &per_evidence@[i as int].1,
                    evidence_id == per_evidence@[i as int].0,
                    assocs@ == spec_flatten_assocs(pe.take(i as int)) + spec_evidence_assocs(
                        evidence_id,
                        map@.take(j as int),
                    ),
                decreases map@.len() - j,
            {
                let pair = map.get(j);
                let ghost before = assocs@;
                assocs.push((evidence_id, pair.0, pair.1));
                proof {
                    assert(map@.take(j + 1).drop_last() =~= map@.take(j as int));
                    assert(map@.take(j + 1).last() == map@[j as int]);
                    assert(spec_evidence_assocs(evidence_id, map@.take(j + 1))
                        =~= spec_evidence_assocs(evidence_id, map@.take(j as int)).push(
                        (evidence_id, map@[j as int].0, map@[j as int].1),
                    ));
                    assert(assocs@ =~= spec_flatten_assocs(pe.take(i as int))
                        + spec_evidence_assocs(evidence_id, map@.take(j + 1)));
                }
                j += 1;
            }
            proof {
                assert(map@.take(map@.len() as int) =~= map@);
                assert(pe.take(i + 1).drop_last() =~= pe.take(i as int));
                assert(pe.take(i + 1).last() == pe[i as int]);
                assert(pe[i as int].0 == evidence_id);
                assert(pe[i as int].1 == map@);
                assert(spec_flatten_assocs(pe.take(i + 1)) == spec_flatten_assocs(
                    pe.take(i as int),
                ) + spec_evidence_assocs(evidence_id, map@));
            }
            i += 1;
        }
        proof {
            assert(pe.take(pe.len() as int) =~= pe);
        }
        self.tables = tables;
        self.assocs = assocs;
        Ok(())
    }

    /// True when the cache knows the given item of the given evidence to
    /// sit in the given table.
    pub fn contained_in_report_table(
        &self,
        t: Option<&ReportTable>,
        evidence_id: u32,
        item: &Item,
    ) -> (r: bool)
        requires
            item.item_id >= 0,
        ensures
            t is None ==> r == false,
            t matches Some(tbl) ==> (r <==> exists|k: int|
                0 <= k < self.spec_assocs().len() && #[trigger] self.spec_assocs()[k] == (
                evidence_id,
                tbl.id,
                item.item_id as u32,
            )),
    {
        let table = match t {
            Some(table) => table,
            None => {
                return false;
            },
        };
        let mut k: usize = 0;
        while k < self.assocs.len()
            invariant
                t == Some(table),
                k <= self.spec_assocs().len(),
                item.item_id >= 0,
                forall|j: int|
                    0 <= j < k ==> #[trigger] self.spec_assocs()[j] != (
                    evidence_id,
                    table.id,
                    item.item_id as u32,
                ),
            decreases self.spec_assocs().len() - k,
        {
            let a = self.assocs[k];
            if a.0 == evidence_id && a.1 == table.id && a.2 == item.item_id as u32 {
                proof {
                    let trip = (evidence_id, table.id, item.item_id as u32);
                    assert(self.spec_assocs()[k as int] =~= trip);
                    assert(exists|j: int|
                        0 <= j < self.spec_assocs().len() && #[trigger] self.spec_assocs()[j]
                            == trip);
                }
                return true;
            }
            proof {
                assert(self.spec_assocs()[k as int] != (
                    evidence_id,
                    table.id,
                    item.item_id as u32,
                ));
            }
            k += 1;
        }
        false
    }

    /// The stored tables in which the cache lists the given item of the
    /// given evidence, in table order.
    pub fn get_cached_report_tables(&self, evidence_id: u32, item: &Item) -> (r: Vec<ReportTable>)
        requires
            item.item_id >= 0,
        ensures
            r@ == self.spec_tables().filter(
                |t: ReportTable|
                    exists|k: int|
                        0 <= k < self.spec_assocs().len() && #[trigger] self.spec_assocs()[k] == (
                        evidence_id,
                        t.id,
                        item.item_id as u32,
                    ),
            ),
    {
        proof {
            reveal(Seq::filter);
        }
        let ghost pred = |t: ReportTable|
            exists|k: int|
                0 <= k < self.spec_assocs().len() && #[trigger] self.spec_assocs()[k] == (
                evidence_id,
                t.id,
                item.item_id as u32,
            );
        let mut r: Vec<ReportTable> = Vec::new();
        let mut i: usize = 0;
        proof {
            assert(self.spec_tables().take(0) =~= Seq::<ReportTable>::empty());
            assert(r@ =~= self.spec_tables().take(0).filter(pred));
        }
        while i < self.tables.len()
            invariant
                i <= self.spec_tables().len(),
                item.item_id >= 0,
                pred == (|t: ReportTable|
                    exists|k: int|
                        0 <= k < self.spec_assocs().len() && #[trigger] self.spec_assocs()[k] == (
                        evidence_id,
                        t.id,
                        item.item_id as u32,
                    )),
                r@ == self.spec_tables().take(i as int).filter(pred),
            decreases self.spec_tables().len() - i,
        {
            let ghost prefix = self.spec_tables().take(i as int);
            let ghost next = self.spec_tables().take(i + 1);
            proof {
                reveal(Seq::filter);
                assert(next.drop_last() =~= prefix);
                assert(next.last() == self.spec_tables()[i as int]);
            }
            let table = &self.tables[i];
            let mut found = false;
            let mut k: usize = 0;
            while k < self.assocs.len()
                invariant
                    k <= self.spec_assocs().len(),
                    item.item_id >= 0,
                    i < self.spec_tables().len(),
                    table == &self.spec_tables()[i as int],
                    found == exists|j: int|
                        0 <= j < k && #[trigger] self.spec_assocs()[j] == (
                        evidence_id,
                        table.id,
                        item.item_id as u32,
                    ),
                decreases self.spec_assocs().len() - k,
            {
                let a = self.assocs[k];
                if a.0 == evidence_id && a.1 == table.id && a.2 == item.item_id as u32 {
                    found = true;
                }
                k += 1;
            }
            proof {
                assert(found == pred(self.spec_tables()[i as int]));
            }
            if found {
                let copy = copy_report_table(table);
                let ghost before = r@;
                r.push(copy);
                proof {
                    assert(copy == self.spec_tables()[i as int]);
                    assert(r@ =~= before.push(self.spec_tables()[i as int]));
                    assert(r@ =~= next.filter(pred));
                }
            } else {
                proof {
                    assert(next.filter(pred) == prefix.filter(pred));
                }
            }
            i += 1;
        }
        proof {
            assert(self.spec_tables().take(self.spec_tables().len() as int)
                =~= self.spec_tables());
        }
        r
    }
}

/// The case's own properties, decoded from the host's replies.
pub struct CaseInfo {
    pub id: i64,
    pub creation_date: XwfTimestamp,
    pub title: String,
    pub examiner: String,
    pub file: String,
    pub dir: String,
}

impl CaseInfo {
    /// Decodes the case-property replies: the creation time must be a
    /// positive file time, and every text query must not have failed;
    /// the texts are read up to their NUL terminators.
    pub fn get_case_infos(
        id: i64,
        creation: i64,
        examiner_ret: i64,
        examiner_buf: &[u16],
        title_ret: i64,
        title_buf: &[u16],
        file_ret: i64,
        file_buf: &[u16],
        dir_ret: i64,
        dir_buf: &[u16],
    ) -> (r: Result<CaseInfo, XwfError>)
        ensures
            r is Ok <==> (creation > 0 && examiner_ret >= 0 && title_ret >= 0 && file_ret >= 0
                && dir_ret >= 0),
            r matches Ok(c) ==> {
                &&& c.id == id
                &&& c.creation_date.secs == creation / FILETIME_TICKS_PER_SEC
                    - FILETIME_UNIX_DIFF_SECS
                &&& c.creation_date.nanos == 0
                &&& c.examiner@ == utf16_decoded(spec_nul_prefix(examiner_buf@))
                &&& c.title@ == utf16_decoded(spec_nul_prefix(title_buf@))
                &&& c.file@ == utf16_decoded(spec_nul_prefix(file_buf@))
                &&& c.dir@ == utf16_decoded(spec_nul_prefix(dir_buf@))
            },
            r is Err ==> r == Err::<CaseInfo, XwfError>(
                XwfError::XwfFunctionCallFailed("get_case_prop"),
            ),
    {
        if creation <= 0 {
            return Err(XwfError::XwfFunctionCallFailed("get_case_prop"));
        }
        if examiner_ret < 0 {
            return Err(XwfError::XwfFunctionCallFailed("get_case_prop"));
        }
        let examiner = wchar_str_to_string(examiner_buf);
        if title_ret < 0 {
            return Err(XwfError::XwfFunctionCallFailed("get_case_prop"));
        }
        let title = wchar_str_to_string(title_buf);
        if file_ret < 0 {
            return Err(XwfError::XwfFunctionCallFailed("get_case_prop"));
        }
        let file = wchar_str_to_string(file_buf);
        if dir_ret < 0 {
            return Err(XwfError::XwfFunctionCallFailed("get_case_prop"));
        }
        let dir = wchar_str_to_string(dir_buf);
        let creation_date = XwfTimestamp {
            secs: creation / FILETIME_TICKS_PER_SEC - FILETIME_UNIX_DIFF_SECS,
            nanos: 0,
        };
        Ok(CaseInfo { id, creation_date, title, examiner, file, dir })
    }
}

} // verus!
