//! Items of the volume snapshot: ids, unique ids across evidence objects,
//! ancestor walks over the snapshot's parent table, and open item handles
//! with verified chunked reading.
//!
//! The host owns the snapshot; functions here either work on plain values
//! the export layer already fetched (a parent table, a name table, a raw
//! reply word) or interpret a single host reply.  Each contract states the
//! result for every value the host could hand back.

use vstd::prelude::*;
use crate::decimal::{
    format_i64, format_u64, parse_dec_capped, spec_all_digits, spec_dec_digits, spec_dec_int,
    spec_dec_val, lemma_dec_digits_round_trip,
};
use crate::error::XwfError;
use crate::marshal::{spec_first_pos, lemma_first_pos_at};

verus! {

/// An item of the currently selected volume snapshot, addressed by its
/// snapshot-local id.
#[derive(Debug, Clone, Copy, PartialEq, Eq, Structural)]
pub struct Item {
    pub item_id: i32,
}

/// An item addressed across evidence objects: the owning evidence's id,
/// its short id, and the item's snapshot-local id.
#[derive(Debug, Clone, Copy, PartialEq, Eq, Structural)]
pub struct UniqueItemId {
    pub item_id: i32,
    pub evidence_id: u32,
    pub short_ev_id: u16,
}

/// The canonical text form `<short-evidence-id>-<item-id>`.
pub open spec fn spec_unique_id_string(id: UniqueItemId) -> Seq<char> {
    spec_dec_digits(id.short_ev_id as nat) + seq!['-'] + spec_dec_int(id.item_id as int)
}

/// What parsing the canonical text form yields: the digits before the
/// first dash as the evidence id, the digits after it as the item id;
/// anything else is rejected, as is a value out of range of either id.
pub open spec fn spec_parse_unique_id(s: Seq<char>) -> Option<(u16, i32)> {
    let p = spec_first_pos(s, '-');
    if p == s.len() {
        None
    } else {
        let a = s.take(p);
        let b = s.skip(p + 1);
        if a.len() >= 1 && spec_all_digits(a) && spec_dec_val(a) <= 0xFFFF && b.len() >= 1
            && spec_all_digits(b) && spec_dec_val(b) <= 0x7FFFFFFF {
            Some((spec_dec_val(a) as u16, spec_dec_val(b) as i32))
        } else {
            None
        }
    }
}

impl UniqueItemId {
    /// Builds a unique id from the host's evidence ids and an item id.
    pub fn new(evidence_id: u32, short_ev_id: u16, item_id: u32) -> (r: UniqueItemId)
        requires
            item_id <= i32::MAX,
        ensures
            r.item_id == item_id,
            r.evidence_id == evidence_id,
            r.short_ev_id == short_ev_id,
    {
        UniqueItemId { item_id: item_id as i32, evidence_id, short_ev_id }
    }

    /// The snapshot-local item this unique id points at.
    pub fn item(&self) -> (r: Item)
        ensures
            r.item_id == self.item_id,
    {
        Item::new(self.item_id)
    }

    /// The evidence id this unique id points at.
    pub fn evidence(&self) -> (r: u32)
        ensures
            r == self.evidence_id,
    {
        self.evidence_id
    }

    /// Renders the canonical text form `<short-evidence-id>-<item-id>`.
    pub fn to_string(&self) -> (r: String)
        ensures
            r@ == spec_unique_id_string(*self),
    {
        let mut s = format_u64(self.short_ev_id as u64);
        proof {
            reveal_strlit("-");
            assert("-"@ =~= seq!['-']);
        }
        s.append("-");
        let item = format_i64(self.item_id as i64);
        s.append(item.as_str());
        s
    }

    /// Parses the canonical text form back into a unique id.  The short
    /// evidence id doubles as the evidence id, as the text form carries
    /// only one of them.
    pub fn try_from(value: &String) -> (r: Result<UniqueItemId, XwfError>)
        ensures
            r is Ok <==> spec_parse_unique_id(value@) is Some,
            r matches Ok(u) ==> {
                &&& spec_parse_unique_id(value@) matches Some(p)
                &&& u.short_ev_id == p.0
                &&& u.evidence_id == p.0 as u32
                &&& u.item_id == p.1
            },
            r is Err ==> r == Err::<UniqueItemId, XwfError>(XwfError::InvalidInputArgument),
    {
        let s = value.as_str();
        let n = s.unicode_len();
        let mut p: usize = 0;
        while p < n && s.get_char(p) != '-'
            invariant
                value@.len() == n,
                s@ == value@,
                p <= n,
                forall|j: int| 0 <= j < p ==> value@[j] != '-',
            decreases n - p,
        {
            p += 1;
        }
        proof {
            lemma_first_pos_at(value@, '-', p as int);
        }
        if p == n {
            return Err(XwfError::InvalidInputArgument);
        }
        let ev = match parse_dec_capped(s, 0, p, 0xFFFF) {
            Ok(v) => v,
            Err(_) => {
                proof {
                    assert(value@.subrange(0, p as int) =~= value@.take(p as int));
                }
                return Err(XwfError::InvalidInputArgument);
            },
        };
        let item = match parse_dec_capped(s, p + 1, n, 0x7FFFFFFF) {
            Ok(v) => v,
            Err(_) => {
                proof {
                    assert(value@.subrange(p + 1, n as int) =~= value@.skip(p + 1));
                }
                return Err(XwfError::InvalidInputArgument);
            },
        };
        proof {
            assert(value@.subrange(0, p as int) =~= value@.take(p as int));
            assert(value@.subrange(p + 1, n as int) =~= value@.skip(p + 1));
        }
        Ok(UniqueItemId {
            item_id: item as i32,
            evidence_id: ev as u32,
            short_ev_id: ev as u16,
        })
    }

    /// Packs the evidence id into the high 32 bits and the item id into
    /// the low 32 bits of one non-negative 64-bit integer.
    pub fn to_packed_int64(&self) -> (r: i64)
        requires
            self.item_id >= 0,
            self.evidence_id <= i32::MAX,
        ensures
            r == self.evidence_id as int * 0x100000000 + self.item_id,
            r >= 0,
    {
        (self.evidence_id as i64) * 0x100000000i64 + (self.item_id as i64)
    }

    /// Unpacks a packed 64-bit id.  The short evidence id is not part of
    /// the packed form and comes back as zero.
    pub fn from_packed_int64(id: i64) -> (r: UniqueItemId)
        requires
            id >= 0,
            id % 0x100000000i64 <= i32::MAX,
        ensures
            r.evidence_id == id as int / 0x100000000,
            r.item_id == id as int % 0x100000000,
            r.short_ev_id == 0,
    {
        let evidence_id = (id / 0x100000000i64) as u32;
        let item_id = (id % 0x100000000i64) as i32;
        UniqueItemId { item_id, evidence_id, short_ev_id: 0 }
    }
}

/// Packing then unpacking a unique id recovers the evidence id and the
/// item id exactly, for every id whose parts fit the packed form (a
/// negative item id or an evidence id above the signed 32-bit range has
/// no packed form).  The short evidence id is not carried.
pub proof fn lemma_unique_id_packed_round_trip(id: UniqueItemId)
    requires
        id.item_id >= 0,
        id.evidence_id <= i32::MAX,
    ensures
        (id.evidence_id as int * 0x100000000 + id.item_id) / 0x100000000 == id.evidence_id,
        (id.evidence_id as int * 0x100000000 + id.item_id) % 0x100000000 == id.item_id,
        id.evidence_id as int * 0x100000000 + id.item_id >= 0,
{
    let packed = id.evidence_id * 0x100000000int + id.item_id;
    vstd::arithmetic::div_mod::lemma_fundamental_div_mod_converse(
        packed,
        0x100000000int,
        id.evidence_id as int,
        id.item_id as int,
    );
}

/// Rendering a unique id and parsing the text back recovers the short
/// evidence id and the item id exactly, for every id with a non-negative
/// item id (a negative id renders with a sign that the form does not
/// parse).  Only the short evidence id is carried by the text form.
pub proof fn lemma_unique_id_string_round_trip(id: UniqueItemId)
    requires
        id.item_id >= 0,
    ensures
        spec_parse_unique_id(spec_unique_id_string(id)) == Some((id.short_ev_id, id.item_id)),
{
    let a = spec_dec_digits(id.short_ev_id as nat);
    let b = spec_dec_digits(id.item_id as nat);
    let s = spec_unique_id_string(id);
    lemma_dec_digits_round_trip(id.short_ev_id as nat);
    lemma_dec_digits_round_trip(id.item_id as nat);
    assert(s =~= a + seq!['-'] + b);
    assert forall|j: int| 0 <= j < a.len() implies s[j] != '-' by {
        assert(s[j] == a[j]);
        assert(crate::decimal::spec_is_digit(a[j]));
    }
    assert(s[a.len() as int] == '-');
    lemma_first_pos_at(s, '-', a.len() as int);
    assert(s.take(a.len() as int) =~= a);
    assert(s.skip(a.len() as int + 1) =~= b);
}

/// Walks from an item towards the snapshot's root, one parent link per
/// step, over the parent table the export layer fetched from the host
/// (one entry per item; a negative entry means the item has no parent).
pub struct ItemIterator {
    cur_item: Option<Item>,
    parents: Vec<i32>,
}

impl ItemIterator {
    /// The parent table this walk follows.
    pub closed spec fn spec_parents(&self) -> Seq<i32> {
        self.parents@
    }

    /// The item the next call of `next` will yield.
    pub closed spec fn spec_cur(&self) -> Option<Item> {
        self.cur_item
    }

    /// Starts a walk at the given item.
    pub fn create(item: &Item, parents: Vec<i32>) -> (r: ItemIterator)
        ensures
            r.spec_cur() == Some(*item),
            r.spec_parents() == parents@,
    {
        ItemIterator { cur_item: Some(*item), parents }
    }

    /// Yields the current item and steps to its parent; an item without a
    /// parent entry, or with a negative one, ends the walk.
    pub fn next(&mut self) -> (r: Option<Item>)
        ensures
            final(self).spec_parents() == old(self).spec_parents(),
            r == old(self).spec_cur(),
            match old(self).spec_cur() {
                Option::None => final(self).spec_cur() is None,
                Option::Some(it) => {
                    if 0 <= it.item_id < old(self).spec_parents().len() && old(
                        self,
                    ).spec_parents()[it.item_id as int] >= 0 {
                        final(self).spec_cur() == Some(
                            Item { item_id: old(self).spec_parents()[it.item_id as int] },
                        )
                    } else {
                        final(self).spec_cur() is None
                    }
                },
            },
    {
        match self.cur_item {
            Some(i) => {
                let id = i.item_id;
                if id >= 0 && (id as usize) < self.parents.len() && self.parents[id as usize]
                    >= 0 {
                    self.cur_item = Some(Item { item_id: self.parents[id as usize] });
                } else {
                    self.cur_item = None;
                }
                Some(i)
            },
            None => None,
        }
    }
}

/// The ids on the walk from `start` towards the root: `start` itself,
/// then its parent, and so on.  A negative id ends the walk before it; an
/// id without a table entry is yielded and ends it; the fuel bounds the
/// walk against a cyclic table.
pub open spec fn spec_chain(parents: Seq<i32>, start: i32, fuel: nat) -> Seq<i32>
    decreases fuel,
{
    if fuel == 0 || start < 0 {
        Seq::empty()
    } else if start < parents.len() {
        seq![start] + spec_chain(parents, parents[start as int], (fuel - 1) as nat)
    } else {
        seq![start]
    }
}

impl Item {
    pub fn new(item_id: i32) -> (r: Item)
        ensures
            r.item_id == item_id,
    {
        Item { item_id }
    }

    /// Starts an ancestor walk at this item over the given parent table.
    pub fn iter(&self, parents: Vec<i32>) -> (r: ItemIterator)
        ensures
            r.spec_cur() == Some(*self),
            r.spec_parents() == parents@,
    {
        ItemIterator::create(self, parents)
    }

    /// Interprets the host's reply to the parent query: a negative id
    /// means the item has no parent.
    pub fn get_parent_item(&self, parent_id: i32) -> (r: Option<Item>)
        ensures
            parent_id < 0 <==> r is None,
            r matches Some(p) ==> p.item_id == parent_id,
    {
        if parent_id < 0 {
            None
        } else {
            Some(Item::new(parent_id))
        }
    }

    /// The items of the snapshot whose parent this item is, in id order,
    /// read off the parent table.
    pub fn get_child_items(&self, parents: &Vec<i32>) -> (r: Vec<Item>)
        requires
            parents@.len() <= i32::MAX,
        ensures
            r@.map_values(|it: Item| it.item_id) == Seq::new(
                parents@.len(),
                |i: int| i as i32,
            ).filter(|i: i32| parents@[i as int] == self.item_id),
    {
        let ghost all = Seq::new(parents@.len(), |i: int| i as i32);
        let mut r: Vec<Item> = Vec::new();
        let mut i: usize = 0;
        proof {
            reveal(Seq::filter);
            assert(all.take(0) =~= Seq::<i32>::empty());
            assert(r@.map_values(|it: Item| it.item_id) =~= all.take(0).filter(
                |x: i32| parents@[x as int] == self.item_id,
            ));
        }
        while i < parents.len()
            invariant
                parents@.len() <= i32::MAX,
                i <= parents@.len(),
                all == Seq::new(parents@.len(), |k: int| k as i32),
                r@.map_values(|it: Item| it.item_id) == all.take(i as int).filter(
                    |x: i32| parents@[x as int] == self.item_id,
                ),
            decreases parents@.len() - i,
        {
            let ghost prefix = all.take(i as int);
            let ghost next = all.take(i + 1);
            proof {
                reveal(Seq::filter);
                assert(next.drop_last() =~= prefix);
                assert(next.last() == i as i32);
            }
            if parents[i] == self.item_id {
                let ghost before = r@.map_values(|it: Item| it.item_id);
                r.push(Item::new(i as i32));
                proof {
                    reveal(Seq::filter);
                    assert(next.drop_last() =~= prefix);
                    assert(next.last() == i as i32);
                    assert(r@.map_values(|it: Item| it.item_id) =~= before.push(i as i32));
                    assert(next.filter(|x: i32| parents@[x as int] == self.item_id)
                        == prefix.filter(|x: i32| parents@[x as int] == self.item_id).push(
                        i as i32,
                    ));
                }
            } else {
                proof {
                    reveal(Seq::filter);
                    assert(next.drop_last() =~= prefix);
                    assert(next.last() == i as i32);
                    assert(next.filter(|x: i32| parents@[x as int] == self.item_id)
                        == prefix.filter(|x: i32| parents@[x as int] == self.item_id));
                }
            }
            i += 1;
        }
        proof {
            assert(all.take(parents@.len() as int) =~= all);
        }
        r
    }

    /// The ids of this item's ancestors, nearest first: its parent, the
    /// parent's parent, and so on, as far as the parent table reaches.
    pub fn get_hierarchy(&self, parents: &Vec<i32>) -> (r: Vec<Item>)
        requires
            parents@.len() <= i32::MAX,
        ensures
            r@.map_values(|it: Item| it.item_id) == (if 0 <= self.item_id
                < parents@.len() {
                spec_chain(parents@, parents@[self.item_id as int], parents@.len() + 1)
            } else {
                Seq::<i32>::empty()
            }),
    {
        let mut r: Vec<Item> = Vec::new();
        if self.item_id < 0 || self.item_id as usize >= parents.len() {
            proof {
                assert(r@.map_values(|it: Item| it.item_id) =~= Seq::<i32>::empty());
            }
            return r;
        }
        let mut cur: i32 = parents[self.item_id as usize];
        let mut fuel: usize = parents.len() + 1;
        let ghost full = spec_chain(parents@, parents@[self.item_id as int], parents@.len() + 1);
        proof {
            assert(r@.map_values(|it: Item| it.item_id) =~= Seq::<i32>::empty());
            assert(full == r@.map_values(|it: Item| it.item_id) + spec_chain(
                parents@,
                cur,
                fuel as nat,
            ));
        }
        while fuel > 0 && cur >= 0
            invariant
                full == r@.map_values(|it: Item| it.item_id) + spec_chain(
                    parents@,
                    cur,
                    fuel as nat,
                ),
            decreases fuel,
        {
            let ghost before = r@.map_values(|it: Item| it.item_id);
            r.push(Item::new(cur));
            proof {
                assert(r@.map_values(|it: Item| it.item_id) =~= before.push(cur));
            }
            if (cur as usize) < parents.len() {
                let next = parents[cur as usize];
                proof {
                    assert(spec_chain(parents@, cur, fuel as nat) == seq![cur] + spec_chain(
                        parents@,
                        next,
                        (fuel - 1) as nat,
                    ));
                    assert(before.push(cur) =~= before + seq![cur]);
                    assert(before + seq![cur] + spec_chain(parents@, next, (fuel - 1) as nat)
                        =~= before + (seq![cur] + spec_chain(parents@, next, (fuel - 1) as nat)));
                }
                cur = next;
                fuel = fuel - 1;
            } else {
                proof {
                    assert(spec_chain(parents@, cur, fuel as nat) == seq![cur]);
                    assert(before.push(cur) =~= before + seq![cur]);
                }
                cur = -1;
                fuel = fuel - 1;
                proof {
                    assert(spec_chain(parents@, cur, fuel as nat) =~= Seq::<i32>::empty());
                    assert(r@.map_values(|it: Item| it.item_id) + Seq::<i32>::empty() =~= r@
                        .map_values(|it: Item| it.item_id));
                }
            }
        }
        proof {
            if cur >= 0 {
                assert(fuel == 0);
                assert(spec_chain(parents@, cur, 0) =~= Seq::<i32>::empty());
            }
            assert(spec_chain(parents@, cur, fuel as nat) =~= Seq::<i32>::empty());
            assert(r@.map_values(|it: Item| it.item_id) + Seq::<i32>::empty() =~= r@.map_values(
                |it: Item| it.item_id,
            ));
        }
        r
    }

    /// The unique id of this item within the given evidence.
    pub fn unique_id(&self, evidence_id: u32, short_ev_id: u16) -> (r: UniqueItemId)
        ensures
            r.item_id == self.item_id,
            r.evidence_id == evidence_id,
            r.short_ev_id == short_ev_id,
    {
        UniqueItemId { item_id: self.item_id, evidence_id, short_ev_id }
    }

    /// Interprets the host's reply to an open request: a null handle
    /// means the item could not be opened.
    pub fn open(&self, handle: u64) -> (r: Result<ItemHandle, XwfError>)
        ensures
            handle == 0 <==> r is Err,
            r is Err ==> r == Err::<ItemHandle, XwfError>(XwfError::FailedToGetObjectHandle),
            r matches Ok(h) ==> h.spec_handle() == handle && h.spec_item() == *self,
    {
        if handle == 0 {
            return Err(XwfError::FailedToGetObjectHandle);
        }
        ItemHandle::new(handle, *self)
    }

    /// Interprets the host's reply to the item-information query: the
    /// value counts only when the host's success word is non-zero.
    pub fn get_item_info(&self, success: i32, result: i64) -> (r: Result<i64, XwfError>)
        ensures
            r is Ok <==> success != 0,
            r matches Ok(v) ==> v == result,
            r is Err ==> r == Err::<i64, XwfError>(
                XwfError::XwfFunctionCallFailed("get_item_information"),
            ),
    {
        if success != 0 {
            Ok(result)
        } else {
            Err(XwfError::XwfFunctionCallFailed("get_item_information"))
        }
    }

    /// Decodes the deletion status from the item-information reply.
    pub fn get_item_info_deletion(&self, success: i32, result: i64) -> (r: Result<
        crate::types::ItemInfoDeletion,
        XwfError,
    >)
        ensures
            success == 0 ==> r == Err::<crate::types::ItemInfoDeletion, XwfError>(
                XwfError::XwfFunctionCallFailed("get_item_information"),
            ),
            success != 0 ==> r == crate::types::spec_deletion_from(result),
    {
        let raw = self.get_item_info(success, result)?;
        crate::types::ItemInfoDeletion::try_from(raw)
    }

    /// Decodes the status flags from the item-information reply; every
    /// bit the host set is kept.
    pub fn get_item_info_flags(&self, success: i32, result: i64) -> (r: Result<
        crate::flags::ItemInfoFlags,
        XwfError,
    >)
        requires
            result >= 0,
        ensures
            r is Ok <==> success != 0,
            r matches Ok(f) ==> f.bits == result,
            r is Err ==> r == Err::<crate::flags::ItemInfoFlags, XwfError>(
                XwfError::XwfFunctionCallFailed("get_item_information"),
            ),
    {
        let raw = self.get_item_info(success, result)?;
        Ok(crate::flags::ItemInfoFlags::from_bits_truncate(raw as u64))
    }

    /// Decodes the classification from the item-information reply; an
    /// undocumented code becomes `Unknown`.
    pub fn get_item_info_classification(&self, success: i32, result: i64) -> (r: Result<
        crate::types::ItemInfoClassification,
        XwfError,
    >)
        ensures
            success == 0 ==> r == Err::<crate::types::ItemInfoClassification, XwfError>(
                XwfError::XwfFunctionCallFailed("get_item_information"),
            ),
            success != 0 ==> r == Ok::<crate::types::ItemInfoClassification, XwfError>(
                crate::types::spec_classification_from(result),
            ),
    {
        let raw = self.get_item_info(success, result)?;
        crate::types::ItemInfoClassification::try_from(raw)
    }

    /// The host's reply to the size query, as an unsigned size.
    pub fn get_size(&self, host_size: i64) -> (r: usize)
        requires
            0 <= host_size <= usize::MAX,
        ensures
            r == host_size,
    {
        host_size as usize
    }

    /// Interprets the host's reply to the parent-offset query: no offset
    /// is known for a negative sector, a zero offset, or the host's
    /// all-ones marker in the low 32 bits; a negative offset means a
    /// deleted file and is reported by its magnitude.
    pub fn get_item_offset(&self, def_ofs: i64, start_sector: i64) -> (r: Option<(i64, i64)>)
        requires
            def_ofs > i64::MIN,
        ensures
            r == (if start_sector < 0 || def_ofs == 0 || (def_ofs & 0xFFFFFFFFi64)
                == 0xFFFFFFFFi64 {
                Option::<(i64, i64)>::None
            } else if def_ofs < 0 {
                Some((((-def_ofs) as i64), start_sector))
            } else {
                Some((def_ofs, start_sector))
            }),
    {
        if start_sector < 0 || def_ofs == 0 || (def_ofs & 0xFFFFFFFFi64) == 0xFFFFFFFFi64 {
            None
        } else if def_ofs < 0 {
            Some((-def_ofs, start_sector))
        } else {
            Some((def_ofs, start_sector))
        }
    }

    /// Interprets the host's reply to a creation request: a negative id
    /// means the host refused to create the item.
    pub fn create_file(&self, result: i32) -> (r: Result<Item, XwfError>)
        ensures
            result < 0 <==> r is Err,
            r is Err ==> r == Err::<Item, XwfError>(XwfError::XwfFunctionCallFailed("create_file")),
            r matches Ok(it) ==> it.item_id == result,
    {
        if result < 0 {
            Err(XwfError::XwfFunctionCallFailed("create_file"))
        } else {
            Ok(Item::new(result))
        }
    }

    /// Interprets the host's reply to a flag update.
    pub fn set_item_info_flags(&self, host_success: i32) -> (r: Result<(), XwfError>)
        ensures
            r is Ok <==> host_success != 0,
            r is Err ==> r == Err::<(), XwfError>(
                XwfError::XwfFunctionCallFailed("set_item_information"),
            ),
    {
        if host_success != 0 {
            Ok(())
        } else {
            Err(XwfError::XwfFunctionCallFailed("set_item_information"))
        }
    }

    /// The information-type word for a flag update: one code sets the
    /// given flags, another removes them.
    pub fn set_item_info_flags_request(remove_flags: bool) -> (r: i32)
        ensures
            r == (if remove_flags {
                65i32
            } else {
                64i32
            }),
    {
        if remove_flags {
            65
        } else {
            64
        }
    }

    /// Interprets the host's reply to a classification update.
    pub fn set_item_info_classification(&self, host_success: i32) -> (r: Result<(), XwfError>)
        ensures
            r is Ok <==> host_success != 0,
            r is Err ==> r == Err::<(), XwfError>(
                XwfError::XwfFunctionCallFailed("set_item_information"),
            ),
    {
        if host_success != 0 {
            Ok(())
        } else {
            Err(XwfError::XwfFunctionCallFailed("set_item_information"))
        }
    }

    /// The buffer for a hash query: the request flags in the first four
    /// bytes, sized to hold the requested hash but never less than the
    /// flag word itself.
    pub fn get_hash_value_request(hash_size: usize, get_secondary: bool) -> (r: Vec<u8>)
        requires
            hash_size <= 64,
        ensures
            r@.len() == (if hash_size < 4 {
                4int
            } else {
                hash_size as int
            }),
            r@[0] == (if get_secondary {
                2u8
            } else {
                1u8
            }),
            forall|i: int| 1 <= i < r@.len() ==> r@[i] == 0u8,
    {
        let buf_size: usize = if hash_size < 4 {
            4
        } else {
            hash_size
        };
        let mut buf: Vec<u8> = Vec::new();
        let mut i: usize = 0;
        while i < buf_size
            invariant
                i <= buf_size,
                buf@.len() == i,
                forall|k: int| 0 <= k < i ==> buf@[k] == 0u8,
            decreases buf_size - i,
        {
            buf.push(0);
            i += 1;
        }
        let flag: u8 = if get_secondary {
            2
        } else {
            1
        };
        buf.set(0, flag);
        buf
    }

    /// Interprets the host's reply to a hash query: on success the first
    /// `hash_size` bytes of the buffer hold the hash value.
    pub fn get_hash_value(&self, hash_size: usize, host_ret: i32, buf: Vec<u8>) -> (r: Option<
        Vec<u8>,
    >)
        requires
            hash_size <= buf@.len(),
        ensures
            host_ret == 0 <==> r is None,
            r matches Some(v) ==> v@ == buf@.take(hash_size as int),
    {
        if host_ret == 0 {
            None
        } else {
            let mut v = buf;
            v.truncate(hash_size);
            proof {
                assert(v@ =~= v@);
            }
            Some(v)
        }
    }

    /// The mode word for a hash update.
    pub fn set_hash_value_request(set_secondary: bool) -> (r: u32)
        ensures
            r == (if set_secondary {
                2u32
            } else {
                1u32
            }),
    {
        if set_secondary {
            2
        } else {
            1
        }
    }

    /// Interprets the host's reply to a hash update.
    pub fn set_hash_value(&self, host_ret: i32) -> (r: Result<(), XwfError>)
        ensures
            r is Ok <==> host_ret != 0,
            r is Err ==> r == Err::<(), XwfError>(XwfError::XwfFunctionCallFailed("set_hash_value")),
    {
        if host_ret != 0 {
            Ok(())
        } else {
            Err(XwfError::XwfFunctionCallFailed("set_hash_value"))
        }
    }

    /// The wide buffer naming the report table this item is to be added
    /// to, ready for the host call.
    pub fn add_to_report_table(&self, name: &String) -> (r: Vec<u16>)
        ensures
            r@ == crate::marshal::utf16_encoded(name@).push(0u16),
    {
        crate::marshal::string_to_wchar_cstr(name)
    }
}

/// An open item: the host's non-null access handle together with the
/// item it belongs to.
#[derive(Debug, Clone, Copy, PartialEq, Eq, Structural)]
pub struct ItemHandle {
    item_handle: u64,
    item: Item,
}

impl ItemHandle {
    /// The raw handle behind this wrapper; never null.
    pub closed spec fn spec_handle(&self) -> u64 {
        self.item_handle
    }

    /// The item this handle gives access to.
    pub closed spec fn spec_item(&self) -> Item {
        self.item
    }

    /// Wraps a raw item handle; the null handle is rejected.
    pub fn new(item_handle: u64, item: Item) -> (r: Result<ItemHandle, XwfError>)
        ensures
            item_handle == 0 <==> r is Err,
            r is Err ==> r == Err::<ItemHandle, XwfError>(XwfError::InputHandleIsNull),
            r matches Ok(h) ==> h.spec_handle() == item_handle && h.spec_item() == item,
    {
        if item_handle == 0 {
            return Err(XwfError::InputHandleIsNull);
        }
        Ok(ItemHandle { item_handle, item })
    }

    /// The raw handle this wrapper was built from.
    pub fn handle(&self) -> (r: u64)
        ensures
            r == self.spec_handle(),
    {
        self.item_handle
    }

    /// The raw handle this wrapper was built from.
    pub fn get_handle(&self) -> (r: u64)
        ensures
            r == self.spec_handle(),
    {
        self.item_handle
    }

    /// The item this handle gives access to.
    pub fn item(&self) -> (r: &Item)
        ensures
            *r == self.spec_item(),
    {
        &self.item
    }

    /// Interprets the host's reply to the logical-size property query: a
    /// non-positive size is an error.
    pub fn get_logical_size(&self, prop_value: i64) -> (r: Result<i64, XwfError>)
        ensures
            r is Ok <==> prop_value > 0,
            r matches Ok(v) ==> v == prop_value,
            r is Err ==> r == Err::<i64, XwfError>(XwfError::InvalidItemSize),
    {
        if prop_value > 0 {
            Ok(prop_value)
        } else {
            Err(XwfError::InvalidItemSize)
        }
    }

    /// The host's reply to the physical-size property query, as is.
    pub fn get_physical_size(&self, prop_value: i64) -> (r: i64)
        ensures
            r == prop_value,
    {
        prop_value
    }

    /// Interprets a metadata reply: the high byte of the returned flag
    /// word marks a failed extraction; otherwise the text holds one
    /// metadata entry per line.
    pub fn get_metadata(&self, flags: u32, text: &String) -> (r: Option<Vec<String>>)
        ensures
            (flags & 0xFF000000u32) != 0 <==> r is None,
            r matches Some(v) ==> v.deep_view() == crate::marshal::spec_split_char(text@, '\n'),
    {
        if (flags & 0xFF000000u32) != 0 {
            None
        } else {
            Some(crate::marshal::split_char(text.as_str(), '\n'))
        }
    }

    /// Interprets one raw read reply: a non-positive count is the end of
    /// the data (or a read failure), a short count keeps only the bytes
    /// the host actually produced.
    pub fn read_chunk(&self, host_ret: i64, buf: Vec<u8>) -> (r: Option<Vec<u8>>)
        requires
            host_ret <= buf@.len(),
        ensures
            host_ret <= 0 <==> r is None,
            r matches Some(v) ==> v@ == buf@.take(host_ret as int),
    {
        if host_ret <= 0 {
            None
        } else {
            let mut v = buf;
            v.truncate(host_ret as usize);
            Some(v)
        }
    }

    /// Starts a chunked read over this item's data: the caller supplies
    /// the logical size the host reported, a non-positive size is
    /// rejected.
    pub fn read(&self, logical_size: i64, chunk_size: usize) -> (r: Result<ChunkedRead, XwfError>)
        requires
            chunk_size >= 1,
            logical_size <= usize::MAX,
        ensures
            r is Ok <==> logical_size > 0,
            r matches Ok(c) ==> c.wf() && c.spec_total() == logical_size && c.spec_chunk()
                == chunk_size && c.spec_data() == Seq::<u8>::empty() && !c.spec_failed(),
            r is Err ==> r == Err::<ChunkedRead, XwfError>(XwfError::InvalidItemSize),
    {
        if logical_size <= 0 {
            return Err(XwfError::InvalidItemSize);
        }
        Ok(ChunkedRead::new(logical_size as usize, chunk_size))
    }
}

/// Bytes a chunked read asks for in one host call.
pub const DEFAULT_DATA_CHUNK_SIZE: usize = 1048576;

/// The state of a chunked read: how much is wanted in all, how much each
/// request asks for, what has arrived so far, and whether the host
/// reported a failure.
///
/// The export layer drives the machine: it performs the host call that
/// `next_request` describes and hands the returned bytes to `feed`; the
/// machine decides the offsets and lengths and never requests past the
/// logical size.
pub struct ChunkedRead {
    total: usize,
    chunk_size: usize,
    data: Vec<u8>,
    failed: bool,
}

/// The smaller of two lengths.
pub open spec fn spec_min(a: int, b: int) -> int {
    if a < b {
        a
    } else {
        b
    }
}

/// How many calls a read of `total` bytes takes when every call yields a
/// full chunk but the last.
pub open spec fn spec_ceil_div(total: nat, chunk: nat) -> nat
    recommends
        chunk > 0,
{
    ((total + chunk - 1) as int / chunk as int) as nat
}

impl ChunkedRead {
    pub closed spec fn spec_total(&self) -> nat {
        self.total as nat
    }

    pub closed spec fn spec_chunk(&self) -> nat {
        self.chunk_size as nat
    }

    pub closed spec fn spec_data(&self) -> Seq<u8> {
        self.data@
    }

    pub closed spec fn spec_failed(&self) -> bool {
        self.failed
    }

    /// A read never accumulates more than it set out to read, and its
    /// chunk size is positive.
    pub open spec fn wf(&self) -> bool {
        &&& self.spec_chunk() >= 1
        &&& self.spec_data().len() <= self.spec_total()
    }

    /// Starts a read of `total` bytes in chunks of `chunk_size`.
    pub fn new(total: usize, chunk_size: usize) -> (r: ChunkedRead)
        requires
            chunk_size >= 1,
        ensures
            r.wf(),
            r.spec_total() == total,
            r.spec_chunk() == chunk_size,
            r.spec_data() == Seq::<u8>::empty(),
            !r.spec_failed(),
    {
        let r = ChunkedRead { total, chunk_size, data: Vec::new(), failed: false };
        proof {
            assert(r.spec_data() =~= Seq::<u8>::empty());
        }
        r
    }

    /// The next host call to make: the read offset and how many bytes to
    /// ask for — the chunk size, or what remains to the logical size if
    /// that is less.  There is no next call once everything has arrived
    /// or the host has failed.
    pub fn next_request(&self) -> (r: Option<(usize, usize)>)
        requires
            self.wf(),
        ensures
            r is Some <==> (!self.spec_failed() && self.spec_data().len() < self.spec_total()),
            r matches Some(q) ==> {
                &&& q.0 == self.spec_data().len()
                &&& q.1 == spec_min(
                    self.spec_chunk() as int,
                    self.spec_total() - self.spec_data().len(),
                )
                &&& q.1 >= 1
            },
    {
        if self.failed || self.data.len() >= self.total {
            None
        } else {
            let remaining = self.total - self.data.len();
            let len = if self.chunk_size < remaining {
                self.chunk_size
            } else {
                remaining
            };
            Some((self.data.len(), len))
        }
    }

    /// Accepts the bytes one host call returned.  No bytes at all is the
    /// host's failure convention and poisons the read; otherwise the
    /// bytes are appended in order.
    pub fn feed(&mut self, reply: Vec<u8>) -> (r: Result<(), XwfError>)
        requires
            old(self).wf(),
            !old(self).spec_failed(),
            old(self).spec_data().len() < old(self).spec_total(),
            reply@.len() <= spec_min(
                old(self).spec_chunk() as int,
                old(self).spec_total() - old(self).spec_data().len(),
            ),
        ensures
            final(self).wf(),
            final(self).spec_total() == old(self).spec_total(),
            final(self).spec_chunk() == old(self).spec_chunk(),
            reply@.len() == 0 ==> final(self).spec_failed() && final(self).spec_data() == old(
                self,
            ).spec_data(),
            reply@.len() > 0 ==> !final(self).spec_failed() && final(self).spec_data() == old(
                self,
            ).spec_data() + reply@,
            r is Ok <==> reply@.len() > 0,
            r is Err ==> r == Err::<(), XwfError>(XwfError::ReadItemDataFailed),
    {
        if reply.len() == 0 {
            self.failed = true;
            return Err(XwfError::ReadItemDataFailed);
        }
        let mut reply = reply;
        self.data.append(&mut reply);
        Ok(())
    }

    /// Closes the read once it can go no further.  It succeeds exactly
    /// when the host failed no call and there was anything to read at
    /// all, and then yields the bytes in order.
    pub fn finish(self) -> (r: Result<Vec<u8>, XwfError>)
        requires
            self.wf(),
            self.spec_failed() || self.spec_data().len() == self.spec_total(),
        ensures
            r is Ok <==> (!self.spec_failed() && self.spec_total() > 0),
            r matches Ok(v) ==> v@ == self.spec_data(),
            r is Err ==> r == Err::<Vec<u8>, XwfError>(XwfError::ReadItemDataFailed),
    {
        if self.failed || self.data.len() == 0 {
            Err(XwfError::ReadItemDataFailed)
        } else {
            Ok(self.data)
        }
    }
}

/// Runs a whole chunked read against an in-memory source that, like the
/// host, yields the requested bytes at each offset.  The read makes one
/// call per chunk — `ceil(len / chunk_size)` in all — and returns the
/// source's bytes exactly, in order, together with that call count.
pub fn read_from_source(source: &Vec<u8>, chunk_size: usize) -> (r: (Vec<u8>, usize))
    requires
        chunk_size >= 1,
        source@.len() < usize::MAX,
    ensures
        r.0@ == source@,
        r.1 == spec_ceil_div(source@.len(), chunk_size as nat),
{
    let n = source.len();
    let mut plan = ChunkedRead::new(n, chunk_size);
    let mut calls: usize = 0;
    proof {
        assert(plan.spec_data() =~= source@.take(plan.spec_data().len() as int));
        if n == 0 {
            vstd::arithmetic::div_mod::lemma_basic_div((chunk_size - 1) as int, chunk_size as int);
        }
    }
    loop
        invariant
            plan.wf(),
            !plan.spec_failed(),
            plan.spec_total() == n,
            plan.spec_chunk() == chunk_size,
            chunk_size >= 1,
            source@.len() == n,
            n < usize::MAX,
            calls <= n,
            plan.spec_data() == source@.take(plan.spec_data().len() as int),
            plan.spec_data().len() < n ==> plan.spec_data().len() == calls * chunk_size,
            plan.spec_data().len() == n ==> calls == spec_ceil_div(n as nat, chunk_size as nat),
        decreases n - plan.spec_data().len(),
    {
        let req = plan.next_request();
        match req {
            None => {
                proof {
                    assert(plan.spec_data().len() == n);
                    assert(plan.spec_data() =~= source@);
                }
                let data = match plan.finish() {
                    Ok(d) => d,
                    Err(_) => {
                        proof {
                            assert(n == 0);
                            assert(source@ =~= Seq::<u8>::empty());
                            vstd::arithmetic::div_mod::lemma_basic_div(
                                (chunk_size - 1) as int,
                                chunk_size as int,
                            );
                        }
                        Vec::new()
                    },
                };
                return (data, calls);
            },
            Some((offset, len)) => {
                let ghost off = plan.spec_data().len() as int;
                let chunk = vstd::slice::slice_to_vec(
                    vstd::slice::slice_subrange(source.as_slice(), offset, offset + len),
                );
                proof {
                    assert(chunk@ == source@.subrange(off, off + len));
                    assert(chunk@.len() == len);
                }
                let res = plan.feed(chunk);
                proof {
                    assert(res is Ok);
                    assert(plan.spec_data() =~= source@.take(off + len));
                    if plan.spec_data().len() < n {
                        assert(len == chunk_size);
                        assert(off == calls * chunk_size);
                        assert(off + len == (calls + 1) * chunk_size) by (nonlinear_arith)
                            requires
                                off == calls * chunk_size,
                                len == chunk_size,
                        ;
                    } else {
                        assert(off + len == n);
                        if len == chunk_size {
                            assert(off == calls * chunk_size);
                            assert(n == (calls + 1) * chunk_size) by (nonlinear_arith)
                                requires
                                    off == calls * chunk_size,
                                    len == chunk_size,
                                    off + len == n,
                            ;
                            assert(spec_ceil_div(n as nat, chunk_size as nat) == calls + 1)
                                by (nonlinear_arith)
                                requires
                                    n == (calls + 1) * chunk_size,
                                    chunk_size >= 1,
                            ;
                        } else {
                            assert(off == calls * chunk_size);
                            assert(len < chunk_size);
                            assert(len >= 1);
                            assert(spec_ceil_div(n as nat, chunk_size as nat) == calls + 1)
                                by (nonlinear_arith)
                                requires
                                    n == off + len,
                                    off == calls * chunk_size,
                                    1 <= len < chunk_size,
                                    chunk_size >= 1,
                            ;
                        }
                    }
                    assert(calls < n) by (nonlinear_arith)
                        requires
                            off == calls * chunk_size,
                            off + len <= n,
                            1 <= len,
                            chunk_size >= 1,
                    ;
                }
                calls = calls + 1;
            },
        }
    }
}

/// What the timestamp query yields for one info type: nothing for a
/// non-time info type or a zero or negative file time; otherwise the
/// decoded instant, marked `NoTimezone` when the relevant not-in-UTC flag
/// is set on the item, else as UTC or for-local-display as requested.
pub open spec fn spec_item_info_time(
    infotype: crate::types::XwfItemInfoTypes,
    local_time: bool,
    flag_bits: u64,
    raw: i64,
) -> Option<crate::datetime::XwfDateTime> {
    let is_time = {
        ||| infotype == crate::types::XwfItemInfoTypes::CreationTime
        ||| infotype == crate::types::XwfItemInfoTypes::ModificationTime
        ||| infotype == crate::types::XwfItemInfoTypes::LastAccessTime
        ||| infotype == crate::types::XwfItemInfoTypes::EntryModificationTime
        ||| infotype == crate::types::XwfItemInfoTypes::DeletionTime
        ||| infotype == crate::types::XwfItemInfoTypes::InternalCreationTime
    };
    if !is_time || raw <= 0 {
        None
    } else {
        let mask = if infotype == crate::types::XwfItemInfoTypes::InternalCreationTime {
            crate::flags::ITEM_INTERNAL_CREATION_NOT_IN_UTC
        } else {
            crate::flags::ITEM_FS_TIMESTAMPS_NOT_IN_UTC
        };
        let ts = crate::datetime::XwfTimestamp {
            secs: (raw / crate::datetime::FILETIME_TICKS_PER_SEC
                - crate::datetime::FILETIME_UNIX_DIFF_SECS) as i64,
            nanos: ((raw % crate::datetime::FILETIME_TICKS_PER_SEC) * 100) as u32,
        };
        if flag_bits & mask == mask {
            Some(crate::datetime::XwfDateTime::NoTimezone(ts))
        } else if local_time {
            Some(crate::datetime::XwfDateTime::Local(ts))
        } else {
            Some(crate::datetime::XwfDateTime::Utc(ts))
        }
    }
}

impl Item {
    /// The flag-and-length word for an item-type query over a buffer of
    /// 256 wide characters, asking for the textual description when
    /// `long_desc` is set.
    pub fn item_type_request(long_desc: bool) -> (r: u32)
        ensures
            r == (if long_desc {
                256u32 | crate::flags::ITEM_TYPE_TEXTUAL_DESCRIPTION
            } else {
                256u32
            }),
    {
        if long_desc {
            256u32 | crate::flags::ITEM_TYPE_TEXTUAL_DESCRIPTION
        } else {
            256u32
        }
    }

    /// The flag-and-length word for a category query over a buffer of
    /// 256 wide characters: type status and textual category together.
    pub fn item_category_request() -> (r: u32)
        ensures
            r == 256u32 | crate::flags::ITEM_TYPE_RECEIVE_TYPE_STATUS
                | crate::flags::ITEM_TYPE_TEXTUAL_CATEGORY,
    {
        256u32 | crate::flags::ITEM_TYPE_RECEIVE_TYPE_STATUS
            | crate::flags::ITEM_TYPE_TEXTUAL_CATEGORY
    }

    /// Decodes the item-type reply buffer: the text up to its NUL
    /// terminator.
    pub fn get_item_type(&self, buf: &[u16]) -> (r: Result<String, XwfError>)
        ensures
            r matches Ok(s) && s@ == crate::marshal::utf16_decoded(
                crate::marshal::spec_nul_prefix(buf@),
            ),
    {
        Ok(crate::marshal::wchar_str_to_string(buf))
    }

    /// Decodes the category reply: an empty buffer means the call
    /// failed; otherwise the status word carries the verification status
    /// and format consistency, and the buffer the textual category.
    pub fn get_item_category(&self, status: i32, buf: &[u16]) -> (r: Result<
        (
            crate::types::FileTypeStatus,
            crate::types::FileFormatConsistency,
            crate::types::FileTypeCategory,
        ),
        XwfError,
    >)
        requires
            buf@.len() >= 1,
        ensures
            buf@[0] == 0 ==> r == Err::<
                (
                    crate::types::FileTypeStatus,
                    crate::types::FileFormatConsistency,
                    crate::types::FileTypeCategory,
                ),
                XwfError,
            >(XwfError::XwfFunctionCallFailed("get_item_type")),
            buf@[0] != 0 ==> (match (
                crate::types::spec_type_status_from(status),
                crate::types::spec_consistency_from(status),
            ) {
                (Ok(st), Ok(con)) => r matches Ok(v) && v.0 == st && v.1 == con && v.2
                    == crate::types::spec_category_from(
                    crate::marshal::utf16_decoded(crate::marshal::spec_nul_prefix(buf@)),
                ),
                (Err(e), _) => r == Err::<
                    (
                        crate::types::FileTypeStatus,
                        crate::types::FileFormatConsistency,
                        crate::types::FileTypeCategory,
                    ),
                    XwfError,
                >(e),
                (Ok(_), Err(e)) => r == Err::<
                    (
                        crate::types::FileTypeStatus,
                        crate::types::FileFormatConsistency,
                        crate::types::FileTypeCategory,
                    ),
                    XwfError,
                >(e),
            }),
    {
        if buf[0] == 0 {
            return Err(XwfError::XwfFunctionCallFailed("get_item_type"));
        }
        let st = crate::types::FileTypeStatus::try_from(status)?;
        let con = crate::types::FileFormatConsistency::try_from(status)?;
        let text = crate::marshal::wchar_str_to_string(buf);
        let cat = crate::types::FileTypeCategory::from_description(&text);
        Ok((st, con, cat))
    }

    /// Decodes the report-table association reply for this item: the
    /// host's count of names, and the buffer they were written into as a
    /// comma-and-space separated list.  A decoded text that fills the
    /// whole buffer, or a count that does not match the list, means the
    /// buffer was too small for the content.
    pub fn get_report_tables(&self, num_assocs: i32, buf: &[u16]) -> (r: Result<
        Vec<String>,
        XwfError,
    >)
        requires
            num_assocs >= 0,
        ensures
            num_assocs == 0 ==> (r matches Ok(v) && v@.len() == 0),
            num_assocs > 0 && crate::marshal::utf16_decoded(
                crate::marshal::spec_nul_prefix(buf@),
            ).len() == buf@.len() ==> r == Err::<Vec<String>, XwfError>(
                XwfError::GivenBufferToSmallForContent,
            ),
            num_assocs > 0 && crate::marshal::utf16_decoded(
                crate::marshal::spec_nul_prefix(buf@),
            ).len() != buf@.len() ==> {
                let decoded = crate::marshal::utf16_decoded(
                    crate::marshal::spec_nul_prefix(buf@),
                );
                if crate::marshal::spec_split_commas(decoded).len() == num_assocs {
                    r matches Ok(v) && v.deep_view() == crate::marshal::spec_split_commas(decoded)
                } else {
                    r == Err::<Vec<String>, XwfError>(XwfError::GivenBufferToSmallForContent)
                }
            },
    {
        if num_assocs == 0 {
            return Ok(Vec::new());
        }
        let assocs = crate::marshal::wchar_str_to_string(buf);
        if assocs.as_str().unicode_len() == buf.len() {
            return Err(XwfError::GivenBufferToSmallForContent);
        }
        crate::marshal::split_values_by_comma(&assocs, num_assocs as usize)
    }

    /// Decodes the hash-set association reply for this item, under the
    /// same buffer conventions as the report-table reply; a negative
    /// count is the host's failure convention for this call.
    pub fn get_hash_sets(&self, num_assocs: i32, buf: &[u16]) -> (r: Result<Vec<String>, XwfError>)
        ensures
            num_assocs < 0 ==> r == Err::<Vec<String>, XwfError>(
                XwfError::XwfFunctionCallFailed("get_hashset_assocs"),
            ),
            num_assocs == 0 ==> (r matches Ok(v) && v@.len() == 0),
            num_assocs > 0 && crate::marshal::utf16_decoded(
                crate::marshal::spec_nul_prefix(buf@),
            ).len() == buf@.len() ==> r == Err::<Vec<String>, XwfError>(
                XwfError::GivenBufferToSmallForContent,
            ),
            num_assocs > 0 && crate::marshal::utf16_decoded(
                crate::marshal::spec_nul_prefix(buf@),
            ).len() != buf@.len() ==> {
                let decoded = crate::marshal::utf16_decoded(
                    crate::marshal::spec_nul_prefix(buf@),
                );
                if crate::marshal::spec_split_commas(decoded).len() == num_assocs {
                    r matches Ok(v) && v.deep_view() == crate::marshal::spec_split_commas(decoded)
                } else {
                    r == Err::<Vec<String>, XwfError>(XwfError::GivenBufferToSmallForContent)
                }
            },
    {
        if num_assocs < 0 {
            return Err(XwfError::XwfFunctionCallFailed("get_hashset_assocs"));
        }
        if num_assocs == 0 {
            return Ok(Vec::new());
        }
        let assocs = crate::marshal::wchar_str_to_string(buf);
        if assocs.as_str().unicode_len() == buf.len() {
            return Err(XwfError::GivenBufferToSmallForContent);
        }
        crate::marshal::split_values_by_comma(&assocs, num_assocs as usize)
    }

    /// Splits the extracted-metadata text into entries: one entry per
    /// line, carriage returns dropped, empty lines skipped.
    pub fn get_extracted_metadata(&self, text: &String) -> (r: Vec<String>)
        ensures
            r.deep_view() == crate::marshal::spec_split_char(text@, '\n').map_values(
                |p: Seq<char>| p.filter(|c: char| c != '\r'),
            ).filter(|p: Seq<char>| p.len() != 0),
    {
        proof {
            reveal(Seq::filter);
        }
        let lines = crate::marshal::split_char(text.as_str(), '\n');
        let ghost mapped = crate::marshal::spec_split_char(text@, '\n').map_values(
            |p: Seq<char>| p.filter(|c: char| c != '\r'),
        );
        let mut r: Vec<String> = Vec::new();
        let mut i: usize = 0;
        proof {
            assert(mapped.take(0) =~= Seq::<Seq<char>>::empty());
            assert(r.deep_view() =~= mapped.take(0).filter(|p: Seq<char>| p.len() != 0));
        }
        while i < lines.len()
            invariant
                lines.deep_view() == crate::marshal::spec_split_char(text@, '\n'),
                mapped == crate::marshal::spec_split_char(text@, '\n').map_values(
                    |p: Seq<char>| p.filter(|c: char| c != '\r'),
                ),
                i <= lines@.len(),
                mapped.len() == lines@.len(),
                r.deep_view() == mapped.take(i as int).filter(|p: Seq<char>| p.len() != 0),
            decreases lines@.len() - i,
        {
            let parts = crate::marshal::split_char(lines[i].as_str(), '\r');
            let mut line = String::new();
            let mut j: usize = 0;
            proof {
                assert(parts.deep_view().take(0) =~= Seq::<Seq<char>>::empty());
                assert(crate::marshal::spec_concat_seqs(Seq::<Seq<char>>::empty()) =~= Seq::<
                    char,
                >::empty());
                assert(line@ =~= crate::marshal::spec_concat_seqs(parts.deep_view().take(0)));
            }
            while j < parts.len()
                invariant
                    i < lines@.len(),
                    parts.deep_view() == crate::marshal::spec_split_char(
                        lines@[i as int]@,
                        '\r',
                    ),
                    j <= parts@.len(),
                    parts.deep_view().len() == parts@.len(),
                    line@ == crate::marshal::spec_concat_seqs(parts.deep_view().take(j as int)),
                decreases parts@.len() - j,
            {
                line.append(parts[j].as_str());
                proof {
                    crate::marshal::lemma_concat_snoc(
                        parts.deep_view().take(j as int),
                        parts.deep_view()[j as int],
                    );
                    assert(parts.deep_view().take(j + 1) =~= parts.deep_view().take(
                        j as int,
                    ).push(parts.deep_view()[j as int]));
                    assert(parts.deep_view()[j as int] == parts@[j as int]@);
                }
                j += 1;
            }
            proof {
                assert(parts.deep_view().take(parts@.len() as int) =~= parts.deep_view());
                crate::marshal::lemma_concat_split_char(lines@[i as int]@, '\r');
                assert(line@ == lines@[i as int]@.filter(|c: char| c != '\r'));
                assert(mapped[i as int] == lines.deep_view()[i as int].filter(
                    |c: char| c != '\r',
                ));
                assert(lines.deep_view()[i as int] == lines@[i as int]@);
                assert(mapped.take(i + 1).drop_last() =~= mapped.take(i as int));
                assert(mapped.take(i + 1).last() == mapped[i as int]);
                reveal(Seq::filter);
            }
            let keep = line.as_str().unicode_len() != 0;
            if keep {
                let ghost before = r.deep_view();
                r.push(line);
                proof {
                    assert(r.deep_view() =~= before.push(mapped[i as int]));
                    assert(mapped.take(i + 1).filter(|p: Seq<char>| p.len() != 0) == mapped.take(
                        i as int,
                    ).filter(|p: Seq<char>| p.len() != 0).push(mapped[i as int]));
                }
            } else {
                proof {
                    assert(mapped[i as int].len() == 0);
                    assert(mapped.take(i + 1).filter(|p: Seq<char>| p.len() != 0) == mapped.take(
                        i as int,
                    ).filter(|p: Seq<char>| p.len() != 0));
                }
            }
            i += 1;
        }
        proof {
            assert(mapped.take(mapped.len() as int) =~= mapped);
        }
        r
    }

    /// Decodes one timestamp reply from the item-information query; see
    /// `spec_item_info_time` for the exact decoding.
    pub fn get_item_info_time(
        &self,
        infotype: crate::types::XwfItemInfoTypes,
        local_time: bool,
        flags: &crate::flags::ItemInfoFlags,
        raw: i64,
    ) -> (r: Option<crate::datetime::XwfDateTime>)
        ensures
            r == spec_item_info_time(infotype, local_time, flags.bits, raw),
    {
        let is_time = match infotype {
            crate::types::XwfItemInfoTypes::CreationTime => true,
            crate::types::XwfItemInfoTypes::ModificationTime => true,
            crate::types::XwfItemInfoTypes::LastAccessTime => true,
            crate::types::XwfItemInfoTypes::EntryModificationTime => true,
            crate::types::XwfItemInfoTypes::DeletionTime => true,
            crate::types::XwfItemInfoTypes::InternalCreationTime => true,
            _ => false,
        };
        if !is_time || raw <= 0 {
            return None;
        }
        let mask: u64 = match infotype {
            crate::types::XwfItemInfoTypes::InternalCreationTime => crate::flags::ITEM_INTERNAL_CREATION_NOT_IN_UTC,
            _ => crate::flags::ITEM_FS_TIMESTAMPS_NOT_IN_UTC,
        };
        let ts = crate::datetime::XwfTimestamp::from_filetime(raw);
        if flags.contains(mask) {
            Some(crate::datetime::XwfDateTime::NoTimezone(ts))
        } else if local_time {
            Some(crate::datetime::XwfDateTime::Local(ts))
        } else {
            Some(crate::datetime::XwfDateTime::Utc(ts))
        }
    }
}

/// The first item on the walk from `start` towards the root whose flag
/// word has the directory bit set; the walk follows the parent table and
/// ends at a negative id, an id without a flags entry, or when the fuel
/// runs out on a cyclic table.
pub open spec fn spec_first_dir(
    parents: Seq<i32>,
    flags: Seq<u64>,
    start: i32,
    fuel: nat,
) -> Option<i32>
    decreases fuel,
{
    if fuel == 0 || start < 0 || start >= flags.len() {
        None
    } else if flags[start as int] & crate::flags::ITEM_IS_DIRECTORY
        == crate::flags::ITEM_IS_DIRECTORY {
        Some(start)
    } else if start < parents.len() {
        spec_first_dir(parents, flags, parents[start as int], (fuel - 1) as nat)
    } else {
        None
    }
}

/// The pieces joined with a backslash between each pair.
pub open spec fn spec_join_backslash(parts: Seq<Seq<char>>) -> Seq<char>
    decreases parts.len(),
{
    if parts.len() == 0 {
        Seq::empty()
    } else if parts.len() == 1 {
        parts[0]
    } else {
        parts[0] + seq!['\\'] + spec_join_backslash(parts.drop_first())
    }
}

/// Appending one more piece extends the join by a separator and that
/// piece; a first piece stands alone.
pub proof fn lemma_join_backslash_snoc(parts: Seq<Seq<char>>, x: Seq<char>)
    ensures
        parts.len() == 0 ==> spec_join_backslash(parts.push(x)) == x,
        parts.len() > 0 ==> spec_join_backslash(parts.push(x)) == spec_join_backslash(parts)
            + seq!['\\'] + x,
    decreases parts.len(),
{
    if parts.len() == 0 {
        assert(parts.push(x)[0] == x);
    } else if parts.len() == 1 {
        assert(parts.push(x)[0] == parts[0]);
        assert(parts.push(x).drop_first() =~= seq![x]);
        assert(spec_join_backslash(seq![x]) == x);
        assert(spec_join_backslash(parts) == parts[0]);
    } else {
        lemma_join_backslash_snoc(parts.drop_first(), x);
        assert(parts.push(x)[0] == parts[0]);
        assert(parts.push(x).drop_first() =~= parts.drop_first().push(x));
        assert(spec_join_backslash(parts.push(x)) == parts[0] + seq!['\\']
            + spec_join_backslash(parts.drop_first().push(x)));
        assert(parts[0] + seq!['\\'] + (spec_join_backslash(parts.drop_first()) + seq!['\\']
            + x) =~= (parts[0] + seq!['\\'] + spec_join_backslash(parts.drop_first()))
            + seq!['\\'] + x);
    }
}

impl Item {
    /// The nearest directory at or above this item: the item itself when
    /// its directory flag is set, else the first such ancestor on the
    /// parent table.
    pub fn get_parent_dir(&self, parents: &Vec<i32>, flags: &Vec<u64>) -> (r: Option<Item>)
        requires
            parents@.len() == flags@.len(),
            parents@.len() <= i32::MAX,
        ensures
            r.is_some() <==> spec_first_dir(
                parents@,
                flags@,
                self.item_id,
                parents@.len() + 1,
            ) is Some,
            r matches Some(it) ==> Some(it.item_id) == spec_first_dir(
                parents@,
                flags@,
                self.item_id,
                parents@.len() + 1,
            ),
    {
        let ghost goal = spec_first_dir(parents@, flags@, self.item_id, parents@.len() + 1);
        let mut cur: i32 = self.item_id;
        let mut fuel: usize = parents.len() + 1;
        proof {
            assert(goal == spec_first_dir(parents@, flags@, cur, fuel as nat));
        }
        loop
            invariant
                parents@.len() == flags@.len(),
                parents@.len() <= i32::MAX,
                goal == spec_first_dir(parents@, flags@, self.item_id, parents@.len() + 1),
                goal == spec_first_dir(parents@, flags@, cur, fuel as nat),
            decreases fuel,
        {
            if fuel == 0 || cur < 0 || cur as usize >= flags.len() {
                proof {
                    assert(goal is None);
                }
                return None;
            }
            if flags[cur as usize] & crate::flags::ITEM_IS_DIRECTORY
                == crate::flags::ITEM_IS_DIRECTORY {
                proof {
                    assert(goal == Some(cur));
                }
                return Some(Item::new(cur));
            }
            cur = parents[cur as usize];
            fuel = fuel - 1;
        }
    }

    /// The path of this item: a backslash, then the names of its
    /// ancestors from the one just below the root down to the item
    /// itself, joined with backslashes.  The tables must describe the
    /// snapshot: one parent and one name per item, parents pointing
    /// inside the table or negative.
    pub fn get_path(&self, parents: &Vec<i32>, names: &Vec<String>) -> (r: String)
        requires
            parents@.len() == names@.len(),
            parents@.len() <= i32::MAX,
            0 <= self.item_id < parents@.len(),
            forall|j: int| 0 <= j < parents@.len() ==> #[trigger] parents@[j] < parents@.len(),
        ensures
            r@ == seq!['\\'] + spec_join_backslash(
                spec_chain(parents@, self.item_id, parents@.len() + 1).drop_last().map_values(
                    |id: i32| names@[id as int]@,
                ).reverse(),
            ),
    {
        let ghost chain = spec_chain(parents@, self.item_id, parents@.len() + 1);
        let mut ids: Vec<i32> = Vec::new();
        let mut cur: i32 = self.item_id;
        let mut fuel: usize = parents.len() + 1;
        proof {
            assert(ids@ =~= Seq::<i32>::empty());
            assert(chain == ids@ + spec_chain(parents@, cur, fuel as nat));
            assert(forall|j: int| 0 <= j < ids@.len() ==> 0 <= #[trigger] ids@[j]
                < parents@.len());
        }
        while fuel > 0 && cur >= 0
            invariant
                parents@.len() == names@.len(),
                parents@.len() <= i32::MAX,
                forall|j: int| 0 <= j < parents@.len() ==> #[trigger] parents@[j] < parents@.len(),
                chain == ids@ + spec_chain(parents@, cur, fuel as nat),
                forall|j: int| 0 <= j < ids@.len() ==> 0 <= #[trigger] ids@[j] < parents@.len(),
                cur < parents@.len(),
            decreases fuel,
        {
            let ghost before = ids@;
            ids.push(cur);
            proof {
                assert(ids@ =~= before.push(cur));
                assert(spec_chain(parents@, cur, fuel as nat) == seq![cur] + spec_chain(
                    parents@,
                    parents@[cur as int],
                    (fuel - 1) as nat,
                ));
                assert(before.push(cur) =~= before + seq![cur]);
                assert(before + seq![cur] + spec_chain(
                    parents@,
                    parents@[cur as int],
                    (fuel - 1) as nat,
                ) =~= before + (seq![cur] + spec_chain(
                    parents@,
                    parents@[cur as int],
                    (fuel - 1) as nat,
                )));
            }
            cur = parents[cur as usize];
            fuel = fuel - 1;
        }
        proof {
            if cur >= 0 {
                assert(fuel == 0);
            }
            assert(spec_chain(parents@, cur, fuel as nat) =~= Seq::<i32>::empty());
            assert(ids@ + Seq::<i32>::empty() =~= ids@);
            assert(chain == ids@);
            assert(chain.len() >= 1) by {
                assert(chain == seq![self.item_id] + spec_chain(
                    parents@,
                    parents@[self.item_id as int],
                    parents@.len() as nat,
                ));
            }
        }
        let ghost comps = chain.drop_last().map_values(|id: i32| names@[id as int]@).reverse();
        let n = ids.len();
        let mut path = "\\".to_owned();
        proof {
            reveal_strlit("\\");
            assert("\\"@ =~= seq!['\\']);
            assert(comps.len() == n - 1);
            assert(comps.take(0) =~= Seq::<Seq<char>>::empty());
            assert(spec_join_backslash(Seq::<Seq<char>>::empty()) =~= Seq::<char>::empty());
            assert(path@ =~= seq!['\\'] + spec_join_backslash(comps.take(0)));
        }
        let mut j: usize = 0;
        while j + 1 < n
            invariant
                parents@.len() == names@.len(),
                chain == ids@,
                n == ids@.len(),
                n >= 1,
                forall|k: int| 0 <= k < ids@.len() ==> 0 <= #[trigger] ids@[k] < parents@.len(),
                comps == chain.drop_last().map_values(|id: i32| names@[id as int]@).reverse(),
                comps.len() == n - 1,
                j <= n - 1,
                path@ == seq!['\\'] + spec_join_backslash(comps.take(j as int)),
            decreases n - 1 - j,
        {
            if j > 0 {
                path.append("\\");
            }
            let idx = ids[n - 2 - j];
            path.append(names[idx as usize].as_str());
            proof {
                reveal_strlit("\\");
                assert("\\"@ =~= seq!['\\']);
                lemma_join_backslash_snoc(comps.take(j as int), comps[j as int]);
                assert(comps.take(j + 1) =~= comps.take(j as int).push(comps[j as int]));
                assert(comps[j as int] == chain.drop_last().map_values(
                    |id: i32| names@[id as int]@,
                )[n - 2 - j]);
                assert(chain.drop_last().map_values(|id: i32| names@[id as int]@)[n - 2 - j]
                    == names@[ids@[n - 2 - j] as int]@);
                if j == 0 {
                    assert(comps.take(0) =~= Seq::<Seq<char>>::empty());
                    assert(spec_join_backslash(comps.take(j + 1)) == comps[j as int]);
                    assert(path@ =~= seq!['\\'] + spec_join_backslash(comps.take(j + 1)));
                } else {
                    assert(spec_join_backslash(comps.take(j + 1)) == spec_join_backslash(
                        comps.take(j as int),
                    ) + seq!['\\'] + comps[j as int]);
                    assert(path@ =~= seq!['\\'] + spec_join_backslash(comps.take(j + 1)));
                }
            }
            j += 1;
        }
        proof {
            assert(comps.take(comps.len() as int) =~= comps);
        }
        path
    }
}

} // verus!
