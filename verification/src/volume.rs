//! Volume handles, snapshot selection, item counting, and the hash types
//! a volume snapshot can carry.

use vstd::prelude::*;
use crate::error::XwfError;
use crate::item::Item;

verus! {

/// The hash algorithms the host can compute for snapshot items.
#[derive(Debug, Clone, Copy, PartialEq, Eq, Structural)]
pub enum HashType {
    CS8,
    CS16,
    CS32,
    CS64,
    CRC16,
    CRC32,
    MD5,
    SHA1,
    SHA256,
    RIPEMD128,
    RIPEMD160,
    MD4,
    ED2K,
    ADLER32,
    TigerTreeHash,
    Tiger128,
    Tiger160,
    Tiger192,
}

/// Which hash type the raw code names; undefined codes are rejected.
pub open spec fn spec_hash_type_from(value: i64) -> Result<HashType, ()> {
    if value == 1 {
        Ok(HashType::CS8)
    } else if value == 2 {
        Ok(HashType::CS16)
    } else if value == 3 {
        Ok(HashType::CS32)
    } else if value == 4 {
        Ok(HashType::CS64)
    } else if value == 5 {
        Ok(HashType::CRC16)
    } else if value == 6 {
        Ok(HashType::CRC32)
    } else if value == 7 {
        Ok(HashType::MD5)
    } else if value == 8 {
        Ok(HashType::SHA1)
    } else if value == 9 {
        Ok(HashType::SHA256)
    } else if value == 10 {
        Ok(HashType::RIPEMD128)
    } else if value == 11 {
        Ok(HashType::RIPEMD160)
    } else if value == 12 {
        Ok(HashType::MD4)
    } else if value == 13 {
        Ok(HashType::ED2K)
    } else if value == 14 {
        Ok(HashType::ADLER32)
    } else if value == 15 {
        Ok(HashType::TigerTreeHash)
    } else if value == 16 {
        Ok(HashType::Tiger128)
    } else if value == 17 {
        Ok(HashType::Tiger160)
    } else if value == 18 {
        Ok(HashType::Tiger192)
    } else {
        Err(())
    }
}

impl HashType {
    /// The raw code of this hash type.
    #[verifier::allow_in_spec]
    pub fn code(self) -> i64
        returns (match self {
            HashType::CS8 => 1i64,
            HashType::CS16 => 2i64,
            HashType::CS32 => 3i64,
            HashType::CS64 => 4i64,
            HashType::CRC16 => 5i64,
            HashType::CRC32 => 6i64,
            HashType::MD5 => 7i64,
            HashType::SHA1 => 8i64,
            HashType::SHA256 => 9i64,
            HashType::RIPEMD128 => 10i64,
            HashType::RIPEMD160 => 11i64,
            HashType::MD4 => 12i64,
            HashType::ED2K => 13i64,
            HashType::ADLER32 => 14i64,
            HashType::TigerTreeHash => 15i64,
            HashType::Tiger128 => 16i64,
            HashType::Tiger160 => 17i64,
            HashType::Tiger192 => 18i64,
        })
    {
        match self {
            HashType::CS8 => 1,
            HashType::CS16 => 2,
            HashType::CS32 => 3,
            HashType::CS64 => 4,
            HashType::CRC16 => 5,
            HashType::CRC32 => 6,
            HashType::MD5 => 7,
            HashType::SHA1 => 8,
            HashType::SHA256 => 9,
            HashType::RIPEMD128 => 10,
            HashType::RIPEMD160 => 11,
            HashType::MD4 => 12,
            HashType::ED2K => 13,
            HashType::ADLER32 => 14,
            HashType::TigerTreeHash => 15,
            HashType::Tiger128 => 16,
            HashType::Tiger160 => 17,
            HashType::Tiger192 => 18,
        }
    }

    /// Decodes the raw hash-type code.
    pub fn try_from(value: i64) -> (r: Result<HashType, ()>)
        ensures
            r == spec_hash_type_from(value),
    {
        match value {
            1 => Ok(HashType::CS8),
            2 => Ok(HashType::CS16),
            3 => Ok(HashType::CS32),
            4 => Ok(HashType::CS64),
            5 => Ok(HashType::CRC16),
            6 => Ok(HashType::CRC32),
            7 => Ok(HashType::MD5),
            8 => Ok(HashType::SHA1),
            9 => Ok(HashType::SHA256),
            10 => Ok(HashType::RIPEMD128),
            11 => Ok(HashType::RIPEMD160),
            12 => Ok(HashType::MD4),
            13 => Ok(HashType::ED2K),
            14 => Ok(HashType::ADLER32),
            15 => Ok(HashType::TigerTreeHash),
            16 => Ok(HashType::Tiger128),
            17 => Ok(HashType::Tiger160),
            18 => Ok(HashType::Tiger192),
            _ => Err(()),
        }
    }

    /// How many bytes a value of this hash type occupies.
    #[verifier::allow_in_spec]
    pub fn get_hash_size(&self) -> usize
        returns (match *self {
            HashType::CS8 => 1usize,
            HashType::CS16 => 2usize,
            HashType::CS32 => 4usize,
            HashType::CS64 => 8usize,
            HashType::CRC16 => 2usize,
            HashType::CRC32 => 4usize,
            HashType::MD5 => 16usize,
            HashType::SHA1 => 20usize,
            HashType::SHA256 => 32usize,
            HashType::RIPEMD128 => 16usize,
            HashType::RIPEMD160 => 20usize,
            HashType::MD4 => 16usize,
            HashType::ED2K => 16usize,
            HashType::ADLER32 => 4usize,
            HashType::TigerTreeHash => 24usize,
            HashType::Tiger128 => 16usize,
            HashType::Tiger160 => 20usize,
            HashType::Tiger192 => 24usize,
        })
    {
        match *self {
            HashType::CS8 => 1,
            HashType::CS16 => 2,
            HashType::CS32 => 4,
            HashType::CS64 => 8,
            HashType::CRC16 => 2,
            HashType::CRC32 => 4,
            HashType::MD5 => 16,
            HashType::SHA1 => 20,
            HashType::SHA256 => 32,
            HashType::RIPEMD128 => 16,
            HashType::RIPEMD160 => 20,
            HashType::MD4 => 16,
            HashType::ED2K => 16,
            HashType::ADLER32 => 4,
            HashType::TigerTreeHash => 24,
            HashType::Tiger128 => 16,
            HashType::Tiger160 => 20,
            HashType::Tiger192 => 24,
        }
    }
}

/// Yields the items of a snapshot by id, in order, over a known id range.
pub struct ItemIterator {
    idx: i32,
    max: i32,
}

impl ItemIterator {
    /// The id the next call of `next` will yield.
    pub closed spec fn spec_idx(&self) -> i32 {
        self.idx
    }

    /// The end of the range, exclusive.
    pub closed spec fn spec_max(&self) -> i32 {
        self.max
    }

    /// Yields the items with ids in `min..max`.
    pub fn create(min: i32, max: i32) -> (r: ItemIterator)
        ensures
            r.spec_idx() == min,
            r.spec_max() == max,
    {
        ItemIterator { idx: min, max }
    }

    /// The next item of the range, until it is exhausted.
    pub fn next(&mut self) -> (r: Option<Item>)
        ensures
            final(self).spec_max() == old(self).spec_max(),
            old(self).spec_idx() < old(self).spec_max() ==> {
                &&& r matches Some(it) && it.item_id == old(self).spec_idx()
                &&& final(self).spec_idx() == old(self).spec_idx() + 1
            },
            old(self).spec_idx() >= old(self).spec_max() ==> r is None && final(self).spec_idx()
                == old(self).spec_idx(),
    {
        if self.idx < self.max {
            let i = self.idx;
            self.idx += 1;
            Some(Item::new(i))
        } else {
            None
        }
    }
}

/// A non-null handle to a volume whose snapshot the host is showing.
#[derive(Debug, Clone, Copy, PartialEq, Eq, Structural)]
pub struct Volume {
    volume_handle: u64,
}

impl Volume {
    /// The raw handle behind this wrapper; never null.
    pub closed spec fn spec_handle(&self) -> u64 {
        self.volume_handle
    }

    /// Wraps a raw volume handle; the null handle is rejected.
    pub fn new(volume_handle: u64) -> (r: Result<Volume, XwfError>)
        ensures
            volume_handle == 0 <==> r is Err,
            r is Err ==> r == Err::<Volume, XwfError>(XwfError::InputHandleIsNull),
            r matches Ok(v) ==> v.spec_handle() == volume_handle,
    {
        if volume_handle == 0 {
            return Err(XwfError::InputHandleIsNull);
        }
        Ok(Volume { volume_handle })
    }

    /// The raw handle this wrapper was built from.
    pub fn handle(&self) -> (r: u64)
        ensures
            r == self.spec_handle(),
    {
        self.volume_handle
    }

    /// Decodes the volume's name from the host's buffer: the text up to
    /// its NUL terminator.
    pub fn get_name(&self, buf: &[u16]) -> (r: String)
        ensures
            r@ == crate::marshal::utf16_decoded(crate::marshal::spec_nul_prefix(buf@)),
    {
        crate::marshal::wchar_str_to_string(buf)
    }

    /// Interprets the host's reply to snapshot selection: a negative
    /// count is a failure, otherwise the item count is returned.
    pub fn select(&self, host_ret: i32) -> (r: Result<i32, XwfError>)
        ensures
            r is Ok <==> host_ret >= 0,
            r matches Ok(v) ==> v == host_ret,
            r is Err ==> r == Err::<i32, XwfError>(
                XwfError::XwfFunctionCallFailed("select_volume_snapshot"),
            ),
    {
        if host_ret < 0 {
            return Err(XwfError::XwfFunctionCallFailed("select_volume_snapshot"));
        }
        Ok(host_ret)
    }

    /// Interprets the host's unsigned item count.  A count above the
    /// signed 32-bit range cannot be an item id and is rejected rather
    /// than wrapped into a negative id.
    pub fn get_item_count(&self, num_items: u32) -> (r: Result<i32, XwfError>)
        ensures
            r is Ok <==> num_items <= i32::MAX,
            r matches Ok(v) ==> v == num_items,
            r is Err ==> r == Err::<i32, XwfError>(XwfError::MaxItemIdExceeded),
    {
        if num_items > 0x7FFFFFFFu32 {
            Err(XwfError::MaxItemIdExceeded)
        } else {
            Ok(num_items as i32)
        }
    }

    /// The item count for the directory-browser selection, guarded in
    /// the same way as the full count.
    pub fn get_item_count_dbc(&self, num_items: u32) -> (r: Result<i32, XwfError>)
        ensures
            r is Ok <==> num_items <= i32::MAX,
            r matches Ok(v) ==> v == num_items,
            r is Err ==> r == Err::<i32, XwfError>(XwfError::MaxItemIdExceeded),
    {
        self.get_item_count(num_items)
    }

    /// Interprets the host's reply to the hash-type query: no hash type
    /// is configured when the reply is non-positive, and an undocumented
    /// code is treated the same way.
    pub fn get_hash_type(&self, host_ret: i64) -> (r: Option<HashType>)
        ensures
            r == (if host_ret <= 0 {
                Option::<HashType>::None
            } else {
                match spec_hash_type_from(host_ret) {
                    Ok(h) => Some(h),
                    Err(_) => None,
                }
            }),
    {
        if host_ret <= 0 {
            return None;
        }
        match HashType::try_from(host_ret) {
            Ok(h) => Some(h),
            Err(_) => None,
        }
    }

    /// Interprets the host's reply to a hash-type update.
    pub fn set_hash_type(&self, host_ret: i64) -> (r: Result<(), XwfError>)
        ensures
            r is Ok <==> host_ret >= 0,
            r is Err ==> r == Err::<(), XwfError>(XwfError::XwfFunctionCallFailed("get_vs_prop")),
    {
        if host_ret < 0 {
            Err(XwfError::XwfFunctionCallFailed("get_vs_prop"))
        } else {
            Ok(())
        }
    }

    /// Builds the snapshot's item iterator from the host's selection
    /// reply and unsigned item count, guarding both.
    pub fn iter(&self, select_ret: i32, num_items: u32) -> (r: Result<ItemIterator, XwfError>)
        ensures
            select_ret < 0 ==> r == Err::<ItemIterator, XwfError>(
                XwfError::XwfFunctionCallFailed("select_volume_snapshot"),
            ),
            select_ret >= 0 && num_items > i32::MAX ==> r == Err::<ItemIterator, XwfError>(
                XwfError::MaxItemIdExceeded,
            ),
            select_ret >= 0 && num_items <= i32::MAX ==> (r matches Ok(it) && it.spec_idx() == 0
                && it.spec_max() == num_items),
    {
        self.select(select_ret)?;
        let count = self.get_item_count(num_items)?;
        Ok(ItemIterator::create(0, count))
    }

    /// The snapshot's item iterator; identical to `iter`, for callers
    /// holding the volume mutably.
    pub fn iter_mut(&mut self, select_ret: i32, num_items: u32) -> (r: Result<
        ItemIterator,
        XwfError,
    >)
        ensures
            select_ret < 0 ==> r == Err::<ItemIterator, XwfError>(
                XwfError::XwfFunctionCallFailed("select_volume_snapshot"),
            ),
            select_ret >= 0 && num_items > i32::MAX ==> r == Err::<ItemIterator, XwfError>(
                XwfError::MaxItemIdExceeded,
            ),
            select_ret >= 0 && num_items <= i32::MAX ==> (r matches Ok(it) && it.spec_idx() == 0
                && it.spec_max() == num_items),
    {
        self.iter(select_ret, num_items)
    }
}

} // verus!
