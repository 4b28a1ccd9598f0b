//! Open bit-sets for the host's flag words.
//!
//! The host may set bits that this binding does not know about, so every
//! flag type here is an open bit-set: construction keeps unrecognised bits
//! instead of masking or rejecting them, and the named constants only give
//! the documented positions a name.

use vstd::prelude::*;

verus! {

/// Status bits of an item inside the volume snapshot.
#[derive(Debug, Clone, Copy, PartialEq, Eq, Structural)]
pub struct ItemInfoFlags {
    pub bits: u64,
}

pub const ITEM_IS_DIRECTORY: u64 = 0x00000001;
pub const ITEM_HAS_CHILD_OBJECTS: u64 = 0x00000002;
pub const ITEM_HAS_SUB_DIRECTORIES: u64 = 0x00000004;
pub const ITEM_IS_VIRTUAL_ITEM: u64 = 0x00000008;
pub const ITEM_HIDDEN_BY_EXAMINER: u64 = 0x00000010;
pub const ITEM_TAGGED: u64 = 0x00000020;
pub const ITEM_TAGGED_PARTIALLY: u64 = 0x00000040;
pub const ITEM_VIEWED_BY_EXAMINER: u64 = 0x00000080;
pub const ITEM_FS_TIMESTAMPS_NOT_IN_UTC: u64 = 0x00000100;
pub const ITEM_INTERNAL_CREATION_NOT_IN_UTC: u64 = 0x00000200;
pub const ITEM_FAT_TIMESTAMPS: u64 = 0x00000400;
pub const ITEM_ORIGINATES_FROM_NTFS: u64 = 0x00000800;
pub const ITEM_UNIX_PERMISSIONS: u64 = 0x00001000;
pub const ITEM_HAS_EXAMINER_COMMENT: u64 = 0x00002000;
pub const ITEM_HAS_EXTRACTED_METADATA: u64 = 0x00004000;
pub const ITEM_CONTENTS_TOTALLY_UNKNOWN: u64 = 0x00008000;
pub const ITEM_CONTENTS_PARTIALLY_UNKNOWN: u64 = 0x00010000;
pub const ITEM_HASH1_ALREADY_COMPUTED: u64 = 0x00040000;
pub const ITEM_HAS_DUPLICATES: u64 = 0x00080000;
pub const ITEM_HASH2_ALREADY_COMPUTED: u64 = 0x00100000;
pub const ITEM_CATEGORIZED_IRRELEVANT: u64 = 0x00200000;
pub const ITEM_CATEGORIZED_NOTABLE: u64 = 0x00400000;
pub const ITEM_UNCATEGORIZED: u64 = 0x00600000;
pub const ITEM_FOUND_IN_VOLUME_SHADOW_COPY: u64 = 0x00800000;
pub const ITEM_DELETED_KNOWN_CONTENTS: u64 = 0x01000000;
pub const ITEM_FORMAT_CONSISTENCY_OK: u64 = 0x02000000;
pub const ITEM_FORMAT_CONSISTENCY_NOT_OK: u64 = 0x04000000;
pub const ITEM_ARCHIVE_EXPLORED: u64 = 0x10000000;
pub const ITEM_EMAIL_ARCHIVE_PROCESSED: u64 = 0x20000000;
pub const ITEM_EMBEDDED_DATA_UNCOVERED: u64 = 0x40000000;
pub const ITEM_METADATA_EXTRACTION_APPLIED: u64 = 0x80000000;
pub const ITEM_EMBEDDED_IN_OTHER_FILE: u64 = 0x100000000;
pub const ITEM_CONTENTS_STORED_EXTERNALLY: u64 = 0x200000000;
pub const ITEM_ALTERNATIVE_DATA: u64 = 0x400000000;

impl ItemInfoFlags {
    pub fn empty() -> (r: Self)
        ensures
            r.bits == 0,
    {
        ItemInfoFlags { bits: 0 }
    }

    /// Keeps every bit the host set, documented or not.
    pub fn from_bits_truncate(bits: u64) -> (r: Self)
        ensures
            r.bits == bits,
    {
        ItemInfoFlags { bits }
    }

    pub fn bits(self) -> (r: u64)
        ensures
            r == self.bits,
    {
        self.bits
    }

    pub fn contains(self, mask: u64) -> (r: bool)
        ensures
            r == (self.bits & mask == mask),
    {
        self.bits & mask == mask
    }

    pub fn union(self, mask: u64) -> (r: Self)
        ensures
            r.bits == self.bits | mask,
    {
        ItemInfoFlags { bits: self.bits | mask }
    }
}

/// Windows-style attribute bits of an item.
#[derive(Debug, Clone, Copy, PartialEq, Eq, Structural)]
pub struct ItemInfoAttributes {
    pub bits: i64,
}

impl ItemInfoAttributes {
    pub fn from_bits_truncate(bits: i64) -> (r: Self)
        ensures
            r.bits == bits,
    {
        ItemInfoAttributes { bits }
    }

    pub fn bits(self) -> (r: i64)
        ensures
            r == self.bits,
    {
        self.bits
    }

    pub fn contains(self, mask: i64) -> (r: bool)
        ensures
            r == (self.bits & mask == mask),
    {
        self.bits & mask == mask
    }
}

/// Options for opening an item's data.
#[derive(Debug, Clone, Copy, PartialEq, Eq, Structural)]
pub struct OpenItemFlags {
    pub bits: u32,
}

pub const OPEN_INCLUDING_FILE_SLACK: u32 = 0x0001;
pub const OPEN_SUPPRESS_ERROR_MESSAGES: u32 = 0x0002;
pub const OPEN_PREFER_ALTERNATIVE_DATA: u32 = 0x0008;
pub const OPEN_ALTERNATIVE_DATA_WITH_FAIL: u32 = 0x0010;
pub const OPEN_CARVED_FILES_IN_EXT: u32 = 0x0080;
pub const OPEN_CONVERT_TO_PDF: u32 = 0x0200;
pub const OPEN_EXTRACT_PLAIN_TEXT_UTF8: u32 = 0x0400;
pub const OPEN_EXTRACT_PLAIN_TEXT_UTF16: u32 = 0x0800;
pub const OPEN_PREPEND_BYTE_ORDER_MARK: u32 = 0x1000;

impl OpenItemFlags {
    pub fn empty() -> (r: Self)
        ensures
            r.bits == 0,
    {
        OpenItemFlags { bits: 0 }
    }

    pub fn from_bits_truncate(bits: u32) -> (r: Self)
        ensures
            r.bits == bits,
    {
        OpenItemFlags { bits }
    }

    pub fn bits(self) -> (r: u32)
        ensures
            r == self.bits,
    {
        self.bits
    }

    pub fn union(self, mask: u32) -> (r: Self)
        ensures
            r.bits == self.bits | mask,
    {
        OpenItemFlags { bits: self.bits | mask }
    }
}

/// Properties of a report table, as reported by the host.
#[derive(Debug, Clone, Copy, PartialEq, Eq, Structural)]
pub struct ReportTableFlags {
    pub bits: u32,
}

pub const RT_HINT_BY_APPLICATION: u32 = 0x0001;
pub const RT_CREATED_BY_USER: u32 = 0x0002;
pub const RT_REPRESENTS_HASHSET: u32 = 0x0004;
pub const RT_SELECTED_FOR_INCLUSION: u32 = 0x0010;
pub const RT_SELECTED_FOR_FILTER: u32 = 0x0020;
pub const RT_SELECTED_FOR_NEW_ASSOCIATIONS: u32 = 0x0040;
pub const RT_REPRESENTS_SEARCH_TERM: u32 = 0x0080;
pub const RT_DETECTED_OBJECT_IN_PHOTO: u32 = 0x2000;
pub const RT_REPRESENTS_DUPLICATE_FILES: u32 = 0x4000;
pub const RT_OFFERED_FOR_SELECTION_IN_REPORT: u32 = 0x8000;

impl ReportTableFlags {
    pub fn empty() -> (r: Self)
        ensures
            r.bits == 0,
    {
        ReportTableFlags { bits: 0 }
    }

    pub fn from_bits_truncate(bits: u32) -> (r: Self)
        ensures
            r.bits == bits,
    {
        ReportTableFlags { bits }
    }

    pub fn bits(self) -> (r: u32)
        ensures
            r == self.bits,
    {
        self.bits
    }

    pub fn contains(self, mask: u32) -> (r: bool)
        ensures
            r == (self.bits & mask == mask),
    {
        self.bits & mask == mask
    }
}

/// Options for a message sent to the host's output channel.
#[derive(Debug, Clone, Copy, PartialEq, Eq, Structural)]
pub struct OutputMessageFlags {
    pub bits: u32,
}

pub const OUT_APPEND_WITHOUT_LINE_BREAK: u32 = 0x00000001;
pub const OUT_DONT_LOG_TO_MSG_LOG: u32 = 0x00000002;
pub const OUT_IS_ANSI_STRING: u32 = 0x00000004;
pub const OUT_AS_CASE_LOG_ENTRY: u32 = 0x00000010;

impl OutputMessageFlags {
    pub fn empty() -> (r: Self)
        ensures
            r.bits == 0,
    {
        OutputMessageFlags { bits: 0 }
    }

    pub fn from_bits_truncate(bits: u32) -> (r: Self)
        ensures
            r.bits == bits,
    {
        OutputMessageFlags { bits }
    }

    pub fn bits(self) -> (r: u32)
        ensures
            r == self.bits,
    {
        self.bits
    }
}

/// Options when associating an item with a report table.
#[derive(Debug, Clone, Copy, PartialEq, Eq, Structural)]
pub struct AddReportTableFlags {
    pub bits: u32,
}

pub const ADD_RT_CREATED_BY_APPLICATION: u32 = 0x01;
pub const ADD_RT_SELECT_FOR_INCLUSION: u32 = 0x02;
pub const ADD_RT_SELECT_FOR_FILTERING: u32 = 0x04;
pub const ADD_RT_SELECT_FOR_MANUAL_ASSOCS: u32 = 0x08;

impl AddReportTableFlags {
    pub fn empty() -> (r: Self)
        ensures
            r.bits == 0,
    {
        AddReportTableFlags { bits: 0 }
    }

    pub fn from_bits_truncate(bits: u32) -> (r: Self)
        ensures
            r.bits == bits,
    {
        AddReportTableFlags { bits }
    }

    pub fn bits(self) -> (r: u32)
        ensures
            r == self.bits,
    {
        self.bits
    }
}

/// Options for the host's progress indicator.
#[derive(Debug, Clone, Copy, PartialEq, Eq, Structural)]
pub struct ProgressFlags {
    pub bits: u32,
}

pub const PROGRESS_NO_PROGRESS_BAR: u32 = 0x00000001;
pub const PROGRESS_NO_USER_INTERRUPTION: u32 = 0x00000002;
pub const PROGRESS_SHOW_WINDOW_IMMEDIATELY: u32 = 0x00000004;
pub const PROGRESS_DOUBLE_CONFIRM_ABORT: u32 = 0x00000008;
pub const PROGRESS_PREVENT_LOGGING: u32 = 0x00000010;

impl ProgressFlags {
    pub fn empty() -> (r: Self)
        ensures
            r.bits == 0,
    {
        ProgressFlags { bits: 0 }
    }

    pub fn from_bits_truncate(bits: u32) -> (r: Self)
        ensures
            r.bits == bits,
    {
        ProgressFlags { bits }
    }

    pub fn bits(self) -> (r: u32)
        ensures
            r == self.bits,
    {
        self.bits
    }
}

/// Status bits of an evidence object.
#[derive(Debug, Clone, Copy, PartialEq, Eq, Structural)]
pub struct EvObjPropFlags {
    pub bits: u32,
}

pub const EV_DATA_WINDOW_ACTIVE: u32 = 0x01;
pub const EV_DATA_WINDOW_OPEN: u32 = 0x02;
pub const EV_FLAGGED: u32 = 0x04;
pub const EV_SELECTED_FOR_OPERATIONS: u32 = 0x08;
pub const EV_SELECTED_FOR_RECURSIVE_VIEW: u32 = 0x10;
pub const EV_EXPANDED_IN_CASE_TREE: u32 = 0x20;
pub const EV_HAS_NO_CHILDREN: u32 = 0x40;
pub const EV_IS_FILE_CONTAINER: u32 = 0x0100;
pub const EV_IS_DELETED_PARTITION: u32 = 0x0200;
pub const EV_IS_OPTICAL_DISK: u32 = 0x0400;
pub const EV_IS_RAM: u32 = 0x0800;
pub const EV_IS_DYNAMIC_DISK: u32 = 0x1000;
pub const EV_IS_SINGLE_FILE: u32 = 0x2000;
pub const EV_INDEX_AVAILABLE: u32 = 0x010000;
pub const EV_LOGGING_ENABLED: u32 = 0x020000;

impl EvObjPropFlags {
    pub fn from_bits_truncate(bits: u32) -> (r: Self)
        ensures
            r.bits == bits,
    {
        EvObjPropFlags { bits }
    }

    pub fn bits(self) -> (r: u32)
        ensures
            r == self.bits,
    {
        self.bits
    }

    pub fn contains(self, mask: u32) -> (r: bool)
        ensures
            r == (self.bits & mask == mask),
    {
        self.bits & mask == mask
    }
}

/// Flags handed to the plugin's `Init` callback.
#[derive(Debug, Clone, Copy, PartialEq, Eq, Structural)]
pub struct XtInitFlags {
    pub bits: u32,
}

pub const INIT_IS_FORENSICS: u32 = 0x00000001;
pub const INIT_IS_WIN_HEX: u32 = 0x00000002;
pub const INIT_IS_INVESTIGATOR: u32 = 0x00000004;
pub const INIT_IS_BETA: u32 = 0x00000008;
pub const INIT_IS_QUICKCHECK: u32 = 0x00000020;
pub const INIT_IS_ABOUT_ONLY: u32 = 0x00000040;

impl XtInitFlags {
    pub fn empty() -> (r: Self)
        ensures
            r.bits == 0,
    {
        XtInitFlags { bits: 0 }
    }

    pub fn from_bits_truncate(bits: u32) -> (r: Self)
        ensures
            r.bits == bits,
    {
        XtInitFlags { bits }
    }

    pub fn bits(self) -> (r: u32)
        ensures
            r == self.bits,
    {
        self.bits
    }

    pub fn contains(self, mask: u32) -> (r: bool)
        ensures
            r == (self.bits & mask == mask),
    {
        self.bits & mask == mask
    }
}

/// Positive reply of the `Prepare` callback: which per-item calls are wanted.
///
/// Only the documented positive bits may be set, so that the encoded reply
/// never collides with the negative directives.
#[derive(Debug, Clone, Copy, PartialEq, Eq, Structural)]
pub struct XtPreparePositiveReturnFlags {
    pub bits: i32,
}

pub const PREPARE_CALL_PROCESS_ITEM: i32 = 0x01;
pub const PREPARE_CALL_PROCESS_ITEM_LATE: i32 = 0x02;
pub const PREPARE_EXPECT_MORE_ITEMS: i32 = 0x04;
pub const PREPARE_DO_NOT_OMIT: i32 = 0x08;
pub const PREPARE_TARGET_DIRS: i32 = 0x10;
pub const PREPARE_TARGET_ZERO_BYTE_FILES: i32 = 0x20;

impl XtPreparePositiveReturnFlags {
    pub fn empty() -> (r: Self)
        ensures
            r.bits == 0,
    {
        XtPreparePositiveReturnFlags { bits: 0 }
    }

    pub fn from_bits_truncate(bits: i32) -> (r: Self)
        ensures
            r.bits == bits,
    {
        XtPreparePositiveReturnFlags { bits }
    }

    pub fn bits(self) -> (r: i32)
        ensures
            r == self.bits,
    {
        self.bits
    }

    pub fn contains(self, mask: i32) -> (r: bool)
        ensures
            r == (self.bits & mask == mask),
    {
        self.bits & mask == mask
    }

    pub fn union(self, mask: i32) -> (r: Self)
        ensures
            r.bits == self.bits | mask,
    {
        XtPreparePositiveReturnFlags { bits: self.bits | mask }
    }
}

/// Request bits for the item-type query, combined with the buffer length.
#[derive(Debug, Clone, Copy, PartialEq, Eq, Structural)]
pub struct ItemTypeFlags {
    pub bits: u32,
}

pub const ITEM_TYPE_TEXTUAL_DESCRIPTION: u32 = 0x20000000;
pub const ITEM_TYPE_TEXTUAL_CATEGORY: u32 = 0x40000000;
pub const ITEM_TYPE_RECEIVE_TYPE_STATUS: u32 = 0x80000000;

impl ItemTypeFlags {
    pub fn empty() -> (r: Self)
        ensures
            r.bits == 0,
    {
        ItemTypeFlags { bits: 0 }
    }

    pub fn from_bits_truncate(bits: u32) -> (r: Self)
        ensures
            r.bits == bits,
    {
        ItemTypeFlags { bits }
    }

    pub fn bits(self) -> (r: u32)
        ensures
            r == self.bits,
    {
        self.bits
    }

    pub fn union(self, mask: u32) -> (r: Self)
        ensures
            r.bits == self.bits | mask,
    {
        ItemTypeFlags { bits: self.bits | mask }
    }
}

/// Options when creating a new item in the volume snapshot.
#[derive(Debug, Clone, Copy, PartialEq, Eq, Structural)]
pub struct FileCreationFlags {
    pub bits: u32,
}

pub const CREATE_MORE_ITEMS_TO_BE_CREATED: u32 = 0x00000001;
pub const CREATE_EXCERPT_FROM_PARENT: u32 = 0x00000002;
pub const CREATE_ATTACH_EXTERNAL_FILE: u32 = 0x00000004;
pub const CREATE_KEEP_EXTERNAL_FILE: u32 = 0x00000008;
pub const CREATE_CONTENTS_FROM_BUFFER: u32 = 0x00000010;

impl FileCreationFlags {
    pub fn empty() -> (r: Self)
        ensures
            r.bits == 0,
    {
        FileCreationFlags { bits: 0 }
    }

    pub fn from_bits_truncate(bits: u32) -> (r: Self)
        ensures
            r.bits == bits,
    {
        FileCreationFlags { bits }
    }

    pub fn bits(self) -> (r: u32)
        ensures
            r == self.bits,
    {
        self.bits
    }
}

} // verus!
