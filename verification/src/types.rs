//! The host's enumerations: lifecycle return values, operation types,
//! property selectors, and the decoded forms of item status words.
//!
//! The host speaks in raw integers; every enum here carries an exact code
//! table (`code`) and, where the host hands the value in, a decoder whose
//! contract states precisely which raw values map to which variant.

use vstd::prelude::*;
use crate::error::XwfError;

verus! {

/// Negative (directive) reply of the `Prepare` callback.
#[derive(Debug, Clone, Copy, PartialEq, Eq, Structural)]
pub enum XtPrepareNegativeReturn {
    /// Stop the whole operation altogether.
    StopWholeOperation,
    /// Prevent further use of the plugin for the remainder of the operation.
    PreventFurtherUse,
    /// Exclude this particular volume from the operation.
    ExcludeVolume,
    /// Call no other plugin function for this volume, not even `Finalize`.
    DontCallOtherFunctions,
    /// The default: only `Finalize` is wanted for this volume.
    JustCallXtFinalize,
}

impl XtPrepareNegativeReturn {
    /// The integer the host expects for this directive.
    #[verifier::allow_in_spec]
    pub fn code(self) -> i32
        returns (match self {
            XtPrepareNegativeReturn::StopWholeOperation => -4i32,
            XtPrepareNegativeReturn::PreventFurtherUse => -3i32,
            XtPrepareNegativeReturn::ExcludeVolume => -2i32,
            XtPrepareNegativeReturn::DontCallOtherFunctions => -1i32,
            XtPrepareNegativeReturn::JustCallXtFinalize => 0i32,
        })
    {
        match self {
            XtPrepareNegativeReturn::StopWholeOperation => -4,
            XtPrepareNegativeReturn::PreventFurtherUse => -3,
            XtPrepareNegativeReturn::ExcludeVolume => -2,
            XtPrepareNegativeReturn::DontCallOtherFunctions => -1,
            XtPrepareNegativeReturn::JustCallXtFinalize => 0,
        }
    }
}

/// Reply of the `Prepare` callback: either a negative directive or a
/// positive set of per-item-callback request flags, never both.
#[derive(Debug, Clone, Copy, PartialEq, Eq, Structural)]
pub enum XtPrepareReturn {
    Negative(XtPrepareNegativeReturn),
    Positive(crate::flags::XtPreparePositiveReturnFlags),
}

impl XtPrepareReturn {
    /// The integer the host expects: the directive's code, or the flag bits.
    #[verifier::allow_in_spec]
    pub fn code(self) -> i32
        returns (match self {
            XtPrepareReturn::Negative(n) => n.code(),
            XtPrepareReturn::Positive(f) => f.bits,
        })
    {
        match self {
            XtPrepareReturn::Negative(n) => n.code(),
            XtPrepareReturn::Positive(f) => f.bits,
        }
    }
}

/// Reply of the `ProcessItem` callback.
#[derive(Debug, Clone, Copy, PartialEq, Eq, Structural)]
pub enum XtProcessItemReturn {
    /// Stop the current operation.
    StopCurrentOperation,
    /// Skip all other volume snapshot refinement operations for this file.
    SkipAllOtherVSRefinements,
    /// Carry on normally.
    Continue,
}

impl XtProcessItemReturn {
    #[verifier::allow_in_spec]
    pub fn code(self) -> i32
        returns (match self {
            XtProcessItemReturn::StopCurrentOperation => -1i32,
            XtProcessItemReturn::SkipAllOtherVSRefinements => -2i32,
            XtProcessItemReturn::Continue => 0i32,
        })
    {
        match self {
            XtProcessItemReturn::StopCurrentOperation => -1,
            XtProcessItemReturn::SkipAllOtherVSRefinements => -2,
            XtProcessItemReturn::Continue => 0,
        }
    }
}

/// Reply of the `ProcessItemEx` callback.
#[derive(Debug, Clone, Copy, PartialEq, Eq, Structural)]
pub enum XtProcessItemExReturn {
    StopCurrentOperation,
    Continue,
}

impl XtProcessItemExReturn {
    #[verifier::allow_in_spec]
    pub fn code(self) -> i32
        returns (match self {
            XtProcessItemExReturn::StopCurrentOperation => -1i32,
            XtProcessItemExReturn::Continue => 0i32,
        })
    {
        match self {
            XtProcessItemExReturn::StopCurrentOperation => -1,
            XtProcessItemExReturn::Continue => 0,
        }
    }
}

/// Reply of the `Init` callback.
#[derive(Debug, Clone, Copy, PartialEq, Eq, Structural)]
pub enum XtInitReturn {
    /// Refuse every further call for this load of the plugin.
    PreventFurtherUseOfDll,
    /// Per-item callbacks must be delivered from a single thread.
    RunSingleThreaded,
    /// Per-item callbacks may be delivered from several threads.
    RunMultiThreaded,
}

impl XtInitReturn {
    #[verifier::allow_in_spec]
    pub fn code(self) -> i32
        returns (match self {
            XtInitReturn::PreventFurtherUseOfDll => -1i32,
            XtInitReturn::RunSingleThreaded => 1i32,
            XtInitReturn::RunMultiThreaded => 2i32,
        })
    {
        match self {
            XtInitReturn::PreventFurtherUseOfDll => -1,
            XtInitReturn::RunSingleThreaded => 1,
            XtInitReturn::RunMultiThreaded => 2,
        }
    }
}

/// Reply of the `Finalize` callback.
#[derive(Debug, Clone, Copy, PartialEq, Eq, Structural)]
pub enum XtFinalizeReturn {
    /// Ask the host to refresh the directory listing.
    RefreshDirectoryListing,
    /// Nothing further to do.
    Finished,
}

impl XtFinalizeReturn {
    #[verifier::allow_in_spec]
    pub fn code(self) -> i32
        returns (match self {
            XtFinalizeReturn::RefreshDirectoryListing => 1i32,
            XtFinalizeReturn::Finished => 0i32,
        })
    {
        match self {
            XtFinalizeReturn::RefreshDirectoryListing => 1,
            XtFinalizeReturn::Finished => 0,
        }
    }
}

/// The kind of operation a `Prepare` or `Finalize` call belongs to.
#[derive(Debug, Clone, Copy, PartialEq, Eq, Structural)]
pub enum XtPrepareOpType {
    ActionRun,
    ActionVolumeSnapshotRefinement,
    ActionLogicalSearch,
    ActionPhysicalSearch,
    DirectoryBrowserContextMenu,
    SearchHitListContextMenu,
    EventListContextMenu,
}

/// Which operation type, if any, the raw code names.
pub open spec fn spec_op_type_from(value: u32) -> Result<XtPrepareOpType, ()> {
    if value == 0 {
        Ok(XtPrepareOpType::ActionRun)
    } else if value == 1 {
        Ok(XtPrepareOpType::ActionVolumeSnapshotRefinement)
    } else if value == 2 {
        Ok(XtPrepareOpType::ActionLogicalSearch)
    } else if value == 3 {
        Ok(XtPrepareOpType::ActionPhysicalSearch)
    } else if value == 4 {
        Ok(XtPrepareOpType::DirectoryBrowserContextMenu)
    } else if value == 5 {
        Ok(XtPrepareOpType::SearchHitListContextMenu)
    } else if value == 6 {
        Ok(XtPrepareOpType::EventListContextMenu)
    } else {
        Err(())
    }
}

impl XtPrepareOpType {
    #[verifier::allow_in_spec]
    pub fn code(self) -> u32
        returns (match self {
            XtPrepareOpType::ActionRun => 0u32,
            XtPrepareOpType::ActionVolumeSnapshotRefinement => 1u32,
            XtPrepareOpType::ActionLogicalSearch => 2u32,
            XtPrepareOpType::ActionPhysicalSearch => 3u32,
            XtPrepareOpType::DirectoryBrowserContextMenu => 4u32,
            XtPrepareOpType::SearchHitListContextMenu => 5u32,
            XtPrepareOpType::EventListContextMenu => 6u32,
        })
    {
        match self {
            XtPrepareOpType::ActionRun => 0,
            XtPrepareOpType::ActionVolumeSnapshotRefinement => 1,
            XtPrepareOpType::ActionLogicalSearch => 2,
            XtPrepareOpType::ActionPhysicalSearch => 3,
            XtPrepareOpType::DirectoryBrowserContextMenu => 4,
            XtPrepareOpType::SearchHitListContextMenu => 5,
            XtPrepareOpType::EventListContextMenu => 6,
        }
    }

    /// Decodes the raw operation-type word; undefined codes are rejected.
    pub fn try_from(value: u32) -> (r: Result<XtPrepareOpType, ()>)
        ensures
            r == spec_op_type_from(value),
    {
        match value {
            0 => Ok(XtPrepareOpType::ActionRun),
            1 => Ok(XtPrepareOpType::ActionVolumeSnapshotRefinement),
            2 => Ok(XtPrepareOpType::ActionLogicalSearch),
            3 => Ok(XtPrepareOpType::ActionPhysicalSearch),
            4 => Ok(XtPrepareOpType::DirectoryBrowserContextMenu),
            5 => Ok(XtPrepareOpType::SearchHitListContextMenu),
            6 => Ok(XtPrepareOpType::EventListContextMenu),
            _ => Err(()),
        }
    }
}

/// Property selectors for open items and volumes.
#[derive(Debug, Clone, Copy, PartialEq, Eq, Structural)]
pub enum PropType {
    PhysicalSize,
    LogicalSize,
    ValidDataLength,
    FileAttributes,
    PointerFilePath,
    PointerName,
    ParentVolume,
    NumberOfDataWindow,
}

impl PropType {
    #[verifier::allow_in_spec]
    pub fn code(self) -> u32
        returns (match self {
            PropType::PhysicalSize => 0u32,
            PropType::LogicalSize => 1u32,
            PropType::ValidDataLength => 2u32,
            PropType::FileAttributes => 4u32,
            PropType::PointerFilePath => 8u32,
            PropType::PointerName => 9u32,
            PropType::ParentVolume => 10u32,
            PropType::NumberOfDataWindow => 16u32,
        })
    {
        match self {
            PropType::PhysicalSize => 0,
            PropType::LogicalSize => 1,
            PropType::ValidDataLength => 2,
            PropType::FileAttributes => 4,
            PropType::PointerFilePath => 8,
            PropType::PointerName => 9,
            PropType::ParentVolume => 10,
            PropType::NumberOfDataWindow => 16,
        }
    }
}

/// Property selectors for evidence objects.
#[derive(Debug, Clone, Copy, PartialEq, Eq, Structural)]
pub enum EvObjPropType {
    ObjNumber,
    ObjId,
    ParentObjId,
    ShortEvObjId,
    VsSnapshotId,
    ObjTitle,
    ExtObjTitle,
    AbbrevObjTitle,
    InternalName,
    Description,
    ExaminerComments,
    IntUsedDir,
    OutputDir,
    SizeInBytes,
    VSFileCount,
    Flags,
    FileSystemID,
    HashType,
    HashValue,
    CreationTime,
    ModificationTime,
    HashType2,
    HashValue2,
    NumberOfDataWindow,
}

impl EvObjPropType {
    #[verifier::allow_in_spec]
    pub fn code(self) -> u32
        returns (match self {
            EvObjPropType::ObjNumber => 0u32,
            EvObjPropType::ObjId => 1u32,
            EvObjPropType::ParentObjId => 2u32,
            EvObjPropType::ShortEvObjId => 3u32,
            EvObjPropType::VsSnapshotId => 4u32,
            EvObjPropType::ObjTitle => 6u32,
            EvObjPropType::ExtObjTitle => 7u32,
            EvObjPropType::AbbrevObjTitle => 8u32,
            EvObjPropType::InternalName => 9u32,
            EvObjPropType::Description => 10u32,
            EvObjPropType::ExaminerComments => 11u32,
            EvObjPropType::IntUsedDir => 12u32,
            EvObjPropType::OutputDir => 13u32,
            EvObjPropType::SizeInBytes => 16u32,
            EvObjPropType::VSFileCount => 17u32,
            EvObjPropType::Flags => 18u32,
            EvObjPropType::FileSystemID => 19u32,
            EvObjPropType::HashType => 20u32,
            EvObjPropType::HashValue => 21u32,
            EvObjPropType::CreationTime => 32u32,
            EvObjPropType::ModificationTime => 33u32,
            EvObjPropType::HashType2 => 40u32,
            EvObjPropType::HashValue2 => 41u32,
            EvObjPropType::NumberOfDataWindow => 50u32,
        })
    {
        match self {
            EvObjPropType::ObjNumber => 0,
            EvObjPropType::ObjId => 1,
            EvObjPropType::ParentObjId => 2,
            EvObjPropType::ShortEvObjId => 3,
            EvObjPropType::VsSnapshotId => 4,
            EvObjPropType::ObjTitle => 6,
            EvObjPropType::ExtObjTitle => 7,
            EvObjPropType::AbbrevObjTitle => 8,
            EvObjPropType::InternalName => 9,
            EvObjPropType::Description => 10,
            EvObjPropType::ExaminerComments => 11,
            EvObjPropType::IntUsedDir => 12,
            EvObjPropType::OutputDir => 13,
            EvObjPropType::SizeInBytes => 16,
            EvObjPropType::VSFileCount => 17,
            EvObjPropType::Flags => 18,
            EvObjPropType::FileSystemID => 19,
            EvObjPropType::HashType => 20,
            EvObjPropType::HashValue => 21,
            EvObjPropType::CreationTime => 32,
            EvObjPropType::ModificationTime => 33,
            EvObjPropType::HashType2 => 40,
            EvObjPropType::HashValue2 => 41,
            EvObjPropType::NumberOfDataWindow => 50,
        }
    }
}

/// Property selectors for the volume snapshot.
#[derive(Debug, Clone, Copy, PartialEq, Eq, Structural)]
pub enum VsPropType {
    SpecialItemId,
    HashType1,
    HashType2,
    SetHashType1,
    SetHashType2,
}

impl VsPropType {
    #[verifier::allow_in_spec]
    pub fn code(self) -> i32
        returns (match self {
            VsPropType::SpecialItemId => 10i32,
            VsPropType::HashType1 => 20i32,
            VsPropType::HashType2 => 21i32,
            VsPropType::SetHashType1 => 25i32,
            VsPropType::SetHashType2 => 26i32,
        })
    {
        match self {
            VsPropType::SpecialItemId => 10,
            VsPropType::HashType1 => 20,
            VsPropType::HashType2 => 21,
            VsPropType::SetHashType1 => 25,
            VsPropType::SetHashType2 => 26,
        }
    }
}

/// Which form of a volume's name to ask for.
#[derive(Debug, Clone, Copy, PartialEq, Eq, Structural)]
pub enum VolumeNameType {
    SHORT,
    NORMAL,
    LONG,
}

impl VolumeNameType {
    #[verifier::allow_in_spec]
    pub fn code(self) -> u32
        returns (match self {
            VolumeNameType::SHORT => 3u32,
            VolumeNameType::NORMAL => 2u32,
            VolumeNameType::LONG => 1u32,
        })
    {
        match self {
            VolumeNameType::SHORT => 3,
            VolumeNameType::NORMAL => 2,
            VolumeNameType::LONG => 1,
        }
    }
}

/// Selectors for the per-item information query.
#[derive(Debug, Clone, Copy, PartialEq, Eq, Structural)]
pub enum XwfItemInfoTypes {
    OrigId,
    Attr,
    Flags,
    Deletion,
    Classification,
    LinkCount,
    ColorAnalysis,
    PixelIndex,
    FileCount,
    EmbeddedOffset,
    CreationTime,
    ModificationTime,
    LastAccessTime,
    EntryModificationTime,
    DeletionTime,
    InternalCreationTime,
}

impl XwfItemInfoTypes {
    #[verifier::allow_in_spec]
    pub fn code(self) -> i32
        returns (match self {
            XwfItemInfoTypes::OrigId => 1i32,
            XwfItemInfoTypes::Attr => 2i32,
            XwfItemInfoTypes::Flags => 3i32,
            XwfItemInfoTypes::Deletion => 4i32,
            XwfItemInfoTypes::Classification => 5i32,
            XwfItemInfoTypes::LinkCount => 6i32,
            XwfItemInfoTypes::ColorAnalysis => 7i32,
            XwfItemInfoTypes::PixelIndex => 8i32,
            XwfItemInfoTypes::FileCount => 11i32,
            XwfItemInfoTypes::EmbeddedOffset => 16i32,
            XwfItemInfoTypes::CreationTime => 32i32,
            XwfItemInfoTypes::ModificationTime => 33i32,
            XwfItemInfoTypes::LastAccessTime => 34i32,
            XwfItemInfoTypes::EntryModificationTime => 35i32,
            XwfItemInfoTypes::DeletionTime => 36i32,
            XwfItemInfoTypes::InternalCreationTime => 37i32,
        })
    {
        match self {
            XwfItemInfoTypes::OrigId => 1,
            XwfItemInfoTypes::Attr => 2,
            XwfItemInfoTypes::Flags => 3,
            XwfItemInfoTypes::Deletion => 4,
            XwfItemInfoTypes::Classification => 5,
            XwfItemInfoTypes::LinkCount => 6,
            XwfItemInfoTypes::ColorAnalysis => 7,
            XwfItemInfoTypes::PixelIndex => 8,
            XwfItemInfoTypes::FileCount => 11,
            XwfItemInfoTypes::EmbeddedOffset => 16,
            XwfItemInfoTypes::CreationTime => 32,
            XwfItemInfoTypes::ModificationTime => 33,
            XwfItemInfoTypes::LastAccessTime => 34,
            XwfItemInfoTypes::EntryModificationTime => 35,
            XwfItemInfoTypes::DeletionTime => 36,
            XwfItemInfoTypes::InternalCreationTime => 37,
        }
    }
}

/// License information handed to `Init`; the host defines no contents yet.
pub struct XtLicenseInfo {}

/// How an item's stream relates to the file it belongs to.
#[derive(Debug, Clone, Copy, PartialEq, Eq, Structural)]
pub enum ItemInfoClassification {
    NormalFile,
    HfsResourceFork,
    NtfsAlternateDataStream,
    NtfsNonDirectoryIndex,
    NtfsBitmapAttribute,
    NotDocumented1,
    NtfsGeneralLoggedUtilityStream,
    NtfsEfsLoggedUtilityStream,
    NotDocumented2,
    NotDocumented3,
    NotDocumented4,
    EmailRelated,
    Excerpt,
    ManuallyAttached,
    VideoStill,
    EmailAttachment,
    EmailMessage,
    IdnxRecordRemnant,
    Unknown,
}

/// Which classification the low byte of the raw value names; every
/// undocumented code coerces to `Unknown` for forward compatibility.
pub open spec fn spec_classification_from(value: i64) -> ItemInfoClassification {
    let v = value & 0xff;
    if v == 0x00 {
        ItemInfoClassification::NormalFile
    } else if v == 0x04 {
        ItemInfoClassification::HfsResourceFork
    } else if v == 0x08 {
        ItemInfoClassification::NtfsAlternateDataStream
    } else if v == 0x0a {
        ItemInfoClassification::NtfsNonDirectoryIndex
    } else if v == 0x0b {
        ItemInfoClassification::NtfsBitmapAttribute
    } else if v == 0x0e {
        ItemInfoClassification::NotDocumented1
    } else if v == 0x10 {
        ItemInfoClassification::NtfsGeneralLoggedUtilityStream
    } else if v == 0x11 {
        ItemInfoClassification::NtfsEfsLoggedUtilityStream
    } else if v == 0xf2 {
        ItemInfoClassification::NotDocumented2
    } else if v == 0xf3 {
        ItemInfoClassification::NotDocumented3
    } else if v == 0xf4 {
        ItemInfoClassification::NotDocumented4
    } else if v == 0xf5 {
        ItemInfoClassification::EmailRelated
    } else if v == 0xf6 {
        ItemInfoClassification::Excerpt
    } else if v == 0xf7 {
        ItemInfoClassification::ManuallyAttached
    } else if v == 0xf8 {
        ItemInfoClassification::VideoStill
    } else if v == 0xf9 {
        ItemInfoClassification::EmailAttachment
    } else if v == 0xfa {
        ItemInfoClassification::EmailMessage
    } else if v == 0xfd {
        ItemInfoClassification::IdnxRecordRemnant
    } else {
        ItemInfoClassification::Unknown
    }
}

impl ItemInfoClassification {
    /// The raw code of this classification.
    #[verifier::allow_in_spec]
    pub fn code(self) -> i64
        returns (match self {
            ItemInfoClassification::NormalFile => 0x00i64,
            ItemInfoClassification::HfsResourceFork => 0x04i64,
            ItemInfoClassification::NtfsAlternateDataStream => 0x08i64,
            ItemInfoClassification::NtfsNonDirectoryIndex => 0x0ai64,
            ItemInfoClassification::NtfsBitmapAttribute => 0x0bi64,
            ItemInfoClassification::NotDocumented1 => 0x0ei64,
            ItemInfoClassification::NtfsGeneralLoggedUtilityStream => 0x10i64,
            ItemInfoClassification::NtfsEfsLoggedUtilityStream => 0x11i64,
            ItemInfoClassification::NotDocumented2 => 0xf2i64,
            ItemInfoClassification::NotDocumented3 => 0xf3i64,
            ItemInfoClassification::NotDocumented4 => 0xf4i64,
            ItemInfoClassification::EmailRelated => 0xf5i64,
            ItemInfoClassification::Excerpt => 0xf6i64,
            ItemInfoClassification::ManuallyAttached => 0xf7i64,
            ItemInfoClassification::VideoStill => 0xf8i64,
            ItemInfoClassification::EmailAttachment => 0xf9i64,
            ItemInfoClassification::EmailMessage => 0xfai64,
            ItemInfoClassification::IdnxRecordRemnant => 0xfdi64,
            ItemInfoClassification::Unknown => 0xffi64,
        })
    {
        match self {
            ItemInfoClassification::NormalFile => 0x00,
            ItemInfoClassification::HfsResourceFork => 0x04,
            ItemInfoClassification::NtfsAlternateDataStream => 0x08,
            ItemInfoClassification::NtfsNonDirectoryIndex => 0x0a,
            ItemInfoClassification::NtfsBitmapAttribute => 0x0b,
            ItemInfoClassification::NotDocumented1 => 0x0e,
            ItemInfoClassification::NtfsGeneralLoggedUtilityStream => 0x10,
            ItemInfoClassification::NtfsEfsLoggedUtilityStream => 0x11,
            ItemInfoClassification::NotDocumented2 => 0xf2,
            ItemInfoClassification::NotDocumented3 => 0xf3,
            ItemInfoClassification::NotDocumented4 => 0xf4,
            ItemInfoClassification::EmailRelated => 0xf5,
            ItemInfoClassification::Excerpt => 0xf6,
            ItemInfoClassification::ManuallyAttached => 0xf7,
            ItemInfoClassification::VideoStill => 0xf8,
            ItemInfoClassification::EmailAttachment => 0xf9,
            ItemInfoClassification::EmailMessage => 0xfa,
            ItemInfoClassification::IdnxRecordRemnant => 0xfd,
            ItemInfoClassification::Unknown => 0xff,
        }
    }

    /// Decodes the low byte of the raw classification value; an
    /// undocumented code never fails and becomes `Unknown`.
    pub fn try_from(value: i64) -> (r: Result<ItemInfoClassification, XwfError>)
        ensures
            r == Ok::<ItemInfoClassification, XwfError>(spec_classification_from(value)),
    {
        let v = value & 0xff;
        if v == 0x00 {
            Ok(ItemInfoClassification::NormalFile)
        } else if v == 0x04 {
            Ok(ItemInfoClassification::HfsResourceFork)
        } else if v == 0x08 {
            Ok(ItemInfoClassification::NtfsAlternateDataStream)
        } else if v == 0x0a {
            Ok(ItemInfoClassification::NtfsNonDirectoryIndex)
        } else if v == 0x0b {
            Ok(ItemInfoClassification::NtfsBitmapAttribute)
        } else if v == 0x0e {
            Ok(ItemInfoClassification::NotDocumented1)
        } else if v == 0x10 {
            Ok(ItemInfoClassification::NtfsGeneralLoggedUtilityStream)
        } else if v == 0x11 {
            Ok(ItemInfoClassification::NtfsEfsLoggedUtilityStream)
        } else if v == 0xf2 {
            Ok(ItemInfoClassification::NotDocumented2)
        } else if v == 0xf3 {
            Ok(ItemInfoClassification::NotDocumented3)
        } else if v == 0xf4 {
            Ok(ItemInfoClassification::NotDocumented4)
        } else if v == 0xf5 {
            Ok(ItemInfoClassification::EmailRelated)
        } else if v == 0xf6 {
            Ok(ItemInfoClassification::Excerpt)
        } else if v == 0xf7 {
            Ok(ItemInfoClassification::ManuallyAttached)
        } else if v == 0xf8 {
            Ok(ItemInfoClassification::VideoStill)
        } else if v == 0xf9 {
            Ok(ItemInfoClassification::EmailAttachment)
        } else if v == 0xfa {
            Ok(ItemInfoClassification::EmailMessage)
        } else if v == 0xfd {
            Ok(ItemInfoClassification::IdnxRecordRemnant)
        } else {
            Ok(ItemInfoClassification::Unknown)
        }
    }
}

/// Whether an item still exists in the file system, and how it was lost.
#[derive(Debug, Clone, Copy, PartialEq, Eq, Structural)]
pub enum ItemInfoDeletion {
    Existing,
    PossiblyReverable,
    FirstClusterUnknown,
    MovedPossibleRecoverable,
    MovedFirstClusterUnknown,
    CarvedFile,
}

/// Which deletion status the raw value names; undefined codes are rejected.
pub open spec fn spec_deletion_from(value: i64) -> Result<ItemInfoDeletion, XwfError> {
    if value == 0 {
        Ok(ItemInfoDeletion::Existing)
    } else if value == 1 {
        Ok(ItemInfoDeletion::PossiblyReverable)
    } else if value == 2 {
        Ok(ItemInfoDeletion::FirstClusterUnknown)
    } else if value == 3 {
        Ok(ItemInfoDeletion::MovedPossibleRecoverable)
    } else if value == 4 {
        Ok(ItemInfoDeletion::MovedFirstClusterUnknown)
    } else if value == 5 {
        Ok(ItemInfoDeletion::CarvedFile)
    } else {
        Err(XwfError::InvalidEnumValue("ItemInfoDeletion", value))
    }
}

impl ItemInfoDeletion {
    #[verifier::allow_in_spec]
    pub fn code(self) -> i64
        returns (match self {
            ItemInfoDeletion::Existing => 0i64,
            ItemInfoDeletion::PossiblyReverable => 1i64,
            ItemInfoDeletion::FirstClusterUnknown => 2i64,
            ItemInfoDeletion::MovedPossibleRecoverable => 3i64,
            ItemInfoDeletion::MovedFirstClusterUnknown => 4i64,
            ItemInfoDeletion::CarvedFile => 5i64,
        })
    {
        match self {
            ItemInfoDeletion::Existing => 0,
            ItemInfoDeletion::PossiblyReverable => 1,
            ItemInfoDeletion::FirstClusterUnknown => 2,
            ItemInfoDeletion::MovedPossibleRecoverable => 3,
            ItemInfoDeletion::MovedFirstClusterUnknown => 4,
            ItemInfoDeletion::CarvedFile => 5,
        }
    }

    pub fn try_from(value: i64) -> (r: Result<ItemInfoDeletion, XwfError>)
        ensures
            r == spec_deletion_from(value),
    {
        match value {
            0 => Ok(ItemInfoDeletion::Existing),
            1 => Ok(ItemInfoDeletion::PossiblyReverable),
            2 => Ok(ItemInfoDeletion::FirstClusterUnknown),
            3 => Ok(ItemInfoDeletion::MovedPossibleRecoverable),
            4 => Ok(ItemInfoDeletion::MovedFirstClusterUnknown),
            5 => Ok(ItemInfoDeletion::CarvedFile),
            _ => Err(XwfError::InvalidEnumValue("ItemInfoDeletion", value)),
        }
    }

    /// True only for an item that still exists.
    pub fn is_existing(&self) -> (r: bool)
        ensures
            r == (*self == ItemInfoDeletion::Existing),
    {
        match self {
            ItemInfoDeletion::Existing => true,
            _ => false,
        }
    }
}

/// Verdict of the host's file-format consistency check.
#[derive(Debug, Clone, Copy, PartialEq, Eq, Structural)]
pub enum FileFormatConsistency {
    Unknown,
    Consistent,
    Irregular,
    NotDocumented,
}

/// Which consistency verdict the second-lowest byte of the raw type-status
/// word names; a negative word or an undefined code is rejected.
pub open spec fn spec_consistency_from(value: i32) -> Result<FileFormatConsistency, XwfError> {
    if value < 0 {
        Err(XwfError::InvalidEnumValue("FileFormatConsistency", value as i64))
    } else {
        let v = (value / 0x100) % 0x100;
        if v == 1 {
            Ok(FileFormatConsistency::Consistent)
        } else if v == 2 {
            Ok(FileFormatConsistency::Irregular)
        } else if v == 0 {
            Ok(FileFormatConsistency::Unknown)
        } else if v == 3 {
            Ok(FileFormatConsistency::NotDocumented)
        } else {
            Err(XwfError::InvalidEnumValue("FileFormatConsistency", value as i64))
        }
    }
}

impl FileFormatConsistency {
    #[verifier::allow_in_spec]
    pub fn code(self) -> i32
        returns (match self {
            FileFormatConsistency::Unknown => 0i32,
            FileFormatConsistency::Consistent => 1i32,
            FileFormatConsistency::Irregular => 2i32,
            FileFormatConsistency::NotDocumented => 3i32,
        })
    {
        match self {
            FileFormatConsistency::Unknown => 0,
            FileFormatConsistency::Consistent => 1,
            FileFormatConsistency::Irregular => 2,
            FileFormatConsistency::NotDocumented => 3,
        }
    }

    pub fn try_from(value: i32) -> (r: Result<FileFormatConsistency, XwfError>)
        ensures
            r == spec_consistency_from(value),
    {
        if value < 0 {
            return Err(XwfError::InvalidEnumValue("FileFormatConsistency", value as i64));
        }
        let v = (value / 0x100) % 0x100;
        if v == 1 {
            Ok(FileFormatConsistency::Consistent)
        } else if v == 2 {
            Ok(FileFormatConsistency::Irregular)
        } else if v == 0 {
            Ok(FileFormatConsistency::Unknown)
        } else if v == 3 {
            Ok(FileFormatConsistency::NotDocumented)
        } else {
            Err(XwfError::InvalidEnumValue("FileFormatConsistency", value as i64))
        }
    }
}

/// How far the host has verified an item's file type.
#[derive(Debug, Clone, Copy, PartialEq, Eq, Structural)]
pub enum FileTypeStatus {
    NotVerified,
    TooSmall,
    TotallyUnknown,
    Confirmed,
    NotConfirmed,
    NewlyIdentified,
    MismatchDetected,
}

/// Which type status the low byte of the raw type-status word names; a
/// negative word or an undefined code is rejected.
pub open spec fn spec_type_status_from(value: i32) -> Result<FileTypeStatus, XwfError> {
    if value < 0 {
        Err(XwfError::InvalidEnumValue("FileTypeStatus", value as i64))
    } else {
        let v = value % 0x100;
        if v == 0 {
            Ok(FileTypeStatus::NotVerified)
        } else if v == 1 {
            Ok(FileTypeStatus::TooSmall)
        } else if v == 2 {
            Ok(FileTypeStatus::TotallyUnknown)
        } else if v == 3 {
            Ok(FileTypeStatus::Confirmed)
        } else if v == 4 {
            Ok(FileTypeStatus::NotConfirmed)
        } else if v == 5 {
            Ok(FileTypeStatus::NewlyIdentified)
        } else if v == 6 {
            Ok(FileTypeStatus::MismatchDetected)
        } else {
            Err(XwfError::InvalidEnumValue("FileTypeStatus", v as i64))
        }
    }
}

impl FileTypeStatus {
    #[verifier::allow_in_spec]
    pub fn code(self) -> i32
        returns (match self {
            FileTypeStatus::NotVerified => 0i32,
            FileTypeStatus::TooSmall => 1i32,
            FileTypeStatus::TotallyUnknown => 2i32,
            FileTypeStatus::Confirmed => 3i32,
            FileTypeStatus::NotConfirmed => 4i32,
            FileTypeStatus::NewlyIdentified => 5i32,
            FileTypeStatus::MismatchDetected => 6i32,
        })
    {
        match self {
            FileTypeStatus::NotVerified => 0,
            FileTypeStatus::TooSmall => 1,
            FileTypeStatus::TotallyUnknown => 2,
            FileTypeStatus::Confirmed => 3,
            FileTypeStatus::NotConfirmed => 4,
            FileTypeStatus::NewlyIdentified => 5,
            FileTypeStatus::MismatchDetected => 6,
        }
    }

    pub fn try_from(value: i32) -> (r: Result<FileTypeStatus, XwfError>)
        ensures
            r == spec_type_status_from(value),
    {
        if value < 0 {
            return Err(XwfError::InvalidEnumValue("FileTypeStatus", value as i64));
        }
        let v = value % 0x100;
        if v == 0 {
            Ok(FileTypeStatus::NotVerified)
        } else if v == 1 {
            Ok(FileTypeStatus::TooSmall)
        } else if v == 2 {
            Ok(FileTypeStatus::TotallyUnknown)
        } else if v == 3 {
            Ok(FileTypeStatus::Confirmed)
        } else if v == 4 {
            Ok(FileTypeStatus::NotConfirmed)
        } else if v == 5 {
            Ok(FileTypeStatus::NewlyIdentified)
        } else if v == 6 {
            Ok(FileTypeStatus::MismatchDetected)
        } else {
            Err(XwfError::InvalidEnumValue("FileTypeStatus", v as i64))
        }
    }
}

/// The broad category the host files an item's type under.
#[derive(Debug, Clone, Copy, PartialEq, Eq, Structural)]
pub enum FileTypeCategory {
    Picture,
    Word,
    Email,
    Internet,
    PageLayout,
    Spreadsheet,
    Misc,
    Text,
    Archive,
    Audio,
    Video,
    WindowsInternal,
    Thumbnail,
    Database,
    Program,
    MobilePhone,
    Chat,
    AddressBook,
    MacOsXIos,
    Cad,
    VariousData,
    Gps,
    DiskImage,
    SourceCode,
    Cryptography,
    WindowsRegistry,
    P2P,
    Ebook,
    Graphics3D,
    Projects,
    UnixLinux,
    Font,
    StillImage,
    Unknown,
    Other,
}

/// The category a textual designation from the host names, compared
/// without regard to ASCII letter case; an unrecognised designation is
/// `Other`.
pub open spec fn spec_category_from(s: Seq<char>) -> FileTypeCategory {
    let l = crate::marshal::spec_lower(s);
    if l == crate::marshal::spec_lower("pictures"@) {
        FileTypeCategory::Picture
    } else if l == crate::marshal::spec_lower("text, word processing"@) {
        FileTypeCategory::Word
    } else if l == crate::marshal::spec_lower("e-mail"@) {
        FileTypeCategory::Email
    } else if l == crate::marshal::spec_lower("internet"@) {
        FileTypeCategory::Internet
    } else if l == crate::marshal::spec_lower("page layout"@) {
        FileTypeCategory::PageLayout
    } else if l == crate::marshal::spec_lower("spreadsheet"@) {
        FileTypeCategory::Spreadsheet
    } else if l == crate::marshal::spec_lower("misc documents"@) {
        FileTypeCategory::Misc
    } else if l == crate::marshal::spec_lower("plain text"@) {
        FileTypeCategory::Text
    } else if l == crate::marshal::spec_lower("archives/backup"@) {
        FileTypeCategory::Archive
    } else if l == crate::marshal::spec_lower("audio"@) {
        FileTypeCategory::Audio
    } else if l == crate::marshal::spec_lower("video"@) {
        FileTypeCategory::Video
    } else if l == crate::marshal::spec_lower("windows internals"@) {
        FileTypeCategory::WindowsInternal
    } else if l == crate::marshal::spec_lower("thumbnails/icons"@) {
        FileTypeCategory::Thumbnail
    } else if l == crate::marshal::spec_lower("database, finance"@) {
        FileTypeCategory::Database
    } else if l == crate::marshal::spec_lower("programs"@) {
        FileTypeCategory::Program
    } else if l == crate::marshal::spec_lower("mobile phones"@) {
        FileTypeCategory::MobilePhone
    } else if l == crate::marshal::spec_lower("chat, messaging"@) {
        FileTypeCategory::Chat
    } else if l == crate::marshal::spec_lower("address book"@) {
        FileTypeCategory::AddressBook
    } else if l == crate::marshal::spec_lower("mac os x/ios system"@) {
        FileTypeCategory::MacOsXIos
    } else if l == crate::marshal::spec_lower("cad"@) {
        FileTypeCategory::Cad
    } else if l == crate::marshal::spec_lower("various data"@) {
        FileTypeCategory::VariousData
    } else if l == crate::marshal::spec_lower("gps/navigation"@) {
        FileTypeCategory::Gps
    } else if l == crate::marshal::spec_lower("disk image"@) {
        FileTypeCategory::DiskImage
    } else if l == crate::marshal::spec_lower("source code"@) {
        FileTypeCategory::SourceCode
    } else if l == crate::marshal::spec_lower("cryptography"@) {
        FileTypeCategory::Cryptography
    } else if l == crate::marshal::spec_lower("windows registry"@) {
        FileTypeCategory::WindowsRegistry
    } else if l == crate::marshal::spec_lower("p2p"@) {
        FileTypeCategory::P2P
    } else if l == crate::marshal::spec_lower("ebook"@) {
        FileTypeCategory::Ebook
    } else if l == crate::marshal::spec_lower("3d graphics"@) {
        FileTypeCategory::Graphics3D
    } else if l == crate::marshal::spec_lower("projects"@) {
        FileTypeCategory::Projects
    } else if l == crate::marshal::spec_lower("unix/linux system"@) {
        FileTypeCategory::UnixLinux
    } else if l == crate::marshal::spec_lower("fonts"@) {
        FileTypeCategory::UnixLinux
    } else if l == crate::marshal::spec_lower("still image"@) {
        FileTypeCategory::StillImage
    } else if l == crate::marshal::spec_lower("other/unknown type"@) {
        FileTypeCategory::Unknown
    } else if l == crate::marshal::spec_lower("anderer/unbek. typ"@) {
        FileTypeCategory::Unknown
    } else {
        FileTypeCategory::Other
    }
}

impl FileTypeCategory {
    /// Decodes the host's textual category designation, without regard
    /// to ASCII letter case; an unrecognised designation is `Other`.
    pub fn from_description(value: &String) -> (r: FileTypeCategory)
        ensures
            r == spec_category_from(value@),
    {
        let s = value.as_str();
        if crate::marshal::eq_ignore_ascii_case(s, "pictures") {
            FileTypeCategory::Picture
        } else if crate::marshal::eq_ignore_ascii_case(s, "text, word processing") {
            FileTypeCategory::Word
        } else if crate::marshal::eq_ignore_ascii_case(s, "e-mail") {
            FileTypeCategory::Email
        } else if crate::marshal::eq_ignore_ascii_case(s, "internet") {
            FileTypeCategory::Internet
        } else if crate::marshal::eq_ignore_ascii_case(s, "page layout") {
            FileTypeCategory::PageLayout
        } else if crate::marshal::eq_ignore_ascii_case(s, "spreadsheet") {
            FileTypeCategory::Spreadsheet
        } else if crate::marshal::eq_ignore_ascii_case(s, "misc documents") {
            FileTypeCategory::Misc
        } else if crate::marshal::eq_ignore_ascii_case(s, "plain text") {
            FileTypeCategory::Text
        } else if crate::marshal::eq_ignore_ascii_case(s, "archives/backup") {
            FileTypeCategory::Archive
        } else if crate::marshal::eq_ignore_ascii_case(s, "audio") {
            FileTypeCategory::Audio
        } else if crate::marshal::eq_ignore_ascii_case(s, "video") {
            FileTypeCategory::Video
        } else if crate::marshal::eq_ignore_ascii_case(s, "windows internals") {
            FileTypeCategory::WindowsInternal
        } else if crate::marshal::eq_ignore_ascii_case(s, "thumbnails/icons") {
            FileTypeCategory::Thumbnail
        } else if crate::marshal::eq_ignore_ascii_case(s, "database, finance") {
            FileTypeCategory::Database
        } else if crate::marshal::eq_ignore_ascii_case(s, "programs") {
            FileTypeCategory::Program
        } else if crate::marshal::eq_ignore_ascii_case(s, "mobile phones") {
            FileTypeCategory::MobilePhone
        } else if crate::marshal::eq_ignore_ascii_case(s, "chat, messaging") {
            FileTypeCategory::Chat
        } else if crate::marshal::eq_ignore_ascii_case(s, "address book") {
            FileTypeCategory::AddressBook
        } else if crate::marshal::eq_ignore_ascii_case(s, "mac os x/ios system") {
            FileTypeCategory::MacOsXIos
        } else if crate::marshal::eq_ignore_ascii_case(s, "cad") {
            FileTypeCategory::Cad
        } else if crate::marshal::eq_ignore_ascii_case(s, "various data") {
            FileTypeCategory::VariousData
        } else if crate::marshal::eq_ignore_ascii_case(s, "gps/navigation") {
            FileTypeCategory::Gps
        } else if crate::marshal::eq_ignore_ascii_case(s, "disk image") {
            FileTypeCategory::DiskImage
        } else if crate::marshal::eq_ignore_ascii_case(s, "source code") {
            FileTypeCategory::SourceCode
        } else if crate::marshal::eq_ignore_ascii_case(s, "cryptography") {
            FileTypeCategory::Cryptography
        } else if crate::marshal::eq_ignore_ascii_case(s, "windows registry") {
            FileTypeCategory::WindowsRegistry
        } else if crate::marshal::eq_ignore_ascii_case(s, "p2p") {
            FileTypeCategory::P2P
        } else if crate::marshal::eq_ignore_ascii_case(s, "ebook") {
            FileTypeCategory::Ebook
        } else if crate::marshal::eq_ignore_ascii_case(s, "3d graphics") {
            FileTypeCategory::Graphics3D
        } else if crate::marshal::eq_ignore_ascii_case(s, "projects") {
            FileTypeCategory::Projects
        } else if crate::marshal::eq_ignore_ascii_case(s, "unix/linux system") {
            FileTypeCategory::UnixLinux
        } else if crate::marshal::eq_ignore_ascii_case(s, "fonts") {
            FileTypeCategory::UnixLinux
        } else if crate::marshal::eq_ignore_ascii_case(s, "still image") {
            FileTypeCategory::StillImage
        } else if crate::marshal::eq_ignore_ascii_case(s, "other/unknown type") {
            FileTypeCategory::Unknown
        } else if crate::marshal::eq_ignore_ascii_case(s, "anderer/unbek. typ") {
            FileTypeCategory::Unknown
        } else {
            FileTypeCategory::Other
        }
    }
}

/// Size of the source-description record handed to the host when a new
/// item is created from a buffer, as laid out for the host's ABI: a 32-bit
/// size, a 64-bit length and a pointer, packed to 2 bytes.
pub const SRC_INFO_STRUCT_SIZE: u32 = 20;

/// Plain form of the source-description record for item creation; the
/// buffer itself stays with the caller, only its length is recorded here.
#[derive(Debug, Clone, Copy, PartialEq, Eq, Structural)]
pub struct SrcInfo {
    pub n_struct_size: u32,
    pub n_buf_size: i64,
}

impl SrcInfo {
    /// Describes the given buffer to the host.
    pub fn from_buffer(data: &Vec<u8>) -> (r: SrcInfo)
        requires
            data@.len() <= i64::MAX,
        ensures
            r.n_struct_size == SRC_INFO_STRUCT_SIZE,
            r.n_buf_size == data@.len(),
    {
        SrcInfo { n_struct_size: SRC_INFO_STRUCT_SIZE, n_buf_size: data.len() as i64 }
    }
}

} // verus!
