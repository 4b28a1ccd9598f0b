//! The table of host functions resolved by name at load time.
//!
//! The host exports one function per required symbol.  The embedding layer
//! looks every symbol up in the running process and hands the resulting
//! addresses in here, in the fixed order below; assembly is all-or-nothing,
//! so a table either holds a non-null address for every symbol or does not
//! exist at all.

use vstd::prelude::*;
use crate::error::XwfError;

verus! {

/// How many host functions the binding requires.
pub const FN_COUNT: usize = 45;

pub const FN_OUTPUT_MESSAGE: usize = 0;
pub const FN_GET_VOLUME_NAME: usize = 1;
pub const FN_GET_VOLUME_INFORMATION: usize = 2;
pub const FN_SET_ITEM_INFORMATION: usize = 3;
pub const FN_GET_ITEM_INFORMATION: usize = 4;
pub const FN_GET_ITEM_PARENT: usize = 5;
pub const FN_GET_ITEM_SIZE: usize = 6;
pub const FN_GET_ITEM_TYPE: usize = 7;
pub const FN_SET_ITEM_TYPE: usize = 8;
pub const FN_READ: usize = 9;
pub const FN_GET_FIRST_EV_OBJ: usize = 10;
pub const FN_GET_NEXT_EV_OBJ: usize = 11;
pub const FN_GET_CASE_PROP: usize = 12;
pub const FN_GET_EV_OBJ_PROP: usize = 13;
pub const FN_GET_EV_OBJ: usize = 14;
pub const FN_GET_REPORT_TABLE_INFO: usize = 15;
pub const FN_GET_EV_OBJ_REPORT_TABLE_ASSOCS: usize = 16;
pub const FN_OPEN_EV_OBJ: usize = 17;
pub const FN_ADD_TO_REPORT_TABLE: usize = 18;
pub const FN_GET_HASH_VALUE: usize = 19;
pub const FN_SET_HASH_VALUE: usize = 20;
pub const FN_OPEN_ITEM: usize = 21;
pub const FN_GET_VS_PROP: usize = 22;
pub const FN_SELECT_VOLUME_SNAPSHOT: usize = 23;
pub const FN_GET_ITEM_NAME: usize = 24;
pub const FN_GET_ITEM_COUNT: usize = 25;
pub const FN_GET_PROP: usize = 26;
pub const FN_CLOSE_EV_OBJ: usize = 27;
pub const FN_CLOSE: usize = 28;
pub const FN_SHOW_PROGRESS: usize = 29;
pub const FN_SET_PROGRESS_DESCRIPTION: usize = 30;
pub const FN_SET_PROGRESS_PERCENTAGE: usize = 31;
pub const FN_HIDE_PROGRESS: usize = 32;
pub const FN_SHOULD_STOP: usize = 33;
pub const FN_GET_USER_INPUT: usize = 34;
pub const FN_GET_REPORT_TABLE_ASSOCS: usize = 35;
pub const FN_GET_HASHSET_ASSOCS: usize = 36;
pub const FN_GET_EXTRACTED_METADATA: usize = 37;
pub const FN_GET_METADATA_EX: usize = 38;
pub const FN_RELEASE_MEM: usize = 39;
pub const FN_GET_ITEM_OFS: usize = 40;
pub const FN_GET_COMMENT: usize = 41;
pub const FN_SET_ITEM_PARENT: usize = 42;
pub const FN_SET_ITEM_SIZE: usize = 43;
pub const FN_CREATE_FILE: usize = 44;

/// The exported name of the host function at the given table position.
pub open spec fn spec_symbol_name(i: int) -> &'static str {
    if i == 0 {
        "XWF_OutputMessage"
    } else if i == 1 {
        "XWF_GetVolumeName"
    } else if i == 2 {
        "XWF_GetVolumeInformation"
    } else if i == 3 {
        "XWF_SetItemInformation"
    } else if i == 4 {
        "XWF_GetItemInformation"
    } else if i == 5 {
        "XWF_GetItemParent"
    } else if i == 6 {
        "XWF_GetItemSize"
    } else if i == 7 {
        "XWF_GetItemType"
    } else if i == 8 {
        "XWF_SetItemType"
    } else if i == 9 {
        "XWF_Read"
    } else if i == 10 {
        "XWF_GetFirstEvObj"
    } else if i == 11 {
        "XWF_GetNextEvObj"
    } else if i == 12 {
        "XWF_GetCaseProp"
    } else if i == 13 {
        "XWF_GetEvObjProp"
    } else if i == 14 {
        "XWF_GetEvObj"
    } else if i == 15 {
        "XWF_GetReportTableInfo"
    } else if i == 16 {
        "XWF_GetEvObjReportTableAssocs"
    } else if i == 17 {
        "XWF_OpenEvObj"
    } else if i == 18 {
        "XWF_AddToReportTable"
    } else if i == 19 {
        "XWF_GetHashValue"
    } else if i == 20 {
        "XWF_SetHashValue"
    } else if i == 21 {
        "XWF_OpenItem"
    } else if i == 22 {
        "XWF_GetVSProp"
    } else if i == 23 {
        "XWF_SelectVolumeSnapshot"
    } else if i == 24 {
        "XWF_GetItemName"
    } else if i == 25 {
        "XWF_GetItemCount"
    } else if i == 26 {
        "XWF_GetProp"
    } else if i == 27 {
        "XWF_CloseEvObj"
    } else if i == 28 {
        "XWF_Close"
    } else if i == 29 {
        "XWF_ShowProgress"
    } else if i == 30 {
        "XWF_SetProgressDescription"
    } else if i == 31 {
        "XWF_SetProgressPercentage"
    } else if i == 32 {
        "XWF_HideProgress"
    } else if i == 33 {
        "XWF_ShouldStop"
    } else if i == 34 {
        "XWF_GetUserInput"
    } else if i == 35 {
        "XWF_GetReportTableAssocs"
    } else if i == 36 {
        "XWF_GetHashSetAssocs"
    } else if i == 37 {
        "XWF_GetExtractedMetadata"
    } else if i == 38 {
        "XWF_GetMetadataEx"
    } else if i == 39 {
        "XWF_ReleaseMem"
    } else if i == 40 {
        "XWF_GetItemOfs"
    } else if i == 41 {
        "XWF_GetComment"
    } else if i == 42 {
        "XWF_SetItemParent"
    } else if i == 43 {
        "XWF_SetItemSize"
    } else {
        "XWF_CreateFile"
    }
}

/// The exported name of the host function at the given table position.
pub fn symbol_name(i: usize) -> (r: &'static str)
    requires
        i < FN_COUNT,
    ensures
        r == spec_symbol_name(i as int),
{
    match i {
        0 => "XWF_OutputMessage",
        1 => "XWF_GetVolumeName",
        2 => "XWF_GetVolumeInformation",
        3 => "XWF_SetItemInformation",
        4 => "XWF_GetItemInformation",
        5 => "XWF_GetItemParent",
        6 => "XWF_GetItemSize",
        7 => "XWF_GetItemType",
        8 => "XWF_SetItemType",
        9 => "XWF_Read",
        10 => "XWF_GetFirstEvObj",
        11 => "XWF_GetNextEvObj",
        12 => "XWF_GetCaseProp",
        13 => "XWF_GetEvObjProp",
        14 => "XWF_GetEvObj",
        15 => "XWF_GetReportTableInfo",
        16 => "XWF_GetEvObjReportTableAssocs",
        17 => "XWF_OpenEvObj",
        18 => "XWF_AddToReportTable",
        19 => "XWF_GetHashValue",
        20 => "XWF_SetHashValue",
        21 => "XWF_OpenItem",
        22 => "XWF_GetVSProp",
        23 => "XWF_SelectVolumeSnapshot",
        24 => "XWF_GetItemName",
        25 => "XWF_GetItemCount",
        26 => "XWF_GetProp",
        27 => "XWF_CloseEvObj",
        28 => "XWF_Close",
        29 => "XWF_ShowProgress",
        30 => "XWF_SetProgressDescription",
        31 => "XWF_SetProgressPercentage",
        32 => "XWF_HideProgress",
        33 => "XWF_ShouldStop",
        34 => "XWF_GetUserInput",
        35 => "XWF_GetReportTableAssocs",
        36 => "XWF_GetHashSetAssocs",
        37 => "XWF_GetExtractedMetadata",
        38 => "XWF_GetMetadataEx",
        39 => "XWF_ReleaseMem",
        40 => "XWF_GetItemOfs",
        41 => "XWF_GetComment",
        42 => "XWF_SetItemParent",
        43 => "XWF_SetItemSize",
        _ => "XWF_CreateFile",
    }
}

/// The assembled table: one non-null address per required symbol, in the
/// order of the `FN_*` positions.
pub struct FunctionTable {
    addrs: Vec<u64>,
}

impl View for FunctionTable {
    type V = Seq<u64>;

    closed spec fn view(&self) -> Seq<u64> {
        self.addrs@
    }
}

impl FunctionTable {
    /// A table is well-formed only when it is complete and every address
    /// in it is non-null.
    pub open spec fn wf(&self) -> bool {
        &&& self@.len() == FN_COUNT
        &&& forall|i: int| 0 <= i < FN_COUNT ==> self@[i] != 0
    }

    /// Assembles the table from the resolved addresses, one per required
    /// symbol in table order.  Assembly succeeds exactly when every
    /// address was resolved; the first unresolved symbol names the error,
    /// and no partial table is ever produced.
    pub fn load(resolved: &Vec<u64>) -> (r: Result<FunctionTable, XwfError>)
        ensures
            (r is Ok) <==> (resolved@.len() == FN_COUNT && (forall|i: int|
                0 <= i < FN_COUNT ==> resolved@[i] != 0)),
            r matches Ok(t) ==> t@ == resolved@ && t.wf(),
            resolved@.len() != FN_COUNT ==> r == Err::<FunctionTable, XwfError>(
                XwfError::InvalidInputArgument,
            ),
            resolved@.len() == FN_COUNT ==> (r matches Err(e) ==> exists|i: int|
                0 <= i < FN_COUNT && resolved@[i] == 0 && (forall|j: int|
                    0 <= j < i ==> resolved@[j] != 0) && e == XwfError::XwfFunctionCallFailed(
                    spec_symbol_name(i),
                )),
    {
        if resolved.len() != FN_COUNT {
            return Err(XwfError::InvalidInputArgument);
        }
        let mut i: usize = 0;
        while i < FN_COUNT
            invariant
                resolved@.len() == FN_COUNT,
                i <= FN_COUNT,
                forall|j: int| 0 <= j < i ==> resolved@[j] != 0,
            decreases FN_COUNT - i,
        {
            if resolved[i] == 0 {
                return Err(XwfError::XwfFunctionCallFailed(symbol_name(i)));
            }
            i += 1;
        }
        Ok(FunctionTable { addrs: resolved.clone() })
    }

    /// The resolved address of the host function at the given position.
    pub fn addr(&self, i: usize) -> (r: u64)
        requires
            self.wf(),
            i < FN_COUNT,
        ensures
            r == self@[i as int],
            r != 0,
    {
        self.addrs[i]
    }

    /// How many symbols the table holds.
    pub fn len(&self) -> (r: usize)
        requires
            self.wf(),
        ensures
            r == FN_COUNT,
    {
        self.addrs.len()
    }
}

} // verus!
