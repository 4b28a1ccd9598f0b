use xwf_api::error::XwfError;
use xwf_api::item::{Item, ItemHandle, UniqueItemId};
use xwf_api::types::{
    FileFormatConsistency, FileTypeCategory, FileTypeStatus, ItemInfoClassification,
    ItemInfoDeletion, SrcInfo, XtPrepareNegativeReturn, XtPrepareOpType, XtPrepareReturn,
    XtProcessItemReturn,
};
use xwf_api::flags::XtPreparePositiveReturnFlags;
use xwf_api::version::{XtVersion, check_supported_xwf_version};
use xwf_api::volume::{HashType, Volume};
use xwf_api::window::Window;

#[test]
fn unique_id_string_round_trip() {
    let id = UniqueItemId::new(5, 5, 42);
    let text = id.to_string();
    assert_eq!(text, "5-42");
    let back = UniqueItemId::try_from(&text).unwrap();
    assert_eq!(back.short_ev_id, 5);
    assert_eq!(back.evidence_id, 5);
    assert_eq!(back.item_id, 42);
}

#[test]
fn unique_id_packed_round_trip() {
    let id = UniqueItemId::new(7, 3, 123);
    let packed = id.to_packed_int64();
    assert_eq!(packed, (7i64 << 32) | 123);
    let back = UniqueItemId::from_packed_int64(packed);
    assert_eq!(back.evidence_id, 7);
    assert_eq!(back.item_id, 123);
    assert_eq!(back.short_ev_id, 0);
}

#[test]
fn unique_id_parse_rejects_malformed_text() {
    assert_eq!(
        UniqueItemId::try_from(&String::from("42")),
        Err(XwfError::InvalidInputArgument)
    );
    assert_eq!(
        UniqueItemId::try_from(&String::from("a-1")),
        Err(XwfError::InvalidInputArgument)
    );
    assert_eq!(
        UniqueItemId::try_from(&String::from("70000-1")),
        Err(XwfError::InvalidInputArgument)
    );
    assert_eq!(
        UniqueItemId::try_from(&String::from("2--5")),
        Err(XwfError::InvalidInputArgument)
    );
    let ok = UniqueItemId::try_from(&String::from("3-7")).unwrap();
    assert_eq!((ok.short_ev_id, ok.item_id), (3, 7));
}

#[test]
fn window_handle_round_trip() {
    let w = Window::new(0x1234).unwrap();
    assert_eq!(w.get_handle(), 0x1234);
    assert!(Window::new(0).is_none());
}

#[test]
fn volume_handle_round_trip() {
    let v = Volume::new(99).unwrap();
    assert_eq!(v.handle(), 99);
    assert_eq!(Volume::new(0), Err(XwfError::InputHandleIsNull));
}

#[test]
fn item_handle_round_trip() {
    let h = ItemHandle::new(77, Item::new(4)).unwrap();
    assert_eq!(h.get_handle(), 77);
    assert_eq!(h.item().item_id, 4);
    assert_eq!(
        ItemHandle::new(0, Item::new(4)),
        Err(XwfError::InputHandleIsNull)
    );
}

#[test]
fn version_word_decodes() {
    let v = XtVersion::try_from(0x14630000).unwrap();
    assert_eq!((v.major, v.minor, v.service_release, v.language), (52, 19, 0, 0));
    assert!(XtVersion::try_from(0).is_err());
    assert!(XtVersion::try_from(0x0000FF01).is_err());
}

#[test]
fn version_check_enforces_minimum() {
    let old = XtVersion { major: 19, minor: 9, service_release: 0, language: 0 };
    assert_eq!(
        check_supported_xwf_version(old),
        Err(XwfError::IncompatibleXwfVersion(old, 20, 0))
    );
    let new = XtVersion { major: 20, minor: 0, service_release: 3, language: 1 };
    assert_eq!(check_supported_xwf_version(new), Ok(()));
}

#[test]
fn hash_type_codes_and_sizes() {
    assert_eq!(HashType::try_from(7), Ok(HashType::MD5));
    assert_eq!(HashType::try_from(99), Err(()));
    assert_eq!(HashType::MD5.get_hash_size(), 16);
    assert_eq!(HashType::SHA256.get_hash_size(), 32);
    assert_eq!(HashType::CRC32.get_hash_size(), 4);
    assert_eq!(HashType::SHA1.code(), 8);
}

#[test]
fn classification_coerces_unknown_codes() {
    assert_eq!(
        ItemInfoClassification::try_from(0x08),
        Ok(ItemInfoClassification::NtfsAlternateDataStream)
    );
    assert_eq!(
        ItemInfoClassification::try_from(0x55),
        Ok(ItemInfoClassification::Unknown)
    );
    // only the low byte counts
    assert_eq!(
        ItemInfoClassification::try_from(0x1F4),
        Ok(ItemInfoClassification::NotDocumented4)
    );
}

#[test]
fn deletion_rejects_undefined_codes() {
    assert_eq!(ItemInfoDeletion::try_from(0), Ok(ItemInfoDeletion::Existing));
    assert!(ItemInfoDeletion::try_from(0).unwrap().is_existing());
    assert!(!ItemInfoDeletion::try_from(5).unwrap().is_existing());
    assert_eq!(
        ItemInfoDeletion::try_from(9),
        Err(XwfError::InvalidEnumValue("ItemInfoDeletion", 9))
    );
}

#[test]
fn type_status_and_consistency_decode() {
    assert_eq!(FileTypeStatus::try_from(3), Ok(FileTypeStatus::Confirmed));
    assert!(FileTypeStatus::try_from(-1).is_err());
    assert_eq!(
        FileFormatConsistency::try_from(0x0100),
        Ok(FileFormatConsistency::Consistent)
    );
    assert_eq!(
        FileFormatConsistency::try_from(0x0203),
        Ok(FileFormatConsistency::Irregular)
    );
    assert!(FileFormatConsistency::try_from(-1).is_err());
}

#[test]
fn category_matching_is_case_insensitive() {
    assert_eq!(
        FileTypeCategory::from_description(&String::from("Pictures")),
        FileTypeCategory::Picture
    );
    assert_eq!(
        FileTypeCategory::from_description(&String::from("ANDERER/UNBEK. TYP")),
        FileTypeCategory::Unknown
    );
    assert_eq!(
        FileTypeCategory::from_description(&String::from("fonts")),
        FileTypeCategory::UnixLinux
    );
    assert_eq!(
        FileTypeCategory::from_description(&String::from("no such category")),
        FileTypeCategory::Other
    );
}

#[test]
fn op_type_decodes_defined_codes_only() {
    assert_eq!(XtPrepareOpType::try_from(0), Ok(XtPrepareOpType::ActionRun));
    assert_eq!(
        XtPrepareOpType::try_from(6),
        Ok(XtPrepareOpType::EventListContextMenu)
    );
    assert_eq!(XtPrepareOpType::try_from(7), Err(()));
}

#[test]
fn return_codes_match_host_contract() {
    assert_eq!(XtPrepareNegativeReturn::StopWholeOperation.code(), -4);
    assert_eq!(XtPrepareNegativeReturn::JustCallXtFinalize.code(), 0);
    assert_eq!(
        XtPrepareReturn::Negative(XtPrepareNegativeReturn::ExcludeVolume).code(),
        -2
    );
    assert_eq!(
        XtPrepareReturn::Positive(XtPreparePositiveReturnFlags { bits: 0x03 }).code(),
        0x03
    );
    assert_eq!(XtProcessItemReturn::SkipAllOtherVSRefinements.code(), -2);
}

#[test]
fn src_info_describes_buffer() {
    let data: Vec<u8> = vec![1, 2, 3];
    let info = SrcInfo::from_buffer(&data);
    assert_eq!(info.n_struct_size, 20);
    assert_eq!(info.n_buf_size, 3);
}
