use xwf_api::case::{Case, CaseInfo, ReportTable};
use xwf_api::error::XwfError;
use xwf_api::evidence::{Evidence, ReportTableListItem, ReportTableMap};
use xwf_api::flags::{ReportTableFlags, ITEM_IS_DIRECTORY};
use xwf_api::item::{read_from_source, ChunkedRead, Item, ItemHandle};
use xwf_api::types::XwfItemInfoTypes;
use xwf_api::datetime::{XwfDateTime, XwfTimestamp};
use xwf_api::flags::ItemInfoFlags;
use xwf_api::volume::Volume;

#[test]
fn chunked_read_takes_ceil_calls_and_all_bytes() {
    let source: Vec<u8> = (0u8..10).collect();
    let (data, calls) = read_from_source(&source, 4);
    assert_eq!(data, source);
    assert_eq!(calls, 3);
}

#[test]
fn chunked_read_with_exact_multiple() {
    let source: Vec<u8> = (0u8..8).collect();
    let (data, calls) = read_from_source(&source, 4);
    assert_eq!(data, source);
    assert_eq!(calls, 2);
}

#[test]
fn chunked_read_of_nothing_makes_no_call() {
    let source: Vec<u8> = vec![];
    let (data, calls) = read_from_source(&source, 4);
    assert_eq!(data, source);
    assert_eq!(calls, 0);
}

#[test]
fn chunked_read_machine_steps() {
    let mut plan = ChunkedRead::new(5, 2);
    assert_eq!(plan.next_request(), Some((0, 2)));
    plan.feed(vec![1, 2]).unwrap();
    assert_eq!(plan.next_request(), Some((2, 2)));
    plan.feed(vec![3, 4]).unwrap();
    assert_eq!(plan.next_request(), Some((4, 1)));
    plan.feed(vec![5]).unwrap();
    assert_eq!(plan.next_request(), None);
    assert_eq!(plan.finish(), Ok(vec![1, 2, 3, 4, 5]));
}

#[test]
fn chunked_read_empty_reply_is_fatal() {
    let mut plan = ChunkedRead::new(4, 2);
    assert_eq!(plan.feed(vec![]), Err(XwfError::ReadItemDataFailed));
    assert_eq!(plan.next_request(), None);
    assert_eq!(plan.finish(), Err(XwfError::ReadItemDataFailed));
}

#[test]
fn read_rejects_non_positive_size() {
    let h = ItemHandle::new(9, Item::new(1)).unwrap();
    assert!(h.read(0, 1024).is_err());
    assert!(h.read(-3, 1024).is_err());
    assert!(h.read(10, 1024).is_ok());
}

#[test]
fn read_chunk_truncates_to_host_count() {
    let h = ItemHandle::new(9, Item::new(1)).unwrap();
    assert_eq!(h.read_chunk(0, vec![1, 2, 3]), None);
    assert_eq!(h.read_chunk(-1, vec![1, 2, 3]), None);
    assert_eq!(h.read_chunk(2, vec![1, 2, 3]), Some(vec![1, 2]));
}

#[test]
fn logical_size_must_be_positive() {
    let h = ItemHandle::new(9, Item::new(1)).unwrap();
    assert_eq!(h.get_logical_size(12), Ok(12));
    assert_eq!(h.get_logical_size(0), Err(XwfError::InvalidItemSize));
    assert_eq!(h.get_logical_size(-5), Err(XwfError::InvalidItemSize));
}

#[test]
fn item_count_guards_signed_range() {
    let v = Volume::new(1).unwrap();
    assert_eq!(v.get_item_count(0xFFFFFFFF), Err(XwfError::MaxItemIdExceeded));
    assert_eq!(v.get_item_count(0x80000000), Err(XwfError::MaxItemIdExceeded));
    assert_eq!(v.get_item_count(5), Ok(5));
    assert_eq!(v.get_item_count_dbc(0x7FFFFFFF), Ok(0x7FFFFFFF));
}

#[test]
fn volume_iterator_walks_the_range() {
    let v = Volume::new(1).unwrap();
    let mut it = v.iter(0, 3).unwrap();
    assert_eq!(it.next().map(|i| i.item_id), Some(0));
    assert_eq!(it.next().map(|i| i.item_id), Some(1));
    assert_eq!(it.next().map(|i| i.item_id), Some(2));
    assert_eq!(it.next(), None);
    assert!(v.iter(-1, 3).is_err());
    assert!(v.iter(0, 0x90000000).is_err());
}

#[test]
fn evidence_two_pass_links_children() {
    let mut a = Evidence::new(11).unwrap();
    a.set_info(10, 1, Some(20));
    let mut b = Evidence::new(12).unwrap();
    b.set_info(20, 2, None);
    let out = Evidence::get_evidences(vec![a, b]).unwrap();
    assert_eq!(out[1].child(), Some(10));
    assert_eq!(out[0].child(), None);
    assert_eq!(out[0].get_parent(), Some(20));
    assert_eq!(out[1].get_id(), 20);
}

#[test]
fn evidence_list_must_not_be_empty() {
    assert!(Evidence::get_evidences(vec![]).is_none());
    assert!(Evidence::new(0).is_none());
}

#[test]
fn packed_assocs_decode_and_accumulate() {
    // two records: table 1 -> item 2, table 1 -> item 3
    let bytes: Vec<u8> = vec![1, 0, 2, 0, 0, 0, 1, 0, 3, 0, 0, 0];
    let mut map = ReportTableMap::new();
    ReportTableListItem::insert_to_map(&bytes, 2, &mut map);
    assert_eq!(map.len(), 2);
    assert_eq!(map.values_for(1), vec![2, 3]);
    assert_eq!(map.values_for(9), Vec::<u32>::new());
}

#[test]
fn packed_assocs_respect_declared_count() {
    let bytes: Vec<u8> = vec![1, 0, 2, 0, 0, 0, 7, 0, 9, 0, 0, 0];
    let mut map = ReportTableMap::new();
    ReportTableListItem::insert_to_map(&bytes, 1, &mut map);
    assert_eq!(map.len(), 1);
    assert_eq!(map.get(0), (1, 2));
}

#[test]
fn assoc_reply_with_null_list_is_none() {
    let bytes: Vec<u8> = vec![];
    assert!(ReportTableListItem::get_report_table_assocs(false, &bytes, 0).is_none());
    assert!(ReportTableListItem::get_report_table_assocs(true, &bytes, 0).is_some());
}

#[test]
fn report_table_lookup() {
    let tables = vec![
        ReportTable { name: String::from("alpha"), id: 3, flags: ReportTableFlags { bits: 0 } },
        ReportTable { name: String::from("beta"), id: 5, flags: ReportTableFlags { bits: 2 } },
    ];
    assert_eq!(
        ReportTable::find_by_name(&tables, String::from("beta")).map(|t| t.id),
        Some(5)
    );
    assert!(ReportTable::find_by_name(&tables, String::from("gamma")).is_none());
    assert_eq!(
        ReportTable::find_by_id(&tables, 3).map(|t| t.name.clone()),
        Some(String::from("alpha"))
    );
    assert!(ReportTable::find_by_id(&tables, 9).is_none());
}

#[test]
fn report_tables_from_host_listing() {
    let replies = vec![
        Some((String::from("first"), 4u32)),
        None,
        Some((String::from("third"), 1u32)),
    ];
    let tables = ReportTable::from_host_list(&replies);
    assert_eq!(tables.len(), 2);
    assert_eq!(tables[0].id, 0);
    assert_eq!(tables[0].name, "first");
    assert_eq!(tables[1].id, 2);
    assert_eq!(tables[1].flags.bits, 1);
}

#[test]
fn case_cache_answers_membership() {
    let tables = vec![
        ReportTable { name: String::from("alpha"), id: 1, flags: ReportTableFlags { bits: 0 } },
        ReportTable { name: String::from("beta"), id: 2, flags: ReportTableFlags { bits: 0 } },
    ];
    let bytes: Vec<u8> = vec![1, 0, 7, 0, 0, 0, 2, 0, 8, 0, 0, 0];
    let map = ReportTableListItem::get_report_table_assocs(true, &bytes, 2).unwrap();
    let per_evidence = vec![(40u32, map)];
    let mut case = Case::new();
    case.compute_report_table_cache(tables, &per_evidence).unwrap();
    let alpha = case.get_report_table_by_name("alpha").cloned();
    assert!(case.contained_in_report_table(alpha.as_ref(), 40, &Item::new(7)));
    assert!(!case.contained_in_report_table(alpha.as_ref(), 40, &Item::new(8)));
    assert!(!case.contained_in_report_table(alpha.as_ref(), 41, &Item::new(7)));
    assert!(!case.contained_in_report_table(None, 40, &Item::new(7)));
    let hits = case.get_cached_report_tables(40, &Item::new(8));
    assert_eq!(hits.len(), 1);
    assert_eq!(hits[0].id, 2);
    assert_eq!(case.get_report_table_by_id(&2).map(|t| t.name.clone()), Some(String::from("beta")));
}

#[test]
fn case_cache_needs_evidence() {
    let mut case = Case::new();
    assert_eq!(
        case.compute_report_table_cache(vec![], &vec![]),
        Err(XwfError::NoEvidenceAvaible)
    );
}

#[test]
fn case_infos_decode() {
    let examiner: Vec<u16> = vec![0x65, 0];
    let title: Vec<u16> = vec![0x74, 0];
    let file: Vec<u16> = vec![0x66, 0];
    let dir: Vec<u16> = vec![0x64, 0];
    let c = CaseInfo::get_case_infos(
        9,
        116444736000000000 + 10_000_000,
        1,
        &examiner,
        1,
        &title,
        1,
        &file,
        1,
        &dir,
    )
    .unwrap();
    assert_eq!(c.id, 9);
    assert_eq!(c.creation_date.secs, 1);
    assert_eq!(c.examiner, "e");
    assert_eq!(c.title, "t");
    assert_eq!(c.file, "f");
    assert_eq!(c.dir, "d");
    assert!(CaseInfo::get_case_infos(9, 0, 1, &examiner, 1, &title, 1, &file, 1, &dir).is_err());
    assert!(
        CaseInfo::get_case_infos(9, 5, -1, &examiner, 1, &title, 1, &file, 1, &dir).is_err()
    );
}

#[test]
fn hierarchy_and_children_follow_parent_table() {
    // 0 is the root; 1 and 2 sit below 0; 3 sits below 2.
    let parents: Vec<i32> = vec![-1, 0, 0, 2];
    let item = Item::new(3);
    let up: Vec<i32> = item.get_hierarchy(&parents).iter().map(|i| i.item_id).collect();
    assert_eq!(up, vec![2, 0]);
    let children: Vec<i32> = Item::new(0).get_child_items(&parents).iter().map(|i| i.item_id).collect();
    assert_eq!(children, vec![1, 2]);
    assert_eq!(Item::new(5).get_parent_item(-1), None);
    assert_eq!(Item::new(5).get_parent_item(2).map(|i| i.item_id), Some(2));
}

#[test]
fn parent_dir_finds_nearest_directory() {
    let parents: Vec<i32> = vec![-1, 0, 1];
    let flags: Vec<u64> = vec![ITEM_IS_DIRECTORY, ITEM_IS_DIRECTORY, 0];
    assert_eq!(
        Item::new(2).get_parent_dir(&parents, &flags).map(|i| i.item_id),
        Some(1)
    );
    assert_eq!(
        Item::new(1).get_parent_dir(&parents, &flags).map(|i| i.item_id),
        Some(1)
    );
    let no_dirs: Vec<u64> = vec![0, 0, 0];
    assert_eq!(Item::new(2).get_parent_dir(&parents, &no_dirs), None);
}

#[test]
fn path_joins_ancestor_names() {
    let parents: Vec<i32> = vec![-1, 0, 1];
    let names = vec![
        String::from("root"),
        String::from("dir"),
        String::from("file.txt"),
    ];
    assert_eq!(Item::new(2).get_path(&parents, &names), "\\dir\\file.txt");
    assert_eq!(Item::new(1).get_path(&parents, &names), "\\dir");
    assert_eq!(Item::new(0).get_path(&parents, &names), "\\");
}

#[test]
fn item_info_time_decodes_timezone_markers() {
    let item = Item::new(1);
    let flags = ItemInfoFlags { bits: 0 };
    let raw = 116444736000000000 + 10_000_000;
    match item.get_item_info_time(XwfItemInfoTypes::CreationTime, false, &flags, raw) {
        Some(XwfDateTime::Utc(ts)) => assert_eq!(ts, XwfTimestamp { secs: 1, nanos: 0 }),
        other => panic!("unexpected decode: {:?}", other),
    }
    let not_utc = ItemInfoFlags { bits: 0x100 };
    assert!(matches!(
        item.get_item_info_time(XwfItemInfoTypes::CreationTime, false, &not_utc, raw),
        Some(XwfDateTime::NoTimezone(_))
    ));
    assert!(matches!(
        item.get_item_info_time(XwfItemInfoTypes::ModificationTime, true, &flags, raw),
        Some(XwfDateTime::Local(_))
    ));
    assert_eq!(
        item.get_item_info_time(XwfItemInfoTypes::CreationTime, false, &flags, 0),
        None
    );
    assert_eq!(
        item.get_item_info_time(XwfItemInfoTypes::Attr, false, &flags, raw),
        None
    );
}

#[test]
fn metadata_splitting() {
    let item = Item::new(1);
    let text = String::from("a\r\nb\n\nc");
    assert_eq!(item.get_extracted_metadata(&text), vec!["a", "b", "c"]);
    let h = ItemHandle::new(4, item).unwrap();
    assert_eq!(h.get_metadata(0x01000000, &text), None);
    assert_eq!(
        h.get_metadata(0, &String::from("x\ny")),
        Some(vec![String::from("x"), String::from("y")])
    );
}

#[test]
fn item_reply_interpreters() {
    let item = Item::new(6);
    assert_eq!(item.get_item_info(0, 5), Err(XwfError::XwfFunctionCallFailed("get_item_information")));
    assert_eq!(item.get_item_info(1, 5), Ok(5));
    assert_eq!(item.get_item_offset(100, 7), Some((100, 7)));
    assert_eq!(item.get_item_offset(-100, 7), Some((100, 7)));
    assert_eq!(item.get_item_offset(100, -1), None);
    assert_eq!(item.get_item_offset(0, 7), None);
    assert_eq!(item.get_item_offset(0xFFFFFFFF, 7), None);
    assert_eq!(item.create_file(-1), Err(XwfError::XwfFunctionCallFailed("create_file")));
    assert_eq!(item.create_file(12).map(|i| i.item_id), Ok(12));
    assert!(item.open(0).is_err());
    assert_eq!(item.open(5).map(|h| h.get_handle()), Ok(5));
    assert_eq!(item.get_size(42), 42);
}

#[test]
fn hash_request_and_reply() {
    let buf = Item::get_hash_value_request(16, false);
    assert_eq!(buf.len(), 16);
    assert_eq!(buf[0], 1);
    assert!(buf[1..].iter().all(|b| *b == 0));
    let small = Item::get_hash_value_request(2, true);
    assert_eq!(small.len(), 4);
    assert_eq!(small[0], 2);
    let item = Item::new(1);
    let reply: Vec<u8> = (0u8..16).collect();
    assert_eq!(item.get_hash_value(4, 1, reply.clone()), Some(vec![0, 1, 2, 3]));
    assert_eq!(item.get_hash_value(4, 0, reply), None);
    assert_eq!(Item::set_hash_value_request(true), 2);
    assert_eq!(item.set_hash_value(0), Err(XwfError::XwfFunctionCallFailed("set_hash_value")));
    assert_eq!(item.set_hash_value(1), Ok(()));
}
