use netcdf::call::{Call, ElementType, Entry, Identifier, Reply, NC_GLOBAL, NC_STRING};
use netcdf::error::{Error, NC_EBADDIM, NC_ENOGRP, NC_ENOTATT, NC_ENOTVAR};
use netcdf::file::{File, MemFile, MutableFile, ReadOnlyFile};

fn reply(status: i32, id: i32) -> Reply {
    Reply { status, id, len: 0, bytes: Vec::new(), entries: Vec::new() }
}

fn sized(status: i32, id: i32, len: usize) -> Reply {
    Reply { status, id, len, bytes: Vec::new(), entries: Vec::new() }
}

fn entry(status: i32, id: i32, len: usize, name: &[u8]) -> Entry {
    Entry { status, id, len, name: name.to_vec() }
}

fn listing(status: i32, entries: Vec<Entry>) -> Reply {
    Reply { status, id: 0, len: 0, bytes: Vec::new(), entries }
}

fn read_only(ncid: i32) -> ReadOnlyFile {
    File::open(&reply(0, ncid)).unwrap()
}

fn mutable(ncid: i32) -> MutableFile {
    File::create(&reply(0, ncid)).unwrap()
}

#[test]
fn status_codes_for_absent_items() {
    assert_eq!(NC_ENOGRP, -125);
    assert_eq!(NC_EBADDIM, -46);
    assert_eq!(NC_ENOTVAR, -49);
    assert_eq!(NC_ENOTATT, -43);
    assert_eq!(NC_GLOBAL, -1);
    assert_eq!(NC_STRING, 12);
}

#[test]
fn root_group_has_the_identifier_of_the_dataset() {
    let file = read_only(65536);
    assert_eq!(file.root().id(), 65536);
}

#[test]
fn group_lookup_builds_a_call_on_the_dataset() {
    let file = read_only(7);
    assert_eq!(file.group_call("grp"), Ok(Call::FindGroup { ncid: 7, name: "grp".to_string() }));
    assert_eq!(file.group_call("g\0p"), Err(Error::EncodingError));
}

#[test]
fn group_lookup_finds_finds_nothing_or_fails() {
    let file = read_only(7);
    assert_eq!(file.group(&reply(0, 70)).unwrap().map(|g| g.id()), Some(70));
    assert!(file.group(&reply(NC_ENOGRP, 70)).unwrap().is_none());
    assert_eq!(file.group(&reply(-33, 70)).err(), Some(Error::UnderlyingLibraryError(-33)));
}

#[test]
fn groups_come_in_the_order_enumerated() {
    let file = read_only(7);
    assert_eq!(file.groups_call(), Call::ListGroups { ncid: 7 });
    let r = listing(0, vec![entry(0, 31, 0, b""), entry(0, 30, 0, b""), entry(0, 32, 0, b"")]);
    let ids: Vec<i32> = file.groups(&r).unwrap().iter().map(|g| g.id()).collect();
    assert_eq!(ids, vec![31, 30, 32]);
    assert!(file.groups(&listing(0, Vec::new())).unwrap().is_empty());
    assert_eq!(
        file.groups(&listing(-33, vec![entry(0, 31, 0, b"")])).err(),
        Some(Error::UnderlyingLibraryError(-33))
    );
}

#[test]
fn groups_can_be_enumerated_again() {
    let file = read_only(7);
    let r = listing(0, vec![entry(0, 31, 0, b""), entry(0, 30, 0, b"")]);
    let first: Vec<i32> = file.groups(&r).unwrap().iter().map(|g| g.id()).collect();
    let second: Vec<i32> = file.groups(&r).unwrap().iter().map(|g| g.id()).collect();
    assert_eq!(first, second);
}

#[test]
fn dimension_lookup_reports_the_length_of_the_reply() {
    let file = read_only(7);
    assert_eq!(
        file.dimension_call("time"),
        Ok(Call::FindDimension { ncid: 7, name: "time".to_string() })
    );
    let d = file.dimension(&sized(0, 2, 10)).unwrap().unwrap();
    assert_eq!(d.len(), 10);
    assert!(!d.is_unlimited());
    assert_eq!(d.identifier(), Identifier { ncid: 7, dimid: 2 });
    let d = file.dimension(&sized(0, 3, 0)).unwrap().unwrap();
    assert_eq!(d.len(), 0);
    assert!(d.is_unlimited());
}

#[test]
fn dimension_lookup_finds_nothing_or_fails() {
    let file = read_only(7);
    assert!(file.dimension(&sized(NC_EBADDIM, 0, 0)).unwrap().is_none());
    assert_eq!(
        file.dimension(&sized(NC_ENOGRP, 0, 0)).err(),
        Some(Error::UnderlyingLibraryError(NC_ENOGRP))
    );
    assert_eq!(file.dimension_call("\0"), Err(Error::EncodingError));
}

#[test]
fn dimensions_come_in_the_order_enumerated() {
    let file = read_only(7);
    assert_eq!(file.dimensions_call(), Call::ListDimensions { ncid: 7 });
    let r = listing(0, vec![entry(0, 0, 6, b""), entry(0, 1, 0, b""), entry(0, 2, 12, b"")]);
    let dims = file.dimensions(&r).unwrap();
    let seen: Vec<(i32, usize, bool)> =
        dims.iter().map(|d| (d.identifier().dimid, d.len(), d.is_unlimited())).collect();
    assert_eq!(seen, vec![(0, 6, false), (1, 0, true), (2, 12, false)]);
    assert!(dims.iter().all(|d| d.identifier().ncid == 7));
}

#[test]
fn dimensions_fail_with_the_first_failed_item() {
    let file = read_only(7);
    let r = listing(
        0,
        vec![entry(0, 0, 6, b""), entry(-46, 1, 0, b""), entry(-33, 2, 12, b"")],
    );
    assert_eq!(file.dimensions(&r).err(), Some(Error::UnderlyingLibraryError(-46)));
    let r = listing(-36, vec![entry(-46, 1, 0, b"")]);
    assert_eq!(file.dimensions(&r).err(), Some(Error::UnderlyingLibraryError(-36)));
}

#[test]
fn attribute_lookup_is_at_global_scope() {
    let file = read_only(7);
    assert_eq!(
        file.attribute_call("title"),
        Ok(Call::FindAttribute { ncid: 7, varid: -1, name: "title".to_string() })
    );
    let a = file.attribute("title", &reply(0, 0)).unwrap().unwrap();
    assert_eq!(a.name(), "title");
    assert_eq!(a.ncid(), 7);
    assert_eq!(a.owner(), NC_GLOBAL);
}

#[test]
fn attribute_lookup_finds_nothing_or_fails() {
    let file = read_only(7);
    assert!(file.attribute("title", &reply(NC_ENOTATT, 0)).unwrap().is_none());
    assert_eq!(
        file.attribute("title", &reply(-33, 0)).err(),
        Some(Error::UnderlyingLibraryError(-33))
    );
    assert_eq!(file.attribute("ti\0tle", &reply(0, 0)).err(), Some(Error::EncodingError));
    assert_eq!(file.attribute_call("ti\0tle"), Err(Error::EncodingError));
}

#[test]
fn attributes_are_each_fallible() {
    let file = read_only(7);
    assert_eq!(file.attributes_call(), Call::ListAttributes { ncid: 7, varid: -1 });
    let r = listing(
        0,
        vec![
            entry(0, 0, 0, b"title"),
            entry(-43, 1, 0, b"lost"),
            entry(0, 2, 0, &[0xff, 0xfe]),
            entry(0, 3, 0, "enhet".as_bytes()),
        ],
    );
    let seen: Vec<Result<String, Error>> = file
        .attributes(&r)
        .unwrap()
        .into_iter()
        .map(|a| a.map(|a| a.name().to_string()))
        .collect();
    assert_eq!(
        seen,
        vec![
            Ok("title".to_string()),
            Err(Error::UnderlyingLibraryError(-43)),
            Err(Error::EncodingError),
            Ok("enhet".to_string()),
        ]
    );
    assert_eq!(file.attributes(&listing(-33, Vec::new())).err(), Some(Error::UnderlyingLibraryError(-33)));
}

#[test]
fn variable_lookup_finds_finds_nothing_or_fails() {
    let file = read_only(7);
    assert_eq!(
        file.variable_call("temp"),
        Ok(Call::FindVariable { ncid: 7, name: "temp".to_string() })
    );
    let v = file.variable(&reply(0, 4)).unwrap().unwrap();
    assert_eq!((v.ncid(), v.id()), (7, 4));
    assert!(file.variable(&reply(NC_ENOTVAR, 4)).unwrap().is_none());
    assert_eq!(file.variable(&reply(-33, 4)).err(), Some(Error::UnderlyingLibraryError(-33)));
}

#[test]
fn variables_are_each_fallible() {
    let file = read_only(7);
    assert_eq!(file.variables_call(), Call::ListVariables { ncid: 7 });
    let r = listing(0, vec![entry(0, 0, 0, b""), entry(-49, 1, 0, b""), entry(0, 2, 0, b"")]);
    let seen: Vec<Result<i32, Error>> =
        file.variables(&r).unwrap().into_iter().map(|v| v.map(|v| v.id())).collect();
    assert_eq!(seen, vec![Ok(0), Err(Error::UnderlyingLibraryError(-49)), Ok(2)]);
}

#[test]
fn mutable_view_offers_the_read_surface() {
    let file = mutable(9);
    assert_eq!(file.root().id(), 9);
    assert_eq!(file.groups_call(), Call::ListGroups { ncid: 9 });
    assert_eq!(file.path_len_call(), Call::PathLen { ncid: 9 });
    let d = file.dimension(&sized(0, 1, 5)).unwrap().unwrap();
    assert_eq!(d.len(), 5);
}

#[test]
fn memory_view_offers_the_read_surface() {
    let buffer = vec![0u8; 16];
    let file: MemFile = File::open_from_memory(&buffer, &reply(0, 11)).unwrap();
    assert_eq!(file.root().id(), 11);
    assert_eq!(file.variables_call(), Call::ListVariables { ncid: 11 });
    assert!(file.group(&reply(NC_ENOGRP, 0)).unwrap().is_none());
}

#[test]
fn new_dataset_has_no_groups_dimensions_or_variables() {
    let created = mutable(5);
    assert_eq!(created.close(), Call::Close { ncid: 5 });
    let file = read_only(6);
    let empty = listing(0, Vec::new());
    assert_eq!(file.groups(&empty).unwrap().len(), 0);
    assert_eq!(file.dimensions(&empty).unwrap().len(), 0);
    assert_eq!(file.variables(&empty).unwrap().len(), 0);
    assert_eq!(file.root().id(), 6);
}

#[test]
fn root_mut_has_the_identifier_of_the_dataset() {
    let mut file = mutable(9);
    assert_eq!(file.root_mut().id(), 9);
    let mut file = mutable(10);
    let root = file.root_mut();
    let plain: &netcdf::group::Group = &root;
    assert_eq!(plain.id(), 10);
}

#[test]
fn add_dimension_reports_the_length_asked_for() {
    let mut file = mutable(9);
    assert_eq!(
        file.add_dimension_call("x", 6),
        Ok(Call::AddDimension { ncid: 9, name: "x".to_string(), len: 6 })
    );
    let d = file.add_dimension(6, &reply(0, 0)).unwrap();
    assert_eq!(d.len(), 6);
    assert!(!d.is_unlimited());
    assert_eq!(d.identifier(), Identifier { ncid: 9, dimid: 0 });
    let found = file.dimension(&sized(0, 0, 6)).unwrap().unwrap();
    assert_eq!(found.len(), 6);
}

#[test]
fn add_unlimited_dimension_is_a_dimension_of_length_zero() {
    let mut file = mutable(9);
    assert_eq!(
        file.add_unlimited_dimension_call("time"),
        Ok(Call::AddDimension { ncid: 9, name: "time".to_string(), len: 0 })
    );
    assert_eq!(file.add_unlimited_dimension_call("time"), file.add_dimension_call("time", 0));
    let d = file.add_unlimited_dimension(&reply(0, 1)).unwrap();
    assert!(d.is_unlimited());
    assert_eq!(d.len(), 0);
    assert_eq!(d.identifier(), Identifier { ncid: 9, dimid: 1 });
    let found = file.dimension(&sized(0, 1, 0)).unwrap().unwrap();
    assert!(found.is_unlimited());
}

#[test]
fn add_dimension_fails_with_the_status() {
    let mut file = mutable(9);
    assert_eq!(file.add_dimension(6, &reply(-42, 0)).err(), Some(Error::UnderlyingLibraryError(-42)));
    assert_eq!(
        file.add_unlimited_dimension(&reply(-54, 0)).err(),
        Some(Error::UnderlyingLibraryError(-54))
    );
    assert_eq!(file.add_dimension_call("a\0", 6), Err(Error::EncodingError));
}

#[test]
fn add_variable_names_type_and_dimensions() {
    let mut file = mutable(9);
    assert_eq!(
        file.add_variable_call("temp", &["time", "x"], ElementType::Double),
        Ok(Call::AddVariable {
            ncid: 9,
            name: "temp".to_string(),
            xtype: 6,
            dims: vec!["time".to_string(), "x".to_string()],
        })
    );
    assert_eq!(
        file.add_variable_call("scalar", &[], ElementType::Int),
        Ok(Call::AddVariable { ncid: 9, name: "scalar".to_string(), xtype: 4, dims: Vec::new() })
    );
    let v = file.add_variable(&reply(0, 3)).unwrap();
    assert_eq!((v.ncid(), v.id()), (9, 3));
}

#[test]
fn add_variable_refuses_names_with_zero_bytes() {
    let mut file = mutable(9);
    assert_eq!(
        file.add_variable_call("te\0mp", &["time"], ElementType::Int),
        Err(Error::EncodingError)
    );
    assert_eq!(
        file.add_variable_call("temp", &["time", "\0x"], ElementType::Int),
        Err(Error::EncodingError)
    );
    assert_eq!(file.add_string_variable_call("s", &["a", "b\0"]), Err(Error::EncodingError));
}

#[test]
fn element_types_have_the_codes_of_the_storage_library() {
    let codes: Vec<i32> = [
        ElementType::Byte,
        ElementType::Short,
        ElementType::Int,
        ElementType::Float,
        ElementType::Double,
        ElementType::UByte,
        ElementType::UShort,
        ElementType::UInt,
        ElementType::Int64,
        ElementType::UInt64,
    ]
    .iter()
    .map(|t| t.code())
    .collect();
    assert_eq!(codes, vec![1, 3, 4, 5, 6, 7, 8, 9, 10, 11]);
}

#[test]
fn add_string_variable_has_the_text_type() {
    let mut file = mutable(9);
    assert_eq!(
        file.add_string_variable_call("names", &["station"]),
        Ok(Call::AddVariable {
            ncid: 9,
            name: "names".to_string(),
            xtype: 12,
            dims: vec!["station".to_string()],
        })
    );
    let v = file.add_string_variable(&reply(0, 8)).unwrap();
    assert_eq!((v.ncid(), v.id()), (9, 8));
    assert_eq!(
        file.add_string_variable(&reply(-42, 8)).err(),
        Some(Error::UnderlyingLibraryError(-42))
    );
}

#[test]
fn add_variable_from_identifiers_hands_the_identifiers_over() {
    let mut file = mutable(9);
    let dims = [Identifier { ncid: 9, dimid: 1 }, Identifier { ncid: 9, dimid: 0 }];
    assert_eq!(
        file.add_variable_from_identifiers_call("temp", &dims, ElementType::UShort),
        Ok(Call::AddVariableAt {
            ncid: 9,
            name: "temp".to_string(),
            xtype: 8,
            dims: dims.to_vec(),
        })
    );
    let v = file.add_variable_from_identifiers(&reply(0, 2)).unwrap();
    assert_eq!((v.ncid(), v.id()), (9, 2));
    assert_eq!(
        file.add_variable_from_identifiers(&reply(-45, 2)).err(),
        Some(Error::UnderlyingLibraryError(-45))
    );
}

#[test]
fn add_group_gives_the_group_of_the_reply() {
    let mut file = mutable(9);
    assert_eq!(file.add_group_call("sub"), Ok(Call::AddGroup { ncid: 9, name: "sub".to_string() }));
    assert_eq!(file.add_group(&reply(0, 90)).unwrap().id(), 90);
    assert_eq!(file.add_group(&reply(-42, 90)).err(), Some(Error::UnderlyingLibraryError(-42)));
    assert_eq!(file.add_group_call("s\0b"), Err(Error::EncodingError));
}

#[test]
fn group_mut_finds_finds_nothing_or_fails() {
    let mut file = mutable(9);
    assert_eq!(file.group_call("sub"), Ok(Call::FindGroup { ncid: 9, name: "sub".to_string() }));
    assert_eq!(file.group_mut(&reply(0, 90)).unwrap().map(|g| g.id()), Some(90));
    assert!(file.group_mut(&reply(NC_ENOGRP, 0)).unwrap().is_none());
    assert_eq!(file.group_mut(&reply(-33, 0)).err(), Some(Error::UnderlyingLibraryError(-33)));
}

#[test]
fn variable_mut_finds_finds_nothing_or_fails() {
    let mut file = mutable(9);
    let v = file.variable_mut(&reply(0, 4)).unwrap().unwrap();
    assert_eq!((v.ncid(), v.id()), (9, 4));
    let plain: &netcdf::variable::Variable = &v;
    assert_eq!((plain.ncid(), plain.id()), (9, 4));
    assert!(file.variable_mut(&reply(NC_ENOTVAR, 4)).unwrap().is_none());
    assert_eq!(file.variable_mut(&reply(-33, 4)).err(), Some(Error::UnderlyingLibraryError(-33)));
}

#[test]
fn variables_mut_fail_with_the_first_failed_item() {
    let mut file = mutable(9);
    let r = listing(0, vec![entry(0, 0, 0, b""), entry(0, 1, 0, b"")]);
    let ids: Vec<i32> = file.variables_mut(&r).unwrap().iter().map(|v| v.id()).collect();
    assert_eq!(ids, vec![0, 1]);
    let r = listing(0, vec![entry(0, 0, 0, b""), entry(-49, 1, 0, b""), entry(-33, 2, 0, b"")]);
    assert_eq!(file.variables_mut(&r).err(), Some(Error::UnderlyingLibraryError(-49)));
    assert_eq!(
        file.variables_mut(&listing(-33, Vec::new())).err(),
        Some(Error::UnderlyingLibraryError(-33))
    );
}

#[test]
fn add_attribute_is_at_global_scope() {
    let mut file = mutable(9);
    assert_eq!(
        file.add_attribute_call("title"),
        Ok(Call::PutAttribute { ncid: 9, varid: -1, name: "title".to_string() })
    );
    let a = file.add_attribute("title", &reply(0, 0)).unwrap();
    assert_eq!(a.name(), "title");
    assert_eq!((a.ncid(), a.owner()), (9, -1));
    let found = file.attribute("title", &reply(0, 0)).unwrap().unwrap();
    assert_eq!(found.name(), "title");
}

#[test]
fn add_attribute_fails_with_the_status_or_the_name() {
    let mut file = mutable(9);
    assert_eq!(
        file.add_attribute("title", &reply(-37, 0)).err(),
        Some(Error::UnderlyingLibraryError(-37))
    );
    assert_eq!(file.add_attribute("ti\0tle", &reply(0, 0)).err(), Some(Error::EncodingError));
    assert_eq!(file.add_attribute_call("ti\0tle"), Err(Error::EncodingError));
}
