//! Behavioral tests of the error-library core against the model host.

use gmssl_errors::codec::{err_get_func, err_get_lib, err_get_reason, err_pack, Abi};
use gmssl_errors::decl::{LibraryDecl, Message, RawFunction, Reason};
use gmssl_errors::host::{Host, FIRST_LIBRARY_ID};
use gmssl_errors::library::{ErrorLibrary, Library, __put_error, put_error_inner};

/// Marker type for the test library; ties its tokens together at compile time.
enum MyLib {}

/// Marker type for a second, unrelated library.
enum OtherLib {}

fn my_lib_decl() -> LibraryDecl {
    LibraryDecl {
        name: String::from("my cool library"),
        functions: vec![String::from("find_private_key")],
        reasons: vec![String::from("IO error"), String::from("invalid private key password")],
    }
}

#[test]
fn pack_legacy_layout() {
    assert_eq!(err_pack(Abi::Legacy, 0x80, 1, 2), 0x8000_1002);
    assert_eq!(err_pack(Abi::Legacy, 0x80, 0, 0), 0x8000_0000);
    assert_eq!(err_pack(Abi::Legacy, 0, 3, 0), 0x3000);
    // out-of-range components are masked to their field widths
    assert_eq!(err_pack(Abi::Legacy, 0x180, 0x1001, 0x1002), 0x8000_1002);
}

#[test]
fn pack_modern_layout() {
    assert_eq!(err_pack(Abi::Modern, 0x80, 0, 1), 0x4000_0001);
    // the function component never enters a modern code
    assert_eq!(err_pack(Abi::Modern, 0x80, 7, 1), 0x4000_0001);
    assert_eq!(err_pack(Abi::Modern, 1, 0, 0x7F_FFFF), 0x00FF_FFFF);
}

#[test]
fn pack_round_trips() {
    let c = err_pack(Abi::Legacy, 0x80, 1, 2);
    assert_eq!(err_get_lib(Abi::Legacy, c), 0x80);
    assert_eq!(err_get_func(Abi::Legacy, c), 1);
    assert_eq!(err_get_reason(Abi::Legacy, c), 2);
    let m = err_pack(Abi::Modern, 0x81, 0, 5);
    assert_eq!(err_get_lib(Abi::Modern, m), 0x81);
    assert_eq!(err_get_func(Abi::Modern, m), 0);
    assert_eq!(err_get_reason(Abi::Modern, m), 5);
}

#[test]
fn tokens_are_sequential() {
    let lib = ErrorLibrary::<MyLib>::new(Abi::Legacy, my_lib_decl());
    match lib.function(1).__as_raw() {
        RawFunction::Code(n) => assert_eq!(*n, 1),
        RawFunction::Name(_) => panic!("legacy token must be a code"),
    }
    assert_eq!(lib.reason(1).__as_raw(), 1);
    assert_eq!(lib.reason(2).__as_raw(), 2);
    let r = Reason::<MyLib>::__from_raw(2);
    assert_eq!(r.__as_raw(), 2);
}

#[test]
fn modern_tokens_carry_names() {
    let lib = ErrorLibrary::<MyLib>::new(Abi::Modern, my_lib_decl());
    match lib.function(1).__as_raw() {
        RawFunction::Name(s) => assert_eq!(s, "find_private_key"),
        RawFunction::Code(_) => panic!("modern token must be a name"),
    }
}

#[test]
fn legacy_table_layout() {
    let lib = ErrorLibrary::<MyLib>::new(Abi::Legacy, my_lib_decl());
    let codes: Vec<u64> = lib.table.iter().map(|e| e.code).collect();
    assert_eq!(codes, vec![0, 0x1000, 1, 2, 0]);
    assert_eq!(lib.table[0].text.as_deref(), Some("my cool library"));
    assert_eq!(lib.table[1].text.as_deref(), Some("find_private_key"));
    assert_eq!(lib.table[2].text.as_deref(), Some("IO error"));
    assert_eq!(lib.table[3].text.as_deref(), Some("invalid private key password"));
    assert!(lib.table[4].text.is_none());
}

#[test]
fn modern_table_has_no_function_rows() {
    let lib = ErrorLibrary::<MyLib>::new(Abi::Modern, my_lib_decl());
    let codes: Vec<u64> = lib.table.iter().map(|e| e.code).collect();
    assert_eq!(codes, vec![0, 1, 2, 0]);
}

#[test]
fn empty_declaration_registers() {
    let decl = LibraryDecl { name: String::from("bare"), functions: vec![], reasons: vec![] };
    let mut host = Host::new(Abi::Legacy);
    let mut lib = ErrorLibrary::<MyLib>::new(Abi::Legacy, decl);
    assert_eq!(lib.table.len(), 2);
    assert!(lib.table[1].text.is_none());
    let id = lib.resolve_id(&mut host);
    assert_eq!(id, FIRST_LIBRARY_ID);
    assert_eq!(host.strings.len(), 1);
    assert_eq!(host.strings[0].code, err_pack(Abi::Legacy, id, 0, 0));
    assert_eq!(host.strings[0].text, "bare");
}

#[test]
fn registration_loads_strings() {
    let mut host = Host::new(Abi::Legacy);
    let mut lib = ErrorLibrary::<MyLib>::new(Abi::Legacy, my_lib_decl());
    let id = lib.resolve_id(&mut host);
    assert_eq!(id, 128);
    assert!(host.initialized);
    let rows: Vec<(u64, &str)> =
        host.strings.iter().map(|r| (r.code, r.text.as_str())).collect();
    assert_eq!(
        rows,
        vec![
            (0x8000_0000, "my cool library"),
            (0x8000_1000, "find_private_key"),
            (0x8000_0001, "IO error"),
            (0x8000_0002, "invalid private key password"),
        ]
    );
}

#[test]
fn resolution_is_idempotent() {
    let mut host = Host::new(Abi::Legacy);
    let mut lib = ErrorLibrary::<MyLib>::new(Abi::Legacy, my_lib_decl());
    let first = lib.resolve_id(&mut host);
    assert_eq!(host.next_lib_calls, 1);
    assert_eq!(host.load_calls, 1);
    for _ in 0..5 {
        assert_eq!(lib.resolve_id(&mut host), first);
    }
    // no additional host registration calls were made
    assert_eq!(host.next_lib_calls, 1);
    assert_eq!(host.load_calls, 1);
    assert_eq!(host.strings.len(), 4);
}

#[test]
fn trait_resolution_matches_inherent() {
    let mut host = Host::new(Abi::Legacy);
    let mut lib = ErrorLibrary::<MyLib>::new(Abi::Legacy, my_lib_decl());
    let id = Library::id(&mut lib, &mut host);
    assert_eq!(id, 128);
    assert_eq!(lib.resolve_id(&mut host), 128);
}

#[test]
fn distinct_libraries_get_distinct_ids() {
    let mut host = Host::new(Abi::Legacy);
    let mut a = ErrorLibrary::<MyLib>::new(Abi::Legacy, my_lib_decl());
    let decl_b = LibraryDecl {
        name: String::from("other"),
        functions: vec![String::from("open")],
        reasons: vec![String::from("closed")],
    };
    let mut b = ErrorLibrary::<OtherLib>::new(Abi::Legacy, decl_b);
    let ida = a.resolve_id(&mut host);
    let idb = b.resolve_id(&mut host);
    assert_eq!(ida, 128);
    assert_eq!(idb, 129);
    let s = host.error_string(err_pack(Abi::Legacy, idb, 0, 1)).unwrap();
    assert_eq!(s, "closed");
    let s = host.error_string(err_pack(Abi::Legacy, ida, 0, 1)).unwrap();
    assert_eq!(s, "IO error");
}

#[test]
fn push_without_message() {
    let mut host = Host::new(Abi::Legacy);
    let mut lib = ErrorLibrary::<MyLib>::new(Abi::Legacy, my_lib_decl());
    let func = lib.function(1);
    let reason = lib.reason(2);
    __put_error(&mut lib, &mut host, &func, &reason, "src/lib.rs", 27, None);
    let rec = host.peek_last_error().unwrap();
    assert_eq!(rec.code, 0x8000_1002);
    assert_eq!(rec.file, "src/lib.rs");
    assert_eq!(rec.line, 27);
    assert!(rec.func_name.is_none());
    assert!(rec.data.is_none());
    assert_eq!(host.malloc_calls, 0);
}

#[test]
fn push_with_borrowed_message() {
    let mut host = Host::new(Abi::Legacy);
    let mut lib = ErrorLibrary::<MyLib>::new(Abi::Legacy, my_lib_decl());
    let func = lib.function(1);
    let reason = lib.reason(1);
    let msg = Message::Borrowed(String::from("static context"));
    __put_error(&mut lib, &mut host, &func, &reason, "src/lib.rs", 30, Some(msg));
    let rec = host.peek_last_error().unwrap();
    let data = rec.data.as_ref().unwrap();
    assert_eq!(data.text, "static context");
    assert!(!data.host_owned);
    // a borrowed message never touches the allocator
    assert_eq!(host.malloc_calls, 0);
}

#[test]
fn push_with_owned_message_allocates_once() {
    let mut host = Host::new(Abi::Legacy);
    let mut lib = ErrorLibrary::<MyLib>::new(Abi::Legacy, my_lib_decl());
    let func = lib.function(1);
    let reason = lib.reason(1);
    let tries = 2;
    let msg = Message::Owned(format!("tried {} times", tries));
    __put_error(&mut lib, &mut host, &func, &reason, "src/lib.rs", 34, Some(msg));
    let rec = host.peek_last_error().unwrap();
    assert_eq!(rec.code, 0x8000_1001);
    let data = rec.data.as_ref().unwrap();
    assert_eq!(data.text, "tried 2 times");
    assert!(data.host_owned);
    assert_eq!(host.malloc_calls, 1);
    // the buffer fits the message plus its nul terminator
    assert_eq!(host.last_malloc_size, "tried 2 times".len() + 1);
}

#[test]
fn allocation_failure_drops_message_silently() {
    let mut host = Host::new(Abi::Legacy);
    host.malloc_fails = true;
    let mut lib = ErrorLibrary::<MyLib>::new(Abi::Legacy, my_lib_decl());
    let func = lib.function(1);
    let reason = lib.reason(1);
    let msg = Message::Owned(String::from("lost context"));
    __put_error(&mut lib, &mut host, &func, &reason, "src/lib.rs", 40, Some(msg));
    // the base record is still recorded, without the message
    let rec = host.peek_last_error().unwrap();
    assert_eq!(rec.code, 0x8000_1001);
    assert!(rec.data.is_none());
    assert_eq!(host.malloc_calls, 1);
}

#[test]
fn end_to_end_legacy_scenario() {
    let mut host = Host::new(Abi::Legacy);
    let mut lib = ErrorLibrary::<MyLib>::new(Abi::Legacy, my_lib_decl());
    let find_private_key = lib.function(1);
    let bad_password = lib.reason(2);
    __put_error(&mut lib, &mut host, &find_private_key, &bad_password, "src/lib.rs", 27, None);
    let rec = host.peek_last_error().unwrap();
    let code = rec.code;
    assert_eq!(code, 0x8000_1002);
    let lib_id = err_get_lib(Abi::Legacy, code);
    let func_id = err_get_func(Abi::Legacy, code);
    let reason_id = err_get_reason(Abi::Legacy, code);
    assert_eq!((lib_id, func_id, reason_id), (128, 1, 2));
    assert!(rec.data.is_none());
    let lib_str = host.error_string(err_pack(Abi::Legacy, lib_id, 0, 0)).unwrap().clone();
    let func_str = host.error_string(err_pack(Abi::Legacy, lib_id, func_id, 0)).unwrap().clone();
    let reason_str =
        host.error_string(err_pack(Abi::Legacy, lib_id, 0, reason_id)).unwrap().clone();
    assert_eq!(lib_str, "my cool library");
    assert_eq!(func_str, "find_private_key");
    assert_eq!(reason_str, "invalid private key password");

    let io_error = lib.reason(1);
    let msg = Message::Owned(format!("tried {} times", 2));
    __put_error(&mut lib, &mut host, &find_private_key, &io_error, "src/lib.rs", 34, Some(msg));
    let rec = host.peek_last_error().unwrap();
    assert_eq!(rec.code, 0x8000_1001);
    let reason_str = host.error_string(err_pack(Abi::Legacy, 128, 0, 1)).unwrap();
    assert_eq!(reason_str, "IO error");
    assert_eq!(rec.data.as_ref().unwrap().text, "tried 2 times");
}

#[test]
fn end_to_end_modern_scenario() {
    let mut host = Host::new(Abi::Modern);
    let mut lib = ErrorLibrary::<MyLib>::new(Abi::Modern, my_lib_decl());
    let find_private_key = lib.function(1);
    let bad_password = lib.reason(2);
    __put_error(&mut lib, &mut host, &find_private_key, &bad_password, "src/lib.rs", 27, None);
    let rec = host.peek_last_error().unwrap();
    assert_eq!(rec.code, 0x4000_0002);
    assert_eq!(err_get_lib(Abi::Modern, rec.code), 128);
    assert_eq!(err_get_func(Abi::Modern, rec.code), 0);
    assert_eq!(err_get_reason(Abi::Modern, rec.code), 2);
    // the function travels as debug metadata, not in the code
    assert_eq!(rec.func_name.as_deref(), Some("find_private_key"));
    let reason_str = host.error_string(err_pack(Abi::Modern, 128, 0, 2)).unwrap();
    assert_eq!(reason_str, "invalid private key password");
    let lib_str = host.error_string(err_pack(Abi::Modern, 128, 0, 0)).unwrap();
    assert_eq!(lib_str, "my cool library");
}

#[test]
fn round_trip_with_prior_registrations() {
    // the registry already holds another library's strings before this
    // library registers; the round trip still finds the right rows
    let mut host = Host::new(Abi::Legacy);
    let decl_b = LibraryDecl {
        name: String::from("other"),
        functions: vec![String::from("open")],
        reasons: vec![String::from("closed")],
    };
    let mut other = ErrorLibrary::<OtherLib>::new(Abi::Legacy, decl_b);
    other.resolve_id(&mut host);
    let mut lib = ErrorLibrary::<MyLib>::new(Abi::Legacy, my_lib_decl());
    let func = lib.function(1);
    let reason = lib.reason(2);
    __put_error(&mut lib, &mut host, &func, &reason, "src/lib.rs", 27, None);
    let rec = host.peek_last_error().unwrap();
    let lib_id = err_get_lib(Abi::Legacy, rec.code);
    assert_eq!(lib_id, 129);
    assert_eq!(err_get_func(Abi::Legacy, rec.code), 1);
    assert_eq!(err_get_reason(Abi::Legacy, rec.code), 2);
    let lib_str = host.error_string(err_pack(Abi::Legacy, lib_id, 0, 0)).unwrap();
    assert_eq!(lib_str, "my cool library");
    let func_str = host.error_string(err_pack(Abi::Legacy, lib_id, 1, 0)).unwrap();
    assert_eq!(func_str, "find_private_key");
    let reason_str = host.error_string(err_pack(Abi::Legacy, lib_id, 0, 2)).unwrap();
    assert_eq!(reason_str, "invalid private key password");
}

#[test]
fn put_error_inner_records_without_registration() {
    let mut host = Host::new(Abi::Legacy);
    put_error_inner(&mut host, 200, &RawFunction::Code(3), 4, "adapter.rs", 9, None);
    let rec = host.peek_last_error().unwrap();
    assert_eq!(rec.code, err_pack(Abi::Legacy, 200, 3, 4));
    assert_eq!(rec.file, "adapter.rs");
    assert_eq!(rec.line, 9);
    // nothing was registered along the way
    assert_eq!(host.load_calls, 0);
    assert_eq!(host.next_lib_calls, 0);
}
