use rust2go::{
    calc_ref, calc_size, calc_view, expose, round_trip, CopyStruct, DataView, DemoComplicatedRequest,
    DemoResponse, DemoUser, FriendsListRequest, FriendsListResponse, FromRef, ListRef,
    LoginRequest, LoginResponse, MemType, Memory, MemoryRead, PMFriendRequest, Pod, StringRef,
    ToRef, User, UserRef, Writer,
};

fn user(id: u32, name: &str, age: u8) -> User {
    User { id, name: name.to_string(), age }
}

fn back<T: FromRef>(value: &T) -> T {
    round_trip(value).unwrap()
}

#[test]
fn tags_step_up_and_join() {
    assert_eq!(MemType::Primitive.next(), MemType::SimpleWrapper);
    assert_eq!(MemType::SimpleWrapper.next(), MemType::Complex);
    assert_eq!(MemType::Complex.next(), MemType::Complex);
    let all = [MemType::Primitive, MemType::SimpleWrapper, MemType::Complex];
    for (i, a) in all.iter().enumerate() {
        for (j, b) in all.iter().enumerate() {
            assert_eq!(a.max(*b), all[i.max(j)]);
        }
    }
    assert!(MemType::Complex.is_complex());
    assert!(!MemType::SimpleWrapper.is_complex());
}

#[test]
fn tags_of_types() {
    assert_eq!(u32::mem_type_of(), MemType::Primitive);
    assert_eq!(bool::mem_type_of(), MemType::Primitive);
    assert_eq!(String::mem_type_of(), MemType::SimpleWrapper);
    assert_eq!(Vec::<u8>::mem_type_of(), MemType::SimpleWrapper);
    assert_eq!(Vec::<String>::mem_type_of(), MemType::Complex);
    assert_eq!(Vec::<Vec<u8>>::mem_type_of(), MemType::Complex);
    assert_eq!(User::mem_type_of(), MemType::SimpleWrapper);
    assert_eq!(Vec::<User>::mem_type_of(), MemType::Complex);
    assert_eq!(FriendsListResponse::mem_type_of(), MemType::Complex);
    assert_eq!(DemoResponse::mem_type_of(), MemType::Primitive);
    assert_eq!(<(u8, u16)>::mem_type_of(), MemType::Primitive);
    assert_eq!(<(u8, String)>::mem_type_of(), MemType::SimpleWrapper);
    assert_eq!(<(Vec<String>, u8)>::mem_type_of(), MemType::Complex);
    assert_eq!(CopyStruct::<(u8,)>::mem_type_of(), MemType::Complex);
    assert_eq!(<&User>::mem_type_of(), MemType::SimpleWrapper);
}

#[test]
fn primitives_round_trip() {
    assert_eq!(back(&0u8), 0);
    assert_eq!(back(&u16::MAX), u16::MAX);
    assert_eq!(back(&1995u32), 1995);
    assert_eq!(back(&u64::MAX), u64::MAX);
    assert_eq!(back(&usize::MAX), usize::MAX);
    assert_eq!(back(&-1i8), -1);
    assert_eq!(back(&i16::MIN), i16::MIN);
    assert_eq!(back(&-123456i32), -123456);
    assert_eq!(back(&i64::MIN), i64::MIN);
    assert_eq!(back(&isize::MIN), isize::MIN);
    assert!(back(&true));
    assert!(!back(&false));
    assert_eq!(back(&'\u{1f600}'), '\u{1f600}');
    assert_eq!(char::mem_type_of(), MemType::Primitive);
}

#[test]
fn a_shared_value_is_the_value() {
    let shared = rust2go::new_shared(vec![1u8, 2]);
    let other = shared.clone();
    assert_eq!(*other, vec![1, 2]);
    assert_eq!(rust2go::DEFAULT_QUEUE_SIZE, 4096);
}

#[test]
fn strings_round_trip() {
    assert_eq!(back(&"login success".to_string()), "login success");
    assert_eq!(back(&"gr\u{fc}\u{df}e \u{4e16}\u{754c} \u{1f600}".to_string()), "gr\u{fc}\u{df}e \u{4e16}\u{754c} \u{1f600}");
    assert_eq!(back(&"a".repeat(1000)), "a".repeat(1000));
}

#[test]
fn empty_string_and_empty_list_round_trip_to_empty() {
    assert_eq!(back(&String::new()), "");
    assert_eq!(back(&Vec::<u8>::new()), Vec::<u8>::new());
    assert_eq!(back(&Vec::<String>::new()), Vec::<String>::new());
    assert_eq!(back(&Vec::<User>::new()), Vec::<User>::new());
    assert_eq!(back(&vec![String::new(), String::new()]), vec![String::new(), String::new()]);
    assert_eq!(back(&vec![Vec::<u32>::new()]), vec![Vec::<u32>::new()]);
}

#[test]
fn an_empty_view_is_read_without_looking_at_its_address() {
    let nowhere = Memory::new();
    let text = StringRef(DataView { ptr: 0, len: 0 });
    assert_eq!(String::from_ref(&text, &nowhere), Some(String::new()));
    let list = ListRef(DataView { ptr: 0xdead_0000, len: 0 });
    assert_eq!(Vec::<User>::from_ref(&list, &nowhere), Some(vec![]));
    // a view that points to something needs its memory
    let lost = StringRef(DataView { ptr: 0x1000, len: 3 });
    assert_eq!(String::from_ref(&lost, &nowhere), None);
}

#[test]
fn lists_round_trip() {
    assert_eq!(back(&vec![6u8, 6, 6]), vec![6, 6, 6]);
    assert_eq!(back(&vec![1u32, 2, 3]), vec![1, 2, 3]);
    assert_eq!(back(&vec![-1i64, i64::MAX]), vec![-1, i64::MAX]);
    assert_eq!(back(&vec![true, false, true]), vec![true, false, true]);
    let words = vec!["a".to_string(), String::new(), "ccc".to_string()];
    assert_eq!(back(&words), words);
    let nested = vec![vec![1u32, 2], vec![], vec![3]];
    assert_eq!(back(&nested), nested);
    let deep = vec![vec![vec!["x".to_string()], vec![]], vec![vec!["y".to_string(), "z".to_string()]]];
    assert_eq!(back(&deep), deep);
}

#[test]
fn records_round_trip() {
    let u = user(1, "alice", 30);
    assert_eq!(back(&u), u);
    let login = LoginRequest { user: user(1, "", 0), password: "test_psw".to_string() };
    assert_eq!(back(&login), login);
    let answer =
        LoginResponse { succ: true, message: "login success".to_string(), token: vec![6, 6, 6] };
    assert_eq!(back(&answer), answer);
    let req = FriendsListRequest { token: vec![6, 6, 6], user_ids: vec![1, 2, 3] };
    assert_eq!(back(&req), req);
    let friends = FriendsListResponse { users: vec![user(1, "a", 1), user(2, "", 2), user(3, "ccc", 3)] };
    assert_eq!(back(&friends), friends);
    let pm = PMFriendRequest { user_id: 1, token: vec![], message: "hello".to_string() };
    assert_eq!(back(&pm), pm);
    let demo = DemoComplicatedRequest {
        users: vec![DemoUser { name: "d".to_string(), age: 1 }, DemoUser { name: String::new(), age: 2 }],
    };
    assert_eq!(back(&demo), demo);
    assert_eq!(back(&DemoResponse { pass: true }), DemoResponse { pass: true });
}

#[test]
fn tuples_round_trip() {
    assert_eq!(back(&(7u8,)), (7,));
    let pair = (user(1, "a", 2), "msg".to_string());
    assert_eq!(back(&pair), pair);
    let triple = (vec!["x".to_string()], 5u64, vec![1u8, 2]);
    assert_eq!(back(&triple), triple);
}

#[test]
fn what_is_not_complex_takes_no_arena() {
    assert_eq!(calc_size(&5u32), 0);
    assert_eq!(calc_size(&"text".to_string()), 0);
    assert_eq!(calc_size(&vec![1u8, 2, 3]), 0);
    assert_eq!(calc_size(&user(1, "a", 2)), 0);
    assert_eq!(calc_size(&(1u8, "a".to_string(), vec![1u64])), 0);
    let (buf, head) = calc_ref(&"text".to_string());
    assert!(buf.is_empty());
    assert_eq!(head.0.len, 4);
    let (buf, head) = calc_ref(&vec![1u32, 2, 3]);
    assert!(buf.is_empty());
    assert_eq!(head.0.len, 3);
    // the writer is left as it is
    let mut w = Writer::new(64, vec![0xaa; 8]).unwrap();
    let head = user(9, "nine", 9).to_ref(&mut w);
    assert_eq!((head.id, head.name.0.len, head.age), (9, 4, 9));
    assert_eq!(w.written(), 0);
    assert_eq!(w.into_inner(), (64, vec![0xaa; 8]));
}

#[test]
fn complex_values_take_their_children() {
    // three strings: three heads of 16 bytes
    assert_eq!(calc_size(&vec!["a".to_string(), "bb".to_string(), String::new()]), 48);
    // two lists of strings, with two and one string
    let nested = vec![vec!["a".to_string(), "b".to_string()], vec!["c".to_string()]];
    assert_eq!(calc_size(&nested), 2 * 16 + 2 * 16 + 16);
    // lists of primitives as elements: only their heads
    assert_eq!(calc_size(&vec![vec![1u32, 2], vec![], vec![3]]), 48);
    // records of 32 bytes each
    let friends = FriendsListResponse { users: vec![user(1, "a", 1), user(2, "b", 2)] };
    assert_eq!(calc_size(&friends), 64);
    assert_eq!(calc_size(&FriendsListResponse { users: vec![] }), 0);
    let demo = DemoComplicatedRequest { users: vec![DemoUser { name: "d".to_string(), age: 1 }] };
    assert_eq!(calc_size(&demo), 24);
    assert_eq!(calc_size(&(nested.clone(), 1u8, friends.clone())), 80 + 64);
}

#[test]
fn to_size_adds_to_the_accumulator() {
    let words = vec!["a".to_string(), "b".to_string()];
    let mut acc: usize = 100;
    words.to_size(&mut acc);
    assert_eq!(acc, 132);
    5u8.to_size(&mut acc);
    "s".to_string().to_size(&mut acc);
    assert_eq!(acc, 132);
    assert_eq!(words.checked_size(100), Some(132));
    assert_eq!(words.checked_size(usize::MAX - 31), None);
    assert_eq!(words.checked_size(usize::MAX - 32), Some(usize::MAX));
    assert_eq!(7u8.checked_size(usize::MAX), Some(usize::MAX));
}

#[test]
fn the_write_pass_takes_what_the_size_pass_counted() {
    let nested = vec![vec!["a".to_string(), "b".to_string()], vec![], vec!["c".to_string()]];
    let size = calc_size(&nested);
    let mut w = Writer::new(0x1000, vec![0; size + 5]).unwrap();
    nested.to_ref(&mut w);
    assert_eq!(w.written(), size);
    assert_eq!(w.remaining(), 5);
    let (w, _) = calc_view(&nested);
    assert_eq!(w.written(), size);
    assert_eq!(w.remaining(), 0);
    let (buf, _) = calc_ref(&nested);
    assert_eq!(buf.len(), size);
}

#[test]
fn children_lie_in_blocks_depth_first() {
    let nested = vec![vec!["a".to_string(), "bb".to_string()], vec!["ccc".to_string()]];
    let base: usize = 0x4000;
    let mut w = Writer::new(base, vec![0; 80]).unwrap();
    assert_eq!(w.address(), base);
    assert_eq!(w.as_ptr(), base);
    let head = nested.to_ref(&mut w);
    let (_, arena) = w.into_inner();
    // the head points to the block of the two inner lists
    assert_eq!(head.0, DataView { ptr: base, len: 2 });
    let first = ListRef::from_bytes(&arena[0..16].to_vec());
    let second = ListRef::from_bytes(&arena[16..32].to_vec());
    // their own blocks follow, in order
    assert_eq!(first.0, DataView { ptr: base + 32, len: 2 });
    assert_eq!(second.0, DataView { ptr: base + 64, len: 1 });
    let a = StringRef::from_bytes(&arena[32..48].to_vec());
    let bb = StringRef::from_bytes(&arena[48..64].to_vec());
    let ccc = StringRef::from_bytes(&arena[64..80].to_vec());
    assert_eq!((a.0.len, bb.0.len, ccc.0.len), (1, 2, 3));
    // the strings stay where they are
    assert_eq!(a.0.ptr, nested[0][0].as_ptr() as usize);
    assert_eq!(ccc.0.ptr, nested[1][0].as_ptr() as usize);
}

#[test]
fn fields_are_written_one_after_the_other() {
    let value = (vec!["a".to_string()], vec!["b".to_string(), "c".to_string()]);
    let mut w = Writer::new(0x100, vec![0; 48]).unwrap();
    let head = value.to_ref(&mut w);
    assert_eq!(head.0 .0, DataView { ptr: 0x100, len: 1 });
    assert_eq!(head.1 .0, DataView { ptr: 0x110, len: 2 });
}

#[test]
fn arena_is_written_the_same_way_twice() {
    let friends = FriendsListResponse { users: vec![user(1, "a", 1), user(2, "bb", 2)] };
    let mut w1 = Writer::new(0x8000, vec![0; 64]).unwrap();
    let mut w2 = Writer::new(0x8000, vec![0; 64]).unwrap();
    let h1 = friends.to_ref(&mut w1);
    let h2 = friends.to_ref(&mut w2);
    assert_eq!(h1, h2);
    assert_eq!(w1.into_inner(), w2.into_inner());
}

#[test]
fn copy_struct_puts_the_heads_at_the_end() {
    let words = vec!["a".to_string(), "b".to_string()];
    let params = CopyStruct((7u32, words.clone(), "s".to_string()));
    // the children of the list, then the heads of 4, 16 and 16 bytes
    assert_eq!(calc_size(&params), 32 + 4 + 16 + 16);
    let (w, ptr) = calc_view(&params);
    let (base, arena) = w.into_inner();
    assert_eq!(ptr, base + 32);
    assert_eq!(u32::from_bytes(&arena[32..36].to_vec()), 7);
    assert_eq!(ListRef::from_bytes(&arena[36..52].to_vec()).0, DataView { ptr: base, len: 2 });
    assert_eq!(StringRef::from_bytes(&arena[52..68].to_vec()).0.len, 1);
    // one address leads to all parameters
    let read = round_trip(&params).unwrap();
    assert_eq!(read.0, (7, words, "s".to_string()));
    assert_eq!(calc_size(&CopyStruct((1u8, 2u64))), 9);
}

#[test]
fn the_other_side_reads_through_the_view() {
    let friends = FriendsListResponse { users: vec![user(1, "a", 1), user(2, "bb", 2)] };
    let (w, head) = calc_view(&friends);
    let mem = expose(&friends, w, &head).unwrap();
    assert_eq!(FriendsListResponse::from_ref(&head, &mem), Some(friends.clone()));
    // the list of users alone
    assert_eq!(Vec::<User>::from_ref(&head.users, &mem), Some(friends.users.clone()));
    // the second user's view lies 32 bytes behind the first
    let bytes = mem.read(head.users.0.ptr + 32, 32).unwrap();
    let second = UserRef::from_bytes(&bytes);
    assert_eq!((second.id, second.name.0.len, second.age), (2, 2, 2));
    assert_eq!(User::from_ref(&second, &mem), Some(user(2, "bb", 2)));
}

#[test]
fn integers_are_laid_out_little_endian() {
    assert_eq!(0x1234_5678u32.to_bytes(), vec![0x78, 0x56, 0x34, 0x12]);
    assert_eq!(u32::from_bytes(&vec![0x78, 0x56, 0x34, 0x12]), 0x1234_5678);
    assert_eq!((-1i32).to_bytes(), vec![0xff; 4]);
    assert_eq!(i32::from_bytes(&vec![0xfe, 0xff, 0xff, 0xff]), -2);
    assert_eq!((-2i8).to_bytes(), vec![0xfe]);
    assert_eq!(0x0102u16.to_bytes(), vec![2, 1]);
    assert_eq!(1usize.to_bytes(), vec![1, 0, 0, 0, 0, 0, 0, 0]);
    assert_eq!((-1isize).to_bytes(), vec![0xff; 8]);
    assert_eq!(isize::from_bytes(&vec![0xff; 8]), -1);
    assert_eq!(u64::from_bytes(&0x0102_0304_0506_0708u64.to_bytes()), 0x0102_0304_0506_0708);
    assert_eq!(true.to_bytes(), vec![1]);
    assert!(!bool::from_bytes(&vec![0]));
    assert_eq!((u8::size_of(), u16::size_of(), u32::size_of(), u64::size_of()), (1, 2, 4, 8));
    assert_eq!((usize::size_of(), isize::size_of(), bool::size_of()), (8, 8, 1));
}

#[test]
fn views_are_laid_out_as_in_c() {
    let view = DataView { ptr: 0x0102, len: 3 };
    let bytes = view.to_bytes();
    assert_eq!(bytes, vec![2, 1, 0, 0, 0, 0, 0, 0, 3, 0, 0, 0, 0, 0, 0, 0]);
    assert_eq!(DataView::from_bytes(&bytes), view);
    assert_eq!((DataView::size_of(), ListRef::size_of(), StringRef::size_of()), (16, 16, 16));
    // id at 0, name at 8, age at 24, padded to 32
    assert_eq!(UserRef::size_of(), 32);
    let u = UserRef { id: 0x0a0b0c0d, name: StringRef(DataView { ptr: 1, len: 2 }), age: 9 };
    let bytes = u.to_bytes();
    assert_eq!(bytes.len(), 32);
    assert_eq!(&bytes[0..8], &[0x0d, 0x0c, 0x0b, 0x0a, 0, 0, 0, 0]);
    assert_eq!(bytes[8], 1);
    assert_eq!(bytes[16], 2);
    assert_eq!(&bytes[24..32], &[9, 0, 0, 0, 0, 0, 0, 0]);
    assert_eq!(UserRef::from_bytes(&bytes), u);
}

#[test]
fn bytes_that_are_no_text_are_repaired() {
    let mut mem = Memory::new();
    assert!(mem.map(0x100, vec![b'a', 0xff, b'b']));
    let view = StringRef(DataView { ptr: 0x100, len: 3 });
    assert_eq!(String::from_ref(&view, &mem), Some("a\u{fffd}b".to_string()));
    let part = StringRef(DataView { ptr: 0x102, len: 1 });
    assert_eq!(String::from_ref(&part, &mem), Some("b".to_string()));
}

#[test]
fn memory_maps_segments_that_do_not_meet() {
    let mut mem = Memory::new();
    assert!(mem.map(100, vec![1, 2, 3, 4]));
    assert!(mem.map(104, vec![5, 6]));
    // a segment that shares an address is not mapped
    assert!(!mem.map(103, vec![9, 9]));
    assert!(!mem.map(99, vec![9, 9]));
    assert!(!mem.map(usize::MAX, vec![9]));
    // an empty segment leaves no trace
    assert!(mem.map(200, vec![]));
    assert_eq!(mem.read(200, 1), None);
    assert_eq!(mem.read(100, 4), Some(vec![1, 2, 3, 4]));
    assert_eq!(mem.read(101, 2), Some(vec![2, 3]));
    assert_eq!(mem.read(104, 2), Some(vec![5, 6]));
    // a range is read from one segment
    assert_eq!(mem.read(103, 2), None);
    assert_eq!(mem.read(106, 1), None);
    assert_eq!(mem.read(0, 0), Some(vec![]));
    assert_eq!(mem.read(usize::MAX, 2), None);
}

#[test]
fn a_writer_needs_room_in_the_address_space() {
    assert!(Writer::new(usize::MAX - 3, vec![0; 3]).is_some());
    assert!(Writer::new(usize::MAX - 3, vec![0; 4]).is_none());
    let w = Writer::with_capacity(10);
    assert_eq!((w.written(), w.remaining()), (0, 10));
}

#[test]
fn put_and_reserve_move_the_cursor() {
    let mut w = Writer::new(0x10, vec![0; 12]).unwrap();
    let mut block = w.reserve(8);
    assert_eq!(w.as_ptr(), 0x18);
    w.put(&0x0a0b_0c0du32);
    assert_eq!(w.written(), 12);
    w.put_reserved(&mut block, &1u32);
    w.put_reserved(&mut block, &2u32);
    assert_eq!(w.into_inner().1, vec![1, 0, 0, 0, 2, 0, 0, 0, 0x0d, 0x0c, 0x0b, 0x0a]);
}
