use dergwasm::marshal::{count, flag, is_c_compatible, length, low_word, signed_flag};
use dergwasm::{
    derg_result, Component, DergError, Extern, Member, RefId, Slot, Unknown, User, UserRoot, Value,
};
use dergwasm::component::MemberReply;

#[test]
fn zero_handle_is_invalid() {
    let h: RefId<Slot> = RefId::from_raw(0);
    assert!(!h.valid());
    assert_eq!(h.raw(), 0);
}

#[test]
fn default_handle_is_the_zero_handle() {
    let h: RefId<User> = RefId::default();
    assert_eq!(h.raw(), 0);
    assert!(!h.valid());
}

#[test]
fn every_other_handle_is_valid() {
    let samples: Vec<u64> = vec![1, 2, 42, 0x8000_0000, 0xFFFF_FFFF, 0x1_0000_0000, u64::MAX];
    for raw in samples {
        let h: RefId<Slot> = RefId::from_raw(raw);
        assert!(h.valid());
        assert_eq!(h.raw(), raw);
    }
}

#[test]
fn a_copied_handle_is_the_same_handle() {
    let h: RefId<Slot> = RefId::from_raw(77);
    let copy = h;
    let cloned = h.clone();
    assert_eq!(copy.raw(), 77);
    assert_eq!(cloned.raw(), 77);
    assert_eq!(h.raw(), 77);
}

#[test]
fn status_zero_is_success() {
    assert_eq!(DergError::from(0), DergError::Success);
    assert_eq!(derg_result(0), Ok(()));
    assert_eq!(DergError::Success.to_result(), Ok(()));
}

#[test]
fn status_minus_one_is_null_or_not_found() {
    assert_eq!(DergError::from(-1), DergError::NullOrNotFound);
    assert_eq!(derg_result(-1), Err(DergError::NullOrNotFound));
    assert_eq!(DergError::NullOrNotFound.to_result(), Err(DergError::NullOrNotFound));
}

#[test]
fn every_other_status_is_unknown() {
    let samples: Vec<i32> = vec![1, 2, -2, 7, 255, -255, i32::MAX, i32::MIN];
    for code in samples {
        assert_eq!(DergError::from(code), DergError::Unknown);
        assert_eq!(derg_result(code), Err(DergError::Unknown));
    }
    assert_eq!(DergError::Unknown.to_result(), Err(DergError::Unknown));
}

#[test]
fn status_translation_near_zero() {
    let mut code: i32 = -300;
    while code <= 300 {
        let expected = if code == 0 {
            DergError::Success
        } else if code == -1 {
            DergError::NullOrNotFound
        } else {
            DergError::Unknown
        };
        assert_eq!(DergError::from(code), expected);
        assert_eq!(derg_result(code).is_ok(), code == 0);
        code += 1;
    }
}

#[test]
fn error_names() {
    assert_eq!(DergError::Unknown.to_string(), "Unknown");
    assert_eq!(DergError::Success.to_string(), "Success");
    assert_eq!(DergError::NullOrNotFound.to_string(), "NullOrNotFound");
}

#[test]
fn filtering_the_zero_handle_gives_nothing() {
    assert!(RefId::<Slot>::from_raw(0).filter_invalid().is_none());
    assert!(RefId::<User>::from_raw(0).filter_invalid().is_none());
    assert!(RefId::<UserRoot>::from_raw(0).filter_invalid().is_none());
    assert!(RefId::<Component>::from_raw(0).filter_invalid().is_none());
    assert!(RefId::<Value<i32>>::from_raw(0).filter_invalid().is_none());
}

#[test]
fn filtering_another_handle_gives_its_wrapper() {
    let samples: Vec<u64> = vec![1, 42, 0xDEAD_BEEF, u64::MAX];
    for raw in samples {
        let slot = RefId::<Slot>::from_raw(raw).filter_invalid().unwrap();
        assert_eq!(slot.id().raw(), raw);
        let user = RefId::<User>::from_raw(raw).filter_invalid().unwrap();
        assert_eq!(user.id().raw(), raw);
        let user_root = RefId::<UserRoot>::from_raw(raw).filter_invalid().unwrap();
        assert_eq!(user_root.id().raw(), raw);
        let component = RefId::<Component>::from_raw(raw).filter_invalid().unwrap();
        assert_eq!(component.id().raw(), raw);
        let value = RefId::<Value<i32>>::from_raw(raw).filter_invalid().unwrap();
        assert_eq!(value.id().raw(), raw);
    }
}

#[test]
fn conversion_keeps_the_handle() {
    assert_eq!(Slot::from(RefId::from_raw(5)).id().raw(), 5);
    assert_eq!(User::from(RefId::from_raw(6)).id().raw(), 6);
    assert_eq!(UserRoot::from(RefId::from_raw(7)).id().raw(), 7);
    assert_eq!(Component::from(RefId::from_raw(8)).id().raw(), 8);
    assert_eq!(Value::<i32>::from(RefId::from_raw(9)).id().raw(), 9);
    assert_eq!(Value::<i32>::of(RefId::from_raw(10)).id().raw(), 10);
}

#[test]
fn reinterpreting_keeps_every_bit() {
    let samples: Vec<u64> = vec![0, 1, 42, 0x0123_4567_89AB_CDEF, u64::MAX];
    for raw in samples {
        let untyped: RefId<Unknown> = RefId::from_raw(raw);
        let typed: RefId<Value<i32>> = untyped.reinterpret();
        assert_eq!(typed.raw(), raw);
        let as_slot: RefId<Slot> = untyped.reinterpret();
        assert_eq!(as_slot.raw(), untyped.raw());
    }
}

#[test]
fn member_reply_with_the_integer_kind() {
    let reply = MemberReply { status: 0, type_code: 0x1, handle: RefId::from_raw(42) };
    match Member::from_reply(reply) {
        Ok(Member::ValueInt(value)) => assert_eq!(value.id().raw(), 42),
        Err(e) => panic!("expected a member, got {:?}", e),
    }
}

#[test]
fn member_reply_with_an_unrecognised_kind() {
    let handles: Vec<u64> = vec![0, 42, u64::MAX];
    for raw in handles {
        let reply = MemberReply { status: 0, type_code: 0x7, handle: RefId::from_raw(raw) };
        assert!(matches!(Member::from_reply(reply), Err(DergError::Unknown)));
    }
    let reply = MemberReply { status: 0, type_code: 0, handle: RefId::from_raw(42) };
    assert!(matches!(Member::from_reply(reply), Err(DergError::Unknown)));
}

#[test]
fn member_reply_with_the_zero_handle() {
    let reply = MemberReply { status: 0, type_code: 0x1, handle: RefId::from_raw(0) };
    assert!(matches!(Member::from_reply(reply), Err(DergError::NullOrNotFound)));
    let reply = MemberReply { status: 0, type_code: 0x1, handle: RefId::from_raw(1) };
    match Member::from_reply(reply) {
        Ok(Member::ValueInt(value)) => assert_eq!(value.id().raw(), 1),
        Err(e) => panic!("expected a member, got {:?}", e),
    }
}

#[test]
fn member_reply_kind_comes_before_the_handle() {
    let reply = MemberReply { status: 0, type_code: 0x7, handle: RefId::from_raw(0) };
    assert!(matches!(Member::from_reply(reply), Err(DergError::Unknown)));
    let reply = MemberReply { status: 4, type_code: 0x1, handle: RefId::from_raw(0) };
    assert!(matches!(Member::from_reply(reply), Err(DergError::Unknown)));
}

#[test]
fn member_reply_status_comes_before_the_kind() {
    let reply = MemberReply { status: -1, type_code: 0x1, handle: RefId::from_raw(42) };
    assert!(matches!(Member::from_reply(reply), Err(DergError::NullOrNotFound)));
    let reply = MemberReply { status: 3, type_code: 0x1, handle: RefId::from_raw(42) };
    assert!(matches!(Member::from_reply(reply), Err(DergError::Unknown)));
    let reply = MemberReply { status: -1, type_code: 0x7, handle: RefId::from_raw(0) };
    assert!(matches!(Member::from_reply(reply), Err(DergError::NullOrNotFound)));
}

#[test]
fn read_reply_gives_the_value_only_on_success() {
    assert_eq!(Value::<i32>::read_reply((0, 17)), Ok(17));
    assert_eq!(Value::<i32>::read_reply((0, i32::MIN)), Ok(i32::MIN));
    assert_eq!(Value::<i32>::read_reply((-1, 17)), Err(DergError::NullOrNotFound));
    assert_eq!(Value::<i32>::read_reply((5, 17)), Err(DergError::Unknown));
}

#[test]
fn null_buffer_holds_nothing() {
    let buffer: Extern<String> = Extern::null();
    assert!(buffer.is_null());
    assert!(buffer.get().is_none());
    assert!(buffer.to_str().is_none());
}

#[test]
fn buffer_gives_its_contents() {
    let buffer = Extern::holding(String::from("Root"));
    assert!(!buffer.is_null());
    assert_eq!(buffer.get(), Some(&String::from("Root")));
    assert_eq!(buffer.to_str(), Some("Root"));
    let number = Extern::holding(5u8);
    assert_eq!(number.get(), Some(&5u8));
}

#[test]
fn flags_are_one_and_zero() {
    assert_eq!(flag(true), 1);
    assert_eq!(flag(false), 0);
    assert_eq!(signed_flag(true), 1);
    assert_eq!(signed_flag(false), 0);
}

#[test]
fn low_word_keeps_small_numbers() {
    assert_eq!(low_word(0), 0);
    assert_eq!(low_word(3), 3);
    assert_eq!(low_word(0xFFFF_FFFF), 0xFFFF_FFFF);
}

#[test]
fn low_word_drops_the_high_bits() {
    let wide: u64 = 0x1_0000_0005;
    if let Ok(n) = usize::try_from(wide) {
        assert_eq!(low_word(n), 5);
    }
    assert_eq!(low_word(usize::MAX), 0xFFFF_FFFF);
}

#[test]
fn count_reads_two_s_complement() {
    assert_eq!(count(0), 0);
    assert_eq!(count(2), 2);
    assert_eq!(count(i32::MAX), 0x7FFF_FFFF);
    assert_eq!(count(-1), usize::MAX);
    assert_eq!(count(-2), usize::MAX - 1);
    assert_eq!(count(i32::MIN), usize::MAX - 0x7FFF_FFFF);
}

#[test]
fn length_reads_the_low_bits_as_signed() {
    assert_eq!(length(0), 0);
    assert_eq!(length(13), 13);
    assert_eq!(length(0x7FFF_FFFF), i32::MAX);
    assert_eq!(length(0x8000_0000), i32::MIN);
    assert_eq!(length(0xFFFF_FFFF), -1);
    let wide: u64 = 0x1_0000_0007;
    if let Ok(n) = usize::try_from(wide) {
        assert_eq!(length(n), 7);
    }
}

#[test]
fn strings_with_a_nul_cannot_cross() {
    assert!(is_c_compatible(""));
    assert!(is_c_compatible("Root"));
    assert!(is_c_compatible("näme ✓"));
    assert!(!is_c_compatible("\0"));
    assert!(!is_c_compatible("a\0b"));
    assert!(!is_c_compatible("end\0"));
}

#[test]
fn name_is_read_out_of_a_buffer() {
    assert_eq!(Slot::name_from(&Extern::null()), None);
    assert_eq!(Slot::name_from(&Extern::holding(String::from("Lamp"))), Some(String::from("Lamp")));
}
