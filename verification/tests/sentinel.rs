use stuff::sentinel::EmptyInMax;
use stuff::{StuffingStrategy, Unstuffed};

const ADDRESSES: [usize; 8] = [
    0,
    1,
    8,
    0x1000,
    0xdead_bee8,
    usize::MAX / 2,
    usize::MAX - 8,
    usize::MAX - 1,
];

#[test]
fn sentinel_u64_stuffs_address_unchanged() {
    let data = <EmptyInMax as StuffingStrategy<u64>>::stuff_ptr(0x1000);
    assert_eq!(data, 0x1000u64);
}

#[test]
fn sentinel_u64_extracts_address() {
    let out = <EmptyInMax as StuffingStrategy<u64>>::extract(0x1000);
    assert_eq!(out, Unstuffed::Ptr(0x1000));
}

#[test]
fn sentinel_u64_stuffs_other_as_all_ones() {
    let data = <EmptyInMax as StuffingStrategy<u64>>::stuff_other(EmptyInMax);
    assert_eq!(data, 0xFFFF_FFFF_FFFF_FFFFu64);
}

#[test]
fn sentinel_u64_extracts_other_from_all_ones() {
    let out = <EmptyInMax as StuffingStrategy<u64>>::extract(0xFFFF_FFFF_FFFF_FFFF);
    assert_eq!(out, Unstuffed::Other(EmptyInMax));
}

#[test]
fn sentinel_tag_is_the_largest_value_of_each_backend() {
    assert_eq!(<EmptyInMax as StuffingStrategy<usize>>::stuff_other(EmptyInMax), usize::MAX);
    assert_eq!(<EmptyInMax as StuffingStrategy<u64>>::stuff_other(EmptyInMax), u64::MAX);
    assert_eq!(<EmptyInMax as StuffingStrategy<u128>>::stuff_other(EmptyInMax), u128::MAX);
    assert_eq!(
        <EmptyInMax as StuffingStrategy<u128>>::stuff_other(EmptyInMax),
        0xFFFF_FFFF_FFFF_FFFF_FFFF_FFFF_FFFF_FFFFu128
    );
}

#[test]
fn sentinel_usize_round_trips_addresses() {
    for addr in ADDRESSES {
        let data = <EmptyInMax as StuffingStrategy<usize>>::stuff_ptr(addr);
        assert_eq!(data, addr);
        assert_eq!(<EmptyInMax as StuffingStrategy<usize>>::extract(data), Unstuffed::Ptr(addr));
    }
}

#[test]
fn sentinel_u64_round_trips_addresses() {
    for addr in ADDRESSES {
        let data = <EmptyInMax as StuffingStrategy<u64>>::stuff_ptr(addr);
        assert_eq!(data as u128, addr as u128);
        assert_eq!(<EmptyInMax as StuffingStrategy<u64>>::extract(data), Unstuffed::Ptr(addr));
    }
}

#[test]
fn sentinel_u128_round_trips_addresses() {
    for addr in ADDRESSES {
        let data = <EmptyInMax as StuffingStrategy<u128>>::stuff_ptr(addr);
        assert_eq!(data, addr as u128);
        assert_eq!(<EmptyInMax as StuffingStrategy<u128>>::extract(data), Unstuffed::Ptr(addr));
    }
}

#[test]
fn sentinel_u128_round_trips_the_largest_address() {
    let data = <EmptyInMax as StuffingStrategy<u128>>::stuff_ptr(usize::MAX);
    assert_eq!(data, usize::MAX as u128);
    assert_ne!(data, u128::MAX);
    assert_eq!(<EmptyInMax as StuffingStrategy<u128>>::extract(data), Unstuffed::Ptr(usize::MAX));
}

#[test]
fn sentinel_round_trips_other_in_each_width() {
    let in_usize = <EmptyInMax as StuffingStrategy<usize>>::stuff_other(EmptyInMax);
    assert_eq!(
        <EmptyInMax as StuffingStrategy<usize>>::extract(in_usize),
        Unstuffed::Other(EmptyInMax)
    );
    let in_u64 = <EmptyInMax as StuffingStrategy<u64>>::stuff_other(EmptyInMax);
    assert_eq!(
        <EmptyInMax as StuffingStrategy<u64>>::extract(in_u64),
        Unstuffed::Other(EmptyInMax)
    );
    let in_u128 = <EmptyInMax as StuffingStrategy<u128>>::stuff_other(EmptyInMax);
    assert_eq!(
        <EmptyInMax as StuffingStrategy<u128>>::extract(in_u128),
        Unstuffed::Other(EmptyInMax)
    );
}

#[test]
fn sentinel_usize_reads_the_largest_address_as_other() {
    let data = <EmptyInMax as StuffingStrategy<usize>>::stuff_ptr(usize::MAX);
    assert_eq!(data, usize::MAX);
    let out = <EmptyInMax as StuffingStrategy<usize>>::extract(data);
    assert_eq!(out, Unstuffed::Other(EmptyInMax));
    assert_ne!(out, Unstuffed::Ptr(usize::MAX));
}

#[test]
fn sentinel_u64_reads_the_largest_64_bit_address_as_other() {
    if usize::MAX as u128 == u64::MAX as u128 {
        let data = <EmptyInMax as StuffingStrategy<u64>>::stuff_ptr(usize::MAX);
        assert_eq!(data, u64::MAX);
        let out = <EmptyInMax as StuffingStrategy<u64>>::extract(data);
        assert_eq!(out, Unstuffed::Other(EmptyInMax));
    } else {
        let data = <EmptyInMax as StuffingStrategy<u64>>::stuff_ptr(usize::MAX);
        let out = <EmptyInMax as StuffingStrategy<u64>>::extract(data);
        assert_eq!(out, Unstuffed::Ptr(usize::MAX));
    }
}

#[test]
fn sentinel_decodes_the_same_address_in_every_width() {
    for addr in ADDRESSES {
        let from_usize = <EmptyInMax as StuffingStrategy<usize>>::extract(
            <EmptyInMax as StuffingStrategy<usize>>::stuff_ptr(addr),
        );
        let from_u64 = <EmptyInMax as StuffingStrategy<u64>>::extract(
            <EmptyInMax as StuffingStrategy<u64>>::stuff_ptr(addr),
        );
        let from_u128 = <EmptyInMax as StuffingStrategy<u128>>::extract(
            <EmptyInMax as StuffingStrategy<u128>>::stuff_ptr(addr),
        );
        assert_eq!(from_usize, Unstuffed::Ptr(addr));
        assert_eq!(from_u64, from_usize);
        assert_eq!(from_u128, from_usize);
    }
}

#[test]
fn sentinel_extract_copies_the_result() {
    let out = <EmptyInMax as StuffingStrategy<u64>>::extract(0x2000);
    let copy = out;
    let clone = out.clone();
    assert_eq!(out, copy);
    assert_eq!(out, clone);
    assert_eq!(clone, Unstuffed::Ptr(0x2000));
}
