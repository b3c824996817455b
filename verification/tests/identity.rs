use stuff::{StuffingStrategy, Unstuffed};

const ADDRESSES: [usize; 8] = [
    0,
    1,
    8,
    0x1000,
    0xdead_bee8,
    usize::MAX / 2,
    usize::MAX - 1,
    usize::MAX,
];

#[test]
fn unit_stuffs_address_unchanged() {
    assert_eq!(<() as StuffingStrategy<usize>>::stuff_ptr(0x1000), 0x1000usize);
    assert_eq!(<() as StuffingStrategy<u64>>::stuff_ptr(0x1000), 0x1000u64);
    assert_eq!(<() as StuffingStrategy<u128>>::stuff_ptr(0x1000), 0x1000u128);
}

#[test]
fn unit_usize_round_trips_every_address() {
    for addr in ADDRESSES {
        let data = <() as StuffingStrategy<usize>>::stuff_ptr(addr);
        assert_eq!(data, addr);
        assert_eq!(<() as StuffingStrategy<usize>>::extract(data), Unstuffed::Ptr(addr));
    }
}

#[test]
fn unit_u64_round_trips_every_address() {
    for addr in ADDRESSES {
        let data = <() as StuffingStrategy<u64>>::stuff_ptr(addr);
        assert_eq!(data as u128, addr as u128);
        assert_eq!(<() as StuffingStrategy<u64>>::extract(data), Unstuffed::Ptr(addr));
    }
}

#[test]
fn unit_u128_round_trips_every_address() {
    for addr in ADDRESSES {
        let data = <() as StuffingStrategy<u128>>::stuff_ptr(addr);
        assert_eq!(data, addr as u128);
        assert_eq!(<() as StuffingStrategy<u128>>::extract(data), Unstuffed::Ptr(addr));
    }
}

#[test]
fn unit_round_trips_the_largest_address_without_a_tag() {
    let data = <() as StuffingStrategy<usize>>::stuff_ptr(usize::MAX);
    assert_eq!(data, usize::MAX);
    assert_eq!(<() as StuffingStrategy<usize>>::extract(data), Unstuffed::Ptr(usize::MAX));
}

#[test]
fn unit_stuffs_other_as_zero() {
    assert_eq!(<() as StuffingStrategy<usize>>::stuff_other(()), 0usize);
    assert_eq!(<() as StuffingStrategy<u64>>::stuff_other(()), 0u64);
    assert_eq!(<() as StuffingStrategy<u128>>::stuff_other(()), 0u128);
}

#[test]
fn unit_extract_always_reports_an_address() {
    let data = <() as StuffingStrategy<u64>>::stuff_other(());
    assert_eq!(<() as StuffingStrategy<u64>>::extract(data), Unstuffed::Ptr(0));
    assert_eq!(<() as StuffingStrategy<u64>>::extract(7), Unstuffed::Ptr(7));
    assert_eq!(<() as StuffingStrategy<u128>>::extract(0), Unstuffed::Ptr(0));
    assert_eq!(<() as StuffingStrategy<usize>>::extract(usize::MAX), Unstuffed::Ptr(usize::MAX));
}
