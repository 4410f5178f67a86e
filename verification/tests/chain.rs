use osu_memory_reader::client::{field, field_back, MemoryClient};
use osu_memory_reader::image::MemoryImage;

const BASE: usize = 0x40_0000;

/// A session on one readable region at `BASE` in which each of `cells` holds
/// a 32-bit value.
fn session(size: usize, cells: &[(usize, u32)]) -> MemoryClient<MemoryImage> {
    let mut data = vec![0u8; size];
    for (addr, value) in cells {
        data[addr - BASE..addr - BASE + 4].copy_from_slice(&value.to_le_bytes());
    }
    let mut image = MemoryImage::new();
    image.map(BASE, 0x04, data);
    MemoryClient::open(image)
}

#[test]
fn an_empty_chain_is_its_start() {
    let client = session(0x10, &[]);
    assert_eq!(client.resolve_ptrs(0x1234, &[]), 0x1234);
    assert_eq!(client.resolve_ptrs(0, &[]), 0);
}

#[test]
fn a_chain_adds_the_offset_and_follows_the_pointer() {
    let client = session(
        0x100,
        &[(BASE + 0x10, (BASE + 0x40) as u32), (BASE + 0x48, (BASE + 0x80) as u32), (BASE + 0x7C, 0xDEAD_BEEF)],
    );
    assert_eq!(client.resolve_ptrs(BASE, &[0x10]), BASE + 0x40);
    assert_eq!(client.resolve_ptrs(BASE, &[0x10, 0x8]), BASE + 0x80);
    assert_eq!(client.resolve_ptrs(BASE, &[0x10, 0x8, -4]), 0xDEAD_BEEF);
}

#[test]
fn offsets_may_point_backward() {
    let client = session(0x100, &[(BASE + 0x20, (BASE + 0x60) as u32)]);
    assert_eq!(client.resolve_ptrs(BASE + 0x2B, &[-0xB]), BASE + 0x60);
}

#[test]
fn a_null_pointer_ends_the_chain_at_zero() {
    let client = session(0x100, &[(BASE + 0x10, (BASE + 0x40) as u32), (BASE + 0x48, 0)]);
    assert_eq!(client.resolve_ptrs(BASE, &[0x10, 0x8]), 0);
    assert_eq!(client.resolve_ptrs(BASE, &[0x10, 0x8, 0x4]), 0);
    assert_eq!(client.resolve_ptrs(BASE, &[0x10, 0x8, 0x4, 0x10]), 0);
}

#[test]
fn a_step_at_address_zero_ends_the_chain_at_zero() {
    let client = session(0x100, &[(BASE + 0x10, 8)]);
    // the first step leads to address 8, the second follows the pointer at 8 - 8
    assert_eq!(client.resolve_ptrs(BASE, &[0x10]), 8);
    assert_eq!(client.resolve_ptrs(BASE, &[0x10, -8]), 0);
    assert_eq!(client.resolve_ptrs(BASE, &[0x10, -8, 0x20]), 0);
    assert_eq!(client.resolve_ptrs(0, &[0]), 0);
    assert_eq!(client.resolve_ptrs(0, &[0, 0x10]), 0);
}

#[test]
fn a_refused_read_ends_the_chain_at_zero() {
    let client = session(0x100, &[(BASE + 0x10, 0x7000_0000)]);
    assert_eq!(client.resolve_ptrs(BASE, &[0x10]), 0x7000_0000);
    assert_eq!(client.resolve_ptrs(BASE, &[0x10, 0x4]), 0);
    assert_eq!(client.resolve_ptrs(BASE, &[0x10, 0x4, 0x4]), 0);
    assert_eq!(client.resolve_ptrs(BASE, &[0x200]), 0);
    assert_eq!(client.resolve_ptrs(0, &[0x68]), 0);
}

#[test]
fn a_chain_that_broke_does_not_go_on_from_address_zero() {
    // address 0x10 holds a pointer, yet a chain that broke before never reads it
    let mut image = MemoryImage::new();
    let mut low = vec![0u8; 0x20];
    low[0x10..0x14].copy_from_slice(&0x0040_0040u32.to_le_bytes());
    image.map(0, 0x04, low);
    image.map(BASE, 0x04, vec![0u8; 0x100]);
    let client = MemoryClient::open(image);
    assert_eq!(client.resolve_ptrs(0, &[0x10]), 0x0040_0040);
    assert_eq!(client.resolve_ptrs(BASE, &[0x8, 0x10]), 0);
}

#[test]
fn offsets_wrap_round_the_address_space() {
    let client = session(0x100, &[(BASE + 0x10, (BASE + 0x40) as u32)]);
    assert_eq!(client.resolve_ptrs(usize::MAX, &[(BASE + 0x11) as isize]), BASE + 0x40);
}

#[test]
fn a_chain_from_an_absent_record_leads_nowhere() {
    // address 0x10 holds a pointer, yet an absent record has no fields
    let mut image = MemoryImage::new();
    let mut low = vec![0u8; 0x20];
    low[0x10..0x14].copy_from_slice(&0x0040_0040u32.to_le_bytes());
    image.map(0, 0x04, low);
    let client = MemoryClient::open(image);
    assert_eq!(client.resolve_ptrs(0, &[0x10]), 0x0040_0040);
    assert_eq!(client.chain(0, &[0x10]), 0);
    assert_eq!(client.chain(0x8, &[0x8]), 0x0040_0040);
    assert_eq!(client.chain(0, &[]), 0);
    assert_eq!(client.chain(0x1234, &[]), 0x1234);
}

#[test]
fn a_field_of_an_absent_record_is_absent() {
    assert_eq!(field(0, 0x64), 0);
    assert_eq!(field(0x1000, 0x64), 0x1064);
    assert_eq!(field(0x1000, 0), 0x1000);
    assert_eq!(field(usize::MAX, 2), 1);
    assert_eq!(field_back(0, 0x20), 0);
    assert_eq!(field_back(0x1000, 0x20), 0xFE0);
    assert_eq!(field_back(0x10, 0x20), usize::MAX - 0xF);
}
