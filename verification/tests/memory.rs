use qutyemu::memory::{
    read_word, set_bit, write_word, MapEntry, MapError, Memory, MemoryMap, MemoryMapped,
};

#[test]
fn ram_returns_what_was_written() {
    let mut ram = Memory::new(16, 0x00, 0);
    assert_eq!(ram.get_size(), 16);
    for address in 0..16usize {
        assert_eq!(ram.read(address), (0, 0));
    }
    assert_eq!(ram.write(5, 0xA5), 0);
    assert_eq!(ram.read(5), (0xA5, 0));
    assert_eq!(ram.read(4), (0, 0));
    assert_eq!(ram.read(6), (0, 0));
    assert_eq!(ram.peek(5), 0xA5);
}

#[test]
fn memory_is_filled_and_has_latency() {
    let mut flash = Memory::new(8, 0xFF, 3);
    assert_eq!(flash.read(0), (0xFF, 3));
    assert_eq!(flash.read(7), (0xFF, 3));
}

#[test]
fn rom_drops_writes() {
    let mut rom = Memory::new_rom(vec![0x00, 0x04], 0);
    assert_eq!(rom.write(1, 0xFF), 0);
    assert_eq!(rom.read(1), (0x04, 0));
    assert_eq!(rom.read(0), (0x00, 0));
}

#[test]
fn accesses_outside_a_block_do_nothing() {
    let mut ram = Memory::new(4, 0x11, 2);
    assert_eq!(ram.read(4), (0, 0));
    assert_eq!(ram.write(4, 0x22), 0);
    assert_eq!(ram.read(3), (0x11, 2));
    assert_eq!(ram.peek(100), 0);
}

#[test]
fn words_are_little_endian() {
    let mut ram = Memory::new(8, 0x00, 1);
    assert_eq!(write_word(&mut ram, 2, 0xBEEF), 0);
    assert_eq!(ram.read(2), (0xEF, 1));
    assert_eq!(ram.read(3), (0xBE, 1));
    assert_eq!(read_word(&mut ram, 2), (0xBEEF, 2));
}

#[test]
fn single_bits_are_set_and_cleared() {
    let mut ram = Memory::new(2, 0x00, 0);
    assert_eq!(set_bit(&mut ram, 1, 3, true), 0);
    assert_eq!(ram.read(1), (0x08, 0));
    set_bit(&mut ram, 1, 7, true);
    assert_eq!(ram.read(1), (0x88, 0));
    set_bit(&mut ram, 1, 3, false);
    assert_eq!(ram.read(1), (0x80, 0));
}

#[test]
fn map_finds_regions_by_bisection() {
    let mut map = MemoryMap::new();
    assert!(map.add(0x0000, 4, 10));
    assert!(map.add(0x0010, 0x10, 11));
    assert!(map.add(0x3800, 0x800, 12));
    assert_eq!(map.get_size(), 3);
    assert_eq!(map.get_dev(0x0000), Ok((10, 0)));
    assert_eq!(map.get_dev(0x0003), Ok((10, 3)));
    assert_eq!(map.get_dev(0x0004), Err(MapError::Undefined { address: 4 }));
    assert_eq!(map.get_dev(0x000F), Err(MapError::Undefined { address: 0x0F }));
    assert_eq!(map.get_dev(0x0010), Ok((11, 0)));
    assert_eq!(map.get_dev(0x001F), Ok((11, 0x0F)));
    assert_eq!(map.get_dev(0x3FFF), Ok((12, 0x7FF)));
    assert_eq!(map.get_dev(0x4000), Err(MapError::Undefined { address: 0x4000 }));
}

#[test]
fn map_refuses_regions_out_of_order() {
    let mut map = MemoryMap::new();
    assert!(map.add(0x0100, 0x10, 0));
    assert!(!map.add(0x0100, 0x10, 1));
    assert!(!map.add(0x010F, 1, 1));
    assert!(!map.add(0x0000, 1, 1));
    assert!(!map.add(usize::MAX, 2, 1));
    assert!(map.add(0x0110, 0, 2));
    assert_eq!(map.get_size(), 2);
    assert_eq!(map.mm[1], MapEntry { base: 0x0110, size: 0, dev: 2 });
    assert_eq!(map.get_dev(0x0110), Err(MapError::Undefined { address: 0x0110 }));
}

#[test]
fn empty_map_finds_nothing() {
    let map = MemoryMap::new();
    assert_eq!(map.get_size(), 0);
    assert_eq!(map.get_dev(0), Err(MapError::Undefined { address: 0 }));
}
