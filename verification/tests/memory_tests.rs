use invaders::memory::Memory;

#[test]
fn test_memory_access_with_u16() {
    let mut memory = Memory::new();

    memory.set(1, 2);

    assert_eq!(memory.get(1), 2);

    let address: u16 = 0x78;

    memory.set(address, 45);

    assert_eq!(memory.get(address), 45);

    memory.set(address, 0);

    assert_eq!(memory.get(address), 0);
}

#[test]
fn test_memory_top_cell() {
    let mut memory = Memory::new();
    memory.set(0xFFFF, 0xAB);
    assert_eq!(memory.get(0xFFFF), 0xAB);
    assert_eq!(memory.get(0xFFFE), 0);
}

#[test]
fn test_load_and_view() {
    let mut memory = Memory::new();
    let rom = [1u8, 2, 3, 4, 5];
    memory.load(0x2400, &rom);
    assert_eq!(memory.get(0x2400), 1);
    assert_eq!(memory.get(0x2404), 5);
    assert_eq!(memory.get(0x2405), 0);
    let window = memory.view(0x2400, 0x2404);
    assert_eq!(window, &rom);
    let wider = memory.view(0x23FF, 0x2405);
    assert_eq!(wider, &[0, 1, 2, 3, 4, 5, 0]);
}
