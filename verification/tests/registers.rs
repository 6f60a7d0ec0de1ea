use cupi::bcm270x::GPIORegister;
use cupi::map::{MemoryMap, BLOCK_WORDS};
use cupi::{Register, RegisterOperations};

#[test]
fn register_operations() {
    let mut register = Register { word: 0, desc: GPIORegister::GPIOPinPullUpDownEnable };
    assert_eq!(register.read(), 0);
    register.write(0b1100);
    assert_eq!(register.read(), 0b1100);
    register.bitand(0b0110);
    assert_eq!(register.read(), 0b0100);
    register.bitor(0b0011);
    assert_eq!(register.read(), 0b0111);
    register.bitxor(0b0101);
    assert_eq!(register.read(), 0b0010);
    register.bitxor(0b0101);
    assert_eq!(register.read(), 0b0111);
    assert_eq!(register.desc, GPIORegister::GPIOPinPullUpDownEnable);
}

#[test]
fn memory_map_starts_zeroed() {
    let map = MemoryMap::new();
    assert_eq!(map.len(), 1024);
    assert_eq!(BLOCK_WORDS, 1024);
    for offset in 0..BLOCK_WORDS {
        assert_eq!(map.read(offset), 0);
    }
}

#[test]
fn memory_map_write_touches_one_word() {
    let mut map = MemoryMap::new();
    map.write(13, 0xDEADBEEF);
    map.write(1023, 7);
    for offset in 0..BLOCK_WORDS {
        let expected = match offset {
            13 => 0xDEADBEEF,
            1023 => 7,
            _ => 0,
        };
        assert_eq!(map.read(offset), expected);
    }
}

#[test]
fn memory_map_hands_out_registers() {
    let mut map = MemoryMap::new();
    map.write(14, 0x55);
    let mut register = map.register(GPIORegister::GPIOPinLevel(1));
    assert_eq!(register.word, 0x55);
    assert_eq!(register.desc, GPIORegister::GPIOPinLevel(1));
    register.bitor(0xAA);
    assert_eq!(map.read(14), 0x55);
    map.store(&register);
    assert_eq!(map.read(14), 0xFF);
    assert_eq!(map.read(13), 0);
}
