use haltut::memory::buffer_byte_len;
use haltut::memory::find_memory_type;
use haltut::memory::MemoryProperties;
use haltut::memory::MemoryTypeInfo;
use haltut::memory::COHERENT;
use haltut::memory::CPU_CACHED;
use haltut::memory::CPU_VISIBLE;
use haltut::memory::DEVICE_LOCAL;

fn ty(bits: u16) -> MemoryTypeInfo {
    MemoryTypeInfo { properties: MemoryProperties { bits }, heap_index: 0 }
}

fn table() -> Vec<MemoryTypeInfo> {
    vec![
        ty(DEVICE_LOCAL),
        ty(COHERENT | CPU_VISIBLE),
        ty(DEVICE_LOCAL | CPU_VISIBLE),
        ty(DEVICE_LOCAL | CPU_VISIBLE | CPU_CACHED),
    ]
}

#[test]
fn picks_first_allowed_type_with_required_flags() {
    let visible = MemoryProperties { bits: CPU_VISIBLE };
    assert_eq!(find_memory_type(&table(), 0b1111, visible), Some(1));
    assert_eq!(find_memory_type(&table(), 0b1101, visible), Some(2));
    assert_eq!(find_memory_type(&table(), 0b1001, visible), Some(3));
}

#[test]
fn none_when_no_type_qualifies() {
    let visible = MemoryProperties { bits: CPU_VISIBLE };
    assert_eq!(find_memory_type(&table(), 0b0001, visible), None);
    assert_eq!(find_memory_type(&table(), 0, MemoryProperties { bits: 0 }), None);
    assert_eq!(find_memory_type(&vec![], u64::MAX, visible), None);
}

#[test]
fn single_qualifying_entry_found_at_any_position() {
    let required = MemoryProperties { bits: DEVICE_LOCAL | CPU_VISIBLE };
    for pos in 0..6usize {
        let mut types = vec![ty(COHERENT); 6];
        types[pos] = ty(DEVICE_LOCAL | CPU_VISIBLE | COHERENT);
        assert_eq!(find_memory_type(&types, 0b11_1111, required), Some(pos));
    }
}

#[test]
fn empty_requirement_takes_first_allowed_type() {
    assert_eq!(find_memory_type(&table(), 0b0100, MemoryProperties { bits: 0 }), Some(2));
}

#[test]
fn contains_checks_every_flag() {
    let p = MemoryProperties { bits: DEVICE_LOCAL | CPU_VISIBLE };
    assert!(p.contains(MemoryProperties { bits: CPU_VISIBLE }));
    assert!(p.contains(MemoryProperties { bits: 0 }));
    assert!(!p.contains(MemoryProperties { bits: CPU_VISIBLE | COHERENT }));
}

#[test]
fn byte_length_is_count_times_stride() {
    assert_eq!(buffer_byte_len(6, 28), Some(168));
    assert_eq!(buffer_byte_len(0, 28), Some(0));
    assert_eq!(buffer_byte_len(1, 64), Some(64));
}

#[test]
fn byte_length_overflow_is_none() {
    assert_eq!(buffer_byte_len(usize::MAX, 2), None);
}
