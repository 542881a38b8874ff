use mmtk_dummyvm::layout::{max_log_address_space, BYTES_IN_CHUNK, LOG_MAX_SPACES};
use mmtk_dummyvm::{
    mmtk_init_with_layout, mmtk_last_heap_address, mmtk_process, mmtk_starting_heap_address,
    Binding, Phase, VmLayout,
};

const MIB: usize = 1 << 20;

fn compressed() -> VmLayout {
    VmLayout {
        log_address_space: 35,
        heap_start: 0x4000_0000,
        heap_end: 0x8_0000_0000,
        log_space_extent: 31,
        force_use_contiguous_spaces: false,
    }
}

fn wide() -> VmLayout {
    VmLayout {
        log_address_space: 47,
        heap_start: 0x0000_0200_0000_0000,
        heap_end: 0x0000_2200_0000_0000,
        log_space_extent: 41,
        force_use_contiguous_spaces: true,
    }
}

#[test]
fn constants_match_the_memory_manager() {
    assert_eq!(BYTES_IN_CHUNK, 4 * MIB);
    assert_eq!(BYTES_IN_CHUNK, mmtk::util::heap::vm_layout::BYTES_IN_CHUNK);
    assert_eq!(LOG_MAX_SPACES, 4);
    assert_eq!(
        max_log_address_space(),
        mmtk::util::heap::vm_layout::VMLayout::LOG_ARCH_ADDRESS_SPACE
    );
}

#[test]
fn usual_layouts_are_valid() {
    assert!(wide().is_valid());
    assert!(compressed().is_valid());
    let default = mmtk::util::heap::vm_layout::VMLayout::default();
    let same = VmLayout {
        log_address_space: default.log_address_space,
        heap_start: default.heap_start.as_usize(),
        heap_end: default.heap_end.as_usize(),
        log_space_extent: default.log_space_extent,
        force_use_contiguous_spaces: default.force_use_contiguous_spaces,
    };
    assert!(same.is_valid());
    assert_eq!(same, wide());
}

#[test]
fn heap_ends_must_lie_on_chunk_boundaries() {
    assert!(!VmLayout { heap_start: 0x4000_0000 + 4096, ..compressed() }.is_valid());
    assert!(!VmLayout { heap_end: 0x8_0000_0000 - 1, ..compressed() }.is_valid());
    assert!(VmLayout { heap_start: 0x4000_0000 + BYTES_IN_CHUNK, ..compressed() }.is_valid());
}

#[test]
fn heap_must_not_be_empty() {
    assert!(!VmLayout { heap_start: 0x8_0000_0000, ..compressed() }.is_valid());
    assert!(!VmLayout { heap_start: 0x8_0040_0000, ..compressed() }.is_valid());
    assert!(VmLayout { heap_start: 0, heap_end: BYTES_IN_CHUNK, ..compressed() }.is_valid());
}

#[test]
fn address_space_must_fit_the_machine_and_hold_a_space() {
    assert!(!VmLayout { log_address_space: 48, ..compressed() }.is_valid());
    assert!(VmLayout { log_address_space: 47, ..compressed() }.is_valid());
    assert!(!VmLayout { log_space_extent: 36, ..compressed() }.is_valid());
    assert!(VmLayout { log_space_extent: 35, ..compressed() }.is_valid());
    assert!(!VmLayout { log_address_space: usize::MAX, ..compressed() }.is_valid());
}

#[test]
fn contiguous_spaces_need_room_and_an_aligned_start() {
    assert!(!VmLayout { log_space_extent: 44, ..wide() }.is_valid());
    assert!(VmLayout { log_space_extent: 43, heap_start: 1 << 43, heap_end: 1 << 46, ..wide() }
        .is_valid());
    assert!(!VmLayout { heap_start: 0x0000_0200_0040_0000, ..wide() }.is_valid());
    assert!(!VmLayout { log_address_space: 3, log_space_extent: 0, ..wide() }.is_valid());
    assert!(VmLayout { log_address_space: 4, log_space_extent: 0, ..wide() }.is_valid());
    assert!(!VmLayout { force_use_contiguous_spaces: true, ..compressed() }.is_valid());
    assert!(VmLayout {
        force_use_contiguous_spaces: true,
        heap_start: 0x8000_0000,
        ..compressed()
    }
    .is_valid());
}

#[test]
fn initialization_records_the_chosen_layout() {
    let mut binding = Binding::new();
    assert!(mmtk_process(&mut binding, b"plan", b"NoGC"));
    let bad = VmLayout { heap_start: 12, ..compressed() };
    assert!(!binding.can_initialize(64 * MIB, &Some(bad)));
    assert!(!binding.can_initialize(0, &Some(compressed())));
    assert!(binding.can_initialize(64 * MIB, &Some(compressed())));
    assert_eq!(binding.heap_layout(), wide());
    mmtk_init_with_layout(&mut binding, 64 * MIB, Some(compressed()));
    assert_eq!(binding.phase(), Phase::Initialized);
    assert_eq!(binding.heap_size(), Some(64 * MIB));
    assert_eq!(binding.layout(), Some(compressed()));
    assert_eq!(binding.heap_layout(), compressed());
    assert_eq!(mmtk_starting_heap_address(&binding), 0x4000_0000);
    assert_eq!(mmtk_last_heap_address(&binding), 0x8_0000_0000);
    assert_eq!(mmtk_starting_heap_address(&binding), 0x4000_0000);
    assert!(!binding.can_initialize(64 * MIB, &Some(compressed())));
    assert!(matches!(
        *binding.builder().options.plan,
        mmtk::util::options::PlanSelector::NoGC
    ));
}

#[test]
fn initialization_without_a_layout_keeps_the_built_in_one() {
    let mut binding = Binding::new();
    assert!(binding.can_initialize(MIB, &None));
    mmtk_init_with_layout(&mut binding, MIB, None);
    assert_eq!(binding.layout(), None);
    assert_eq!(binding.heap_layout(), wide());
    assert_eq!(mmtk_starting_heap_address(&binding), 0x0000_0200_0000_0000);
    assert_eq!(mmtk_last_heap_address(&binding), 0x0000_2200_0000_0000);
}
