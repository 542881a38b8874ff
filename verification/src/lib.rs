//! The binding contract between a managed-language runtime and the MMTk
//! memory manager: how the runtime configures the manager, brings its single
//! instance to life, routes allocation requests by size, and switches
//! collection on and off.
//!
//! Every rule of that contract is a verified function over plain values. The
//! embedding performs the calls that need the constructed manager instance
//! and asks this library what to hand to them.

pub mod binding;
pub mod layout;
pub mod options;
pub mod protocol;
pub mod semantics;

pub use binding::{
    mmtk_disable_collection, mmtk_enable_collection, mmtk_init, mmtk_init_with_layout,
    mmtk_initialize_collection, mmtk_last_heap_address, mmtk_process,
    mmtk_starting_heap_address, process_text, Binding, BindingState, Phase,
};
pub use layout::VmLayout;
pub use semantics::{
    mmtk_alloc, mmtk_post_alloc, mmtk_will_never_move, AllocationRequest, AllocationSemantics,
};
