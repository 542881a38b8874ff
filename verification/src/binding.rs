//! The configuration store and the life cycle of the memory manager's single
//! instance.

use crate::layout::{default_layout, lemma_default_layout_is_valid, VmLayout, BYTES_IN_CHUNK};
use crate::options::{accepts, answer, answer_to, built_in, meaning, stored, Answer};
use crate::protocol::{step, Event};
use mmtk::util::heap::vm_layout::VMLayout;
use mmtk::util::options::{AffinityKind, GCTriggerSelector};
use mmtk::MMTKBuilder;
use vstd::prelude::*;
use vstd::string::StringSliceAdditionalSpecFns;
use vstd::utf8::{decode_utf8, encode_utf8_decode_utf8, valid_utf8};

verus! {

/// MMTk's builder: the options that an instance is constructed from.
#[verifier::external_type_specification]
#[verifier::external_body]
pub struct ExMMTKBuilder(MMTKBuilder);

/// Whether every option of the builder has the validator and the flags that
/// MMTk's own constructor gives it.
pub uninterp spec fn is_standard(builder: MMTKBuilder) -> bool;

/// Whether the builder's validator for `transparent_hugepages` accepts
/// `true`. The standard validator does so exactly where MMTk is built for
/// Linux, which is also where it can count the machine's cores.
pub uninterp spec fn on_linux(builder: MMTKBuilder) -> bool;

/// What the builder holds for each option, by the option's name, written as
/// numbers: 0 or 1 for a switch; the position of the name for the plan and
/// for the zeroing; the number for an option that holds one; for the nursery
/// the kind (0 for bounded, 1 for fixed), the lower bound and, where it has
/// one, the upper bound; for the trigger 0 and the size of a fixed heap, 1
/// and the two sizes of a dynamic heap, or 2 where it is delegated; for the
/// thread affinity the cores, none where the operating system decides; for
/// the perf events the process and the processor of each event.
pub uninterp spec fn settings(builder: MMTKBuilder) -> Map<Seq<char>, Seq<int>>;

/// Calls `MMTKBuilder::new_no_env_vars`, which makes a builder with MMTk's
/// built-in options and reads nothing from the environment.
#[verifier::external_body]
fn new_builder() -> (builder: MMTKBuilder)
    ensures
        is_standard(builder),
        built_in(settings(builder)),
{
    MMTKBuilder::new_no_env_vars()
}

/// Calls `core::str::from_utf8`, which gives the text that the bytes encode
/// and fails exactly when they are not UTF-8.
#[verifier::external_body]
fn text_of<'a>(bytes: &'a [u8]) -> (text: Option<&'a str>)
    ensures
        text is Some <==> valid_utf8(bytes@),
        text matches Some(s) ==> s.spec_bytes() == bytes@,
{
    core::str::from_utf8(bytes).ok()
}

/// Calls `VMLayout::default`, which gives the layout that MMTk uses until
/// another is installed.
#[verifier::external_body]
fn builtin_layout() -> (layout: VmLayout)
    ensures
        layout == default_layout(),
{
    let layout = VMLayout::default();
    VmLayout {
        log_address_space: layout.log_address_space,
        heap_start: layout.heap_start.as_usize(),
        heap_end: layout.heap_end.as_usize(),
        log_space_extent: layout.log_space_extent,
        force_use_contiguous_spaces: layout.force_use_contiguous_spaces,
    }
}

/// The builder, kept as MMTk made it but for the values of its options.
struct Store {
    builder: MMTKBuilder,
}

impl Store {
    #[verifier::type_invariant]
    closed spec fn standard(&self) -> bool {
        is_standard(self.builder)
    }
}

/// Calls `mmtk::memory_manager::process`, which parses `value` for the
/// option `name`, runs the option's validator and stores the value if the
/// validator accepts it. `requires` admits the settings that a standard
/// builder accepts on every machine. On these MMTk does not panic and prints
/// nothing. It writes the one option and no other.
#[verifier::external_body]
fn set_option(store: &mut Store, name: &str, value: &str) -> (accepted: bool)
    requires
        is_standard(old(store).builder),
        meaning(name@, value@) is Some,
    ensures
        accepted,
        is_standard(final(store).builder),
        on_linux(final(store).builder) == on_linux(old(store).builder),
        settings(final(store).builder) == settings(old(store).builder).insert(
            name@,
            meaning(name@, value@)->Some_0,
        ),
{
    mmtk::memory_manager::process(&mut store.builder, name, value)
}

/// Calls `MMTKOption::set` on the builder's `gc_trigger` option with a fixed
/// heap size. The standard validator accepts a fixed heap size exactly when
/// it is not zero; a size that is accepted is what the option holds
/// afterwards, a size that is refused is not stored, and no other option is
/// written.
#[verifier::external_body]
fn set_fixed_heap_size(store: &mut Store, heap_size: usize) -> (accepted: bool)
    requires
        is_standard(old(store).builder),
    ensures
        accepted == (heap_size > 0),
        accepted ==> settings(final(store).builder) == settings(old(store).builder).insert(
            "gc_trigger"@,
            seq![0int, heap_size as int],
        ),
        !accepted ==> final(store).builder == old(store).builder,
        is_standard(final(store).builder),
        on_linux(final(store).builder) == on_linux(old(store).builder),
{
    store.builder.options.gc_trigger.set(GCTriggerSelector::FixedHeapSize(heap_size))
}

/// Calls `MMTKOption::set` with `true` on a copy of the builder's
/// `transparent_hugepages` option, which runs the validator and leaves the
/// builder as it is.
#[verifier::external_body]
fn linux_options_work(store: &Store) -> (yes: bool)
    ensures
        yes == on_linux(store.builder),
{
    store.builder.options.transparent_hugepages.clone().set(true)
}

/// Calls `MMTKOption::set` with `true` on the builder's
/// `transparent_hugepages` option. The validator decides; the switch is
/// stored if it accepts, and nothing is written if it refuses. The call
/// neither panics nor prints.
#[verifier::external_body]
fn set_huge_pages(store: &mut Store) -> (accepted: bool)
    requires
        is_standard(old(store).builder),
    ensures
        accepted == on_linux(old(store).builder),
        accepted ==> settings(final(store).builder) == settings(old(store).builder).insert(
            "transparent_hugepages"@,
            seq![1int],
        ),
        !accepted ==> final(store).builder == old(store).builder,
        is_standard(final(store).builder),
        on_linux(final(store).builder) == on_linux(old(store).builder),
{
    store.builder.options.transparent_hugepages.set(true)
}

/// Calls `AffinityKind::from_str` and, where that reads a list of cores,
/// `MMTKOption::set` on the builder's `thread_affinity` option. The standard
/// validator counts the machine's cores, which MMTk can do where it is built
/// for Linux, and accepts the list if the machine has every core in it.
/// Whether it does depends on the machine: where the list is accepted only
/// this option is written, where it is refused nothing is. The calls neither
/// panic nor print.
#[verifier::external_body]
fn set_thread_affinity(store: &mut Store, value: &str) -> (accepted: bool)
    requires
        is_standard(old(store).builder),
        on_linux(old(store).builder),
    ensures
        accepted ==> settings(final(store).builder) == settings(old(store).builder).insert(
            "thread_affinity"@,
            settings(final(store).builder)["thread_affinity"@],
        ),
        !accepted ==> final(store).builder == old(store).builder,
        is_standard(final(store).builder),
        on_linux(final(store).builder) == on_linux(old(store).builder),
{
    match value.parse::<AffinityKind>() {
        Ok(cores) => store.builder.options.thread_affinity.set(cores),
        Err(_) => false,
    }
}

/// How far the memory manager's single instance has come.
#[derive(Clone, Copy, Debug, PartialEq, Eq, Structural)]
pub enum Phase {
    /// No setting has been accepted yet.
    Unconfigured,
    /// At least one setting has been accepted; more may follow.
    Configuring,
    /// The configuration is final: the instance is constructed from it.
    Initialized,
}

impl Phase {
    /// The position of the phase in the life cycle.
    pub open spec fn rank(self) -> nat {
        match self {
            Phase::Unconfigured => 0,
            Phase::Configuring => 1,
            Phase::Initialized => 2,
        }
    }
}

/// What the binding knows of the memory manager.
pub struct BindingState {
    /// How far the instance has come.
    pub phase: Phase,
    /// Whether the memory manager can switch huge pages on and tie threads
    /// to cores, which it can on Linux.
    pub linux: bool,
    /// What the store holds for each option.
    pub settings: Map<Seq<char>, Seq<int>>,
    /// The fixed heap size that the instance was initialised with.
    pub heap_size: Option<usize>,
    /// The layout that the runtime chose, where it chose one.
    pub layout: Option<VmLayout>,
    /// Whether the collector's threads have been started.
    pub collection_initialized: bool,
    /// Whether a full heap triggers a collection.
    pub collection_enabled: bool,
}

impl BindingState {
    /// Whether nothing has happened yet. A full heap triggers a collection
    /// unless that is switched off.
    pub open spec fn is_fresh(self) -> bool {
        &&& self.phase == Phase::Unconfigured
        &&& self.heap_size is None
        &&& self.layout is None
        &&& !self.collection_initialized
        &&& self.collection_enabled
    }

    /// The fixed heap size that the store holds, where it holds one.
    pub open spec fn trigger(self) -> Option<int> {
        let entry = self.settings["gc_trigger"@];
        if entry.len() == 2 && entry[0] == 0 {
            Some(entry[1])
        } else {
            None
        }
    }

    /// The state after a setting of the option `name` has been accepted
    /// that stores `entry`: of the store only that option changes.
    pub open spec fn configured(self, name: Seq<char>, entry: Seq<int>) -> BindingState {
        BindingState { phase: Phase::Configuring, settings: self.settings.insert(name, entry), ..self }
    }

    /// The state after initialisation with a heap of `heap_size` bytes and,
    /// where one is given, a layout of the runtime's choice. Of the store
    /// only the heap size changes.
    pub open spec fn initialized(self, heap_size: usize, layout: Option<VmLayout>) -> BindingState {
        BindingState {
            phase: Phase::Initialized,
            settings: self.settings.insert("gc_trigger"@, seq![0int, heap_size as int]),
            heap_size: Some(heap_size),
            layout: if layout is Some {
                layout
            } else {
                self.layout
            },
            ..self
        }
    }

    /// The state after the instance has been constructed from the
    /// configuration as it stood, because it was used before it was
    /// initialised.
    pub open spec fn sealed(self) -> BindingState {
        BindingState { phase: Phase::Initialized, ..self }
    }

    /// The state after the collector's threads have been started.
    pub open spec fn collection_started(self) -> BindingState {
        BindingState { collection_initialized: true, ..self }
    }

    /// The state after automatic collection has been switched on or off.
    pub open spec fn collection_switched(self, on: bool) -> BindingState {
        BindingState { collection_enabled: on, ..self }
    }

    /// What holds of every state that the binding can reach: a layout that
    /// was chosen is one that the memory manager accepts, and before
    /// initialisation no heap size and no layout is recorded and collection
    /// is as the memory manager starts it.
    pub open spec fn well_formed(self) -> bool {
        &&& self.layout matches Some(l) ==> l.valid()
        &&& self.phase != Phase::Initialized ==> {
            &&& self.heap_size is None
            &&& self.layout is None
            &&& !self.collection_initialized
            &&& self.collection_enabled
        }
    }

    /// Whether the memory manager can be initialised with these arguments:
    /// it has not been initialised before, the heap is not empty, and a
    /// layout, where one is given, is one that the manager accepts.
    pub open spec fn may_initialize(self, heap_size: usize, layout: Option<VmLayout>) -> bool {
        &&& self.phase != Phase::Initialized
        &&& heap_size > 0
        &&& layout matches Some(l) ==> l.valid()
    }

    /// The layout of the heap: the one that the runtime chose, or else the
    /// one that the memory manager uses where none is chosen.
    pub open spec fn heap_layout(self) -> VmLayout {
        match self.layout {
            Some(l) => l,
            None => default_layout(),
        }
    }
}

/// The state of the life cycle as the binding keeps it.
struct Progress {
    phase: Phase,
    heap_size: Option<usize>,
    layout: Option<VmLayout>,
    collection_initialized: bool,
    collection_enabled: bool,
}

impl Progress {
    /// The binding is always in a state that the life cycle can reach.
    #[verifier::type_invariant]
    closed spec fn reachable(&self) -> bool {
        &&& self.layout matches Some(l) ==> l.valid()
        &&& self.phase != Phase::Initialized ==> {
            &&& self.heap_size is None
            &&& self.layout is None
            &&& !self.collection_initialized
            &&& self.collection_enabled
        }
    }
}

/// The configuration store together with the life cycle of the instance that
/// is constructed from it.
pub struct Binding {
    store: Store,
    progress: Progress,
}

impl View for Binding {
    type V = BindingState;

    closed spec fn view(&self) -> BindingState {
        BindingState {
            phase: self.progress.phase,
            linux: on_linux(self.store.builder),
            settings: settings(self.store.builder),
            heap_size: self.progress.heap_size,
            layout: self.progress.layout,
            collection_initialized: self.progress.collection_initialized,
            collection_enabled: self.progress.collection_enabled,
        }
    }
}

impl Binding {
    /// The options as they stand.
    pub closed spec fn options(&self) -> MMTKBuilder {
        self.store.builder
    }

    /// A binding in its first state, around a store with the memory
    /// manager's built-in options.
    pub fn new() -> (binding: Binding)
        ensures
            binding@.is_fresh(),
            binding@.well_formed(),
            built_in(binding@.settings),
    {
        Binding {
            store: Store { builder: new_builder() },
            progress: Progress {
                phase: Phase::Unconfigured,
                heap_size: None,
                layout: None,
                collection_initialized: false,
                collection_enabled: true,
            },
        }
    }

    /// The options, for the construction of the instance.
    pub fn builder(&self) -> (builder: &MMTKBuilder)
        ensures
            *builder == self.options(),
            settings(*builder) == self@.settings,
            on_linux(*builder) == self@.linux,
            is_standard(*builder),
    {
        proof {
            use_type_invariant(&self.store);
        }
        &self.store.builder
    }

    /// How far the instance has come.
    pub fn phase(&self) -> (phase: Phase)
        ensures
            phase == self@.phase,
            self@.well_formed(),
    {
        proof {
            use_type_invariant(&self.progress);
        }
        self.progress.phase
    }

    /// Whether the configuration is final.
    pub fn is_initialized(&self) -> (yes: bool)
        ensures
            yes == (self@.phase == Phase::Initialized),
    {
        match self.progress.phase {
            Phase::Initialized => true,
            _ => false,
        }
    }

    /// The heap size that the instance was initialised with.
    pub fn heap_size(&self) -> (size: Option<usize>)
        ensures
            size == self@.heap_size,
    {
        self.progress.heap_size
    }

    /// The layout that the runtime chose, where it chose one. The embedding
    /// installs it before it constructs the instance.
    pub fn layout(&self) -> (layout: Option<VmLayout>)
        ensures
            layout == self@.layout,
            layout matches Some(l) ==> l.valid(),
    {
        proof {
            use_type_invariant(&self.progress);
        }
        self.progress.layout
    }

    /// Whether the collector's threads have been started.
    pub fn collection_initialized(&self) -> (yes: bool)
        ensures
            yes == self@.collection_initialized,
    {
        self.progress.collection_initialized
    }

    /// Whether a full heap triggers a collection.
    pub fn collection_enabled(&self) -> (yes: bool)
        ensures
            yes == self@.collection_enabled,
    {
        self.progress.collection_enabled
    }

    /// Records a use of the instance. The first use before initialisation
    /// has the instance constructed from the configuration as it stands,
    /// which is final from then on; the answer says whether this was that
    /// use.
    pub fn first_use(&mut self) -> (constructs: bool)
        ensures
            constructs == (old(self)@.phase != Phase::Initialized),
            final(self)@ == old(self)@.sealed(),
            final(self)@ == step(old(self)@, Event::Use),
            final(self).options() == old(self).options(),
    {
        let constructs = !self.is_initialized();
        proof {
            use_type_invariant(&self.progress);
        }
        self.progress.phase = Phase::Initialized;
        constructs
    }

    /// Whether `mmtk_init_with_layout` can be called with these arguments.
    pub fn can_initialize(&self, heap_size: usize, layout: &Option<VmLayout>) -> (ok: bool)
        ensures
            ok == self@.may_initialize(heap_size, *layout),
    {
        if self.is_initialized() || heap_size == 0 {
            return false;
        }
        match layout {
            Some(l) => l.is_valid(),
            None => true,
        }
    }

    /// The layout of the heap: the one that the runtime chose, or else the
    /// one that the memory manager uses where none is chosen.
    pub fn heap_layout(&self) -> (layout: VmLayout)
        ensures
            layout == self@.heap_layout(),
            layout.valid(),
    {
        proof {
            use_type_invariant(&self.progress);
            lemma_default_layout_is_valid();
        }
        match self.progress.layout {
            Some(l) => l,
            None => builtin_layout(),
        }
    }
}

/// Hands one setting to the configuration store. Once the memory manager
/// is initialised every setting is refused. Before that a setting is
/// accepted where its text says that the manager accepts it; huge pages are
/// switched on where the manager runs on Linux; threads are tied to cores
/// where it runs on Linux and the machine has the cores; every other setting
/// is refused. An accepted setting changes the one option, a refused one
/// nothing.
pub fn process_text(binding: &mut Binding, name: &str, value: &str) -> (accepted: bool)
    ensures
        accepted == (old(binding)@.phase != Phase::Initialized && accepts(
            old(binding)@.linux,
            name@,
            value@,
            accepted,
        )),
        accepted ==> final(binding)@ == old(binding)@.configured(
            name@,
            final(binding)@.settings[name@],
        ),
        accepted ==> (stored(name@, value@) matches Some(entry) ==> final(binding)@.settings[name@]
            == entry),
        final(binding)@ == step(
            old(binding)@,
            Event::Setting {
                name: name@,
                value: value@,
                grants: if accepted {
                    Some(final(binding)@.settings[name@])
                } else {
                    None
                },
            },
        ),
        !accepted ==> *final(binding) == *old(binding),
{
    if binding.is_initialized() {
        return false;
    }
    proof {
        use_type_invariant(&binding.store);
        use_type_invariant(&binding.progress);
    }
    let accepted = match answer_to(name, value) {
        Answer::Accepted => set_option(&mut binding.store, name, value),
        Answer::HugePages => set_huge_pages(&mut binding.store),
        Answer::Affinity => {
            if linux_options_work(&binding.store) {
                set_thread_affinity(&mut binding.store, value)
            } else {
                false
            }
        },
        Answer::Refused => false,
    };
    if accepted {
        binding.progress.phase = Phase::Configuring;
    }
    accepted
}

/// Hands one setting to the configuration store as the bytes of its name
/// and of its value. Bytes that are not UTF-8 are refused; the text that the
/// others encode is handed on as `process_text` does.
pub fn mmtk_process(binding: &mut Binding, name: &[u8], value: &[u8]) -> (accepted: bool)
    ensures
        accepted == (old(binding)@.phase != Phase::Initialized && valid_utf8(name@) && valid_utf8(
            value@,
        ) && accepts(old(binding)@.linux, decode_utf8(name@), decode_utf8(value@), accepted)),
        accepted ==> final(binding)@ == old(binding)@.configured(
            decode_utf8(name@),
            final(binding)@.settings[decode_utf8(name@)],
        ),
        accepted ==> (stored(decode_utf8(name@), decode_utf8(value@)) matches Some(entry)
            ==> final(binding)@.settings[decode_utf8(name@)] == entry),
        !accepted ==> *final(binding) == *old(binding),
{
    match text_of(name) {
        Some(name_text) => match text_of(value) {
            Some(value_text) => {
                proof {
                    encode_utf8_decode_utf8(name_text@);
                    encode_utf8_decode_utf8(value_text@);
                }
                process_text(binding, name_text, value_text)
            },
            None => false,
        },
        None => false,
    }
}

/// Initialises the memory manager with a fixed heap of `heap_size` bytes and,
/// where one is given, a layout of the runtime's choice. The configuration
/// is final afterwards: it is what the instance is constructed from. Of the
/// store only the heap size changes. The layout is recorded; the embedding
/// installs it before it constructs the instance.
pub fn mmtk_init_with_layout(binding: &mut Binding, heap_size: usize, layout: Option<VmLayout>)
    requires
        old(binding)@.may_initialize(heap_size, layout),
    ensures
        final(binding)@ == old(binding)@.initialized(heap_size, layout),
        final(binding)@ == step(old(binding)@, Event::Initialize { heap_size, layout }),
{
    proof {
        use_type_invariant(&binding.store);
        use_type_invariant(&binding.progress);
    }
    let accepted = set_fixed_heap_size(&mut binding.store, heap_size);
    assert(accepted);
    binding.progress.phase = Phase::Initialized;
    binding.progress.heap_size = Some(heap_size);
    if layout.is_some() {
        binding.progress.layout = layout;
    }
}

/// Initialises the memory manager with a fixed heap of `heap_size` bytes and
/// the layout that the memory manager uses where none is chosen.
pub fn mmtk_init(binding: &mut Binding, heap_size: usize)
    requires
        old(binding)@.may_initialize(heap_size, None),
    ensures
        final(binding)@ == old(binding)@.initialized(heap_size, None),
        final(binding)@ == step(old(binding)@, Event::Initialize { heap_size, layout: None }),
{
    mmtk_init_with_layout(binding, heap_size, None)
}

/// Records that the collector's threads are started, which happens once,
/// after initialisation.
pub fn mmtk_initialize_collection(binding: &mut Binding)
    requires
        old(binding)@.phase == Phase::Initialized,
        !old(binding)@.collection_initialized,
    ensures
        final(binding)@ == old(binding)@.collection_started(),
        final(binding)@ == step(old(binding)@, Event::StartCollection),
        final(binding).options() == old(binding).options(),
{
    proof {
        use_type_invariant(&binding.progress);
    }
    binding.progress.collection_initialized = true;
}

/// Switches automatic collection on. The answer says whether that changed
/// anything.
pub fn mmtk_enable_collection(binding: &mut Binding) -> (changed: bool)
    requires
        old(binding)@.phase == Phase::Initialized,
    ensures
        changed == !old(binding)@.collection_enabled,
        final(binding)@ == old(binding)@.collection_switched(true),
        final(binding)@ == step(old(binding)@, Event::SwitchCollection { on: true }),
        final(binding).options() == old(binding).options(),
{
    proof {
        use_type_invariant(&binding.progress);
    }
    let changed = !binding.progress.collection_enabled;
    binding.progress.collection_enabled = true;
    changed
}

/// Switches automatic collection off. The answer says whether that changed
/// anything.
pub fn mmtk_disable_collection(binding: &mut Binding) -> (changed: bool)
    requires
        old(binding)@.phase == Phase::Initialized,
    ensures
        changed == old(binding)@.collection_enabled,
        final(binding)@ == old(binding)@.collection_switched(false),
        final(binding)@ == step(old(binding)@, Event::SwitchCollection { on: false }),
        final(binding).options() == old(binding).options(),
{
    proof {
        use_type_invariant(&binding.progress);
    }
    let changed = binding.progress.collection_enabled;
    binding.progress.collection_enabled = false;
    changed
}

/// The lowest address of the heap: the start of the layout that the runtime
/// chose, or else of the one that the memory manager uses where none is
/// chosen. It lies on a chunk boundary, below the end of the heap.
pub fn mmtk_starting_heap_address(binding: &Binding) -> (start: usize)
    ensures
        start == binding@.heap_layout().heap_start,
        start < binding@.heap_layout().heap_end,
        start % BYTES_IN_CHUNK == 0,
{
    binding.heap_layout().heap_start
}

/// The address at which the heap ends: the end of the layout that the
/// runtime chose, or else of the one that the memory manager uses where none
/// is chosen. It lies on a chunk boundary, above the start of the heap.
pub fn mmtk_last_heap_address(binding: &Binding) -> (end: usize)
    ensures
        end == binding@.heap_layout().heap_end,
        end > binding@.heap_layout().heap_start,
        end % BYTES_IN_CHUNK == 0,
{
    binding.heap_layout().heap_end
}

} // verus!
