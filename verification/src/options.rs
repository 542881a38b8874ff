//! The settings that the configuration store takes: the options of the
//! memory manager by name, the values that it accepts for them, and what
//! each accepted value stores.
//!
//! For most options the text of the value decides the answer on every
//! machine. Huge pages can be switched on, and threads tied to cores, on
//! Linux only; there the manager decides. The perf events need a build of the
//! manager that this library does not ask for, so they are refused.

use mmtk::util::options::GCTriggerSelector;
use vstd::prelude::*;
use vstd::string::{StrSliceExecFns, StringSliceAdditionalSpecFns};
use vstd::utf8::encode_utf8_decode_utf8;

verus! {

/// Whether two strings hold the same characters.
pub fn str_eq(a: &str, b: &str) -> (same: bool)
    ensures
        same == (a@ == b@),
{
    let left = a.as_bytes();
    let right = b.as_bytes();
    proof {
        encode_utf8_decode_utf8(a@);
        encode_utf8_decode_utf8(b@);
    }
    if left.len() != right.len() {
        return false;
    }
    let mut at: usize = 0;
    while at < left.len()
        invariant
            at <= left.len(),
            left.len() == right.len(),
            left@ == a.spec_bytes(),
            right@ == b.spec_bytes(),
            forall|k: int| 0 <= k < at ==> left@[k] == right@[k],
        decreases left.len() - at,
    {
        if left[at] != right[at] {
            return false;
        }
        at = at + 1;
    }
    assert(left@ =~= right@);
    true
}

/// The options that are switched on or off and take either value.
pub open spec fn is_switch(name: Seq<char>) -> bool {
    ||| name == "use_short_stack_scans"@
    ||| name == "use_return_barrier"@
    ||| name == "eager_complete_sweep"@
    ||| name == "ignore_system_gc"@
    ||| name == "full_heap_system_gc"@
    ||| name == "variable_size_heap"@
    ||| name == "no_finalizer"@
    ||| name == "no_reference_types"@
    ||| name == "precise_stress"@
}

/// The options that hold a number which must not be zero.
pub open spec fn is_count(name: Seq<char>) -> bool {
    name == "threads"@ || name == "vm_space_size"@
}

/// The options that hold any number.
pub open spec fn is_amount(name: Seq<char>) -> bool {
    name == "stress_factor"@ || name == "analysis_factor"@ || name == "vm_space_start"@
}

/// The position of a plan's name in the list of plans.
pub open spec fn plan_index(value: Seq<char>) -> Option<int> {
    if value == "NoGC"@ {
        Some(0)
    } else if value == "SemiSpace"@ {
        Some(1)
    } else if value == "GenCopy"@ {
        Some(2)
    } else if value == "GenImmix"@ {
        Some(3)
    } else if value == "MarkSweep"@ {
        Some(4)
    } else if value == "PageProtect"@ {
        Some(5)
    } else if value == "Immix"@ {
        Some(6)
    } else if value == "MarkCompact"@ {
        Some(7)
    } else if value == "StickyImmix"@ {
        Some(8)
    } else {
        None
    }
}

/// The position of a name in the list of the ways to zero a nursery.
pub open spec fn zeroing_index(value: Seq<char>) -> Option<int> {
    if value == "Temporal"@ {
        Some(0)
    } else if value == "Nontemporal"@ {
        Some(1)
    } else if value == "Concurrent"@ {
        Some(2)
    } else if value == "Adaptive"@ {
        Some(3)
    } else {
        None
    }
}

/// What a switch is set to: 1 for `true`, 0 for `false`.
pub open spec fn switch_value(value: Seq<char>) -> Option<int> {
    if value == "true"@ {
        Some(1)
    } else if value == "false"@ {
        Some(0)
    } else {
        None
    }
}

/// One of the characters `0` to `9`.
pub open spec fn is_digit(c: char) -> bool {
    '0' <= c <= '9'
}

/// A text of one or more digits.
pub open spec fn is_digits(text: Seq<char>) -> bool {
    text.len() > 0 && forall|i: int| 0 <= i < text.len() ==> is_digit(#[trigger] text[i])
}

/// The number that a text of digits writes in base ten.
pub open spec fn digits_value(text: Seq<char>) -> nat
    decreases text.len(),
{
    if text.len() == 0 {
        0
    } else {
        10 * digits_value(text.drop_last()) + ((text.last() as nat) - ('0' as nat)) as nat
    }
}

/// The digits of a number's text: the text without a leading `+`.
pub open spec fn unsigned_part(text: Seq<char>) -> Seq<char> {
    if text.len() > 0 && text[0] == '+' {
        text.subrange(1, text.len() as int)
    } else {
        text
    }
}

/// The number that a text writes, if it writes one that the machine can
/// hold: an optional `+`, then digits and nothing else.
pub open spec fn number(text: Seq<char>) -> Option<nat> {
    let digits = unsigned_part(text);
    if is_digits(digits) && digits_value(digits) <= usize::MAX {
        Some(digits_value(digits))
    } else {
        None
    }
}

/// The smallest upper bound that a bounded nursery can be given: two
/// mebibytes, the lower bound that the memory manager keeps for it.
pub const MIN_NURSERY: usize = 0x20_0000;

/// The place of the first colon in `text` at or after `from`, or the length
/// of `text` if there is none.
pub open spec fn next_colon(text: Seq<char>, from: int) -> int
    decreases text.len() - from,
{
    if from >= text.len() {
        text.len() as int
    } else if text[from] == ':' {
        from
    } else {
        next_colon(text, from + 1)
    }
}

/// What a nursery setting stores: the kind (0 for bounded, 1 for fixed), the
/// lower bound and the upper bound. The text names the kind, then after a
/// colon gives a number, and what follows a second colon is not read. A
/// fixed nursery has that size, which must not be zero; a bounded one has
/// that upper bound, which must not lie below the lower bound.
pub open spec fn nursery_meaning(value: Seq<char>) -> Option<Seq<int>> {
    let first = next_colon(value, 0);
    if first >= value.len() {
        None
    } else {
        let kind = value.subrange(0, first);
        let second = next_colon(value, first + 1);
        match number(value.subrange(first + 1, second)) {
            Some(n) => if kind == "Fixed"@ && n > 0 {
                Some(seq![1, n as int, n as int])
            } else if kind == "Bounded"@ && n >= MIN_NURSERY {
                Some(seq![0, MIN_NURSERY as int, n as int])
            } else {
                None
            },
            None => None,
        }
    }
}

/// When the memory manager collects.
#[derive(Clone, Copy, Debug, PartialEq, Eq, Structural)]
pub enum Trigger {
    /// When a heap of this many bytes is full.
    Fixed(usize),
    /// When a heap that grows and shrinks between these two sizes is full.
    Dynamic(usize, usize),
    /// When the runtime says so.
    Delegated,
}

/// The trigger that the memory manager reads from a text, if it reads one.
pub uninterp spec fn trigger_of(value: Seq<char>) -> Option<Trigger>;

/// Calls `GCTriggerSelector::from_str`, which reads a trigger from a text
/// and fails on a text that writes none. It neither panics nor prints.
#[verifier::external_body]
fn read_trigger(value: &str) -> (trigger: Option<Trigger>)
    ensures
        trigger == trigger_of(value@),
{
    match value.parse::<GCTriggerSelector>() {
        Ok(GCTriggerSelector::FixedHeapSize(size)) => Some(Trigger::Fixed(size)),
        Ok(GCTriggerSelector::DynamicHeapSize(min, max)) => Some(Trigger::Dynamic(min, max)),
        Ok(GCTriggerSelector::Delegated) => Some(Trigger::Delegated),
        Err(_) => None,
    }
}

/// What a trigger stores, if the memory manager accepts it: 0 and the size
/// for a fixed heap, which must not be empty; 1 and the two sizes for a
/// dynamic heap, of which the first must not exceed the second; 2 for a
/// delegated trigger.
pub open spec fn trigger_entry(trigger: Trigger) -> Option<Seq<int>> {
    match trigger {
        Trigger::Fixed(size) => if size > 0 {
            Some(seq![0, size as int])
        } else {
            None
        },
        Trigger::Dynamic(min, max) => if min <= max {
            Some(seq![1, min as int, max as int])
        } else {
            None
        },
        Trigger::Delegated => Some(seq![2]),
    }
}

/// What a trigger setting stores.
pub open spec fn trigger_meaning(value: Seq<char>) -> Option<Seq<int>> {
    match trigger_of(value) {
        Some(trigger) => trigger_entry(trigger),
        None => None,
    }
}

/// What a setting stores where the text alone decides that the memory
/// manager accepts it: 0 or 1 for a switch, the position of the name for the
/// plan and the zeroing, the number for an option that holds one, and for
/// the nursery and the trigger what `nursery_meaning` and `trigger_meaning`
/// say. Huge pages can be switched off on every machine.
pub open spec fn meaning(name: Seq<char>, value: Seq<char>) -> Option<Seq<int>> {
    if is_switch(name) {
        match switch_value(value) {
            Some(v) => Some(seq![v]),
            None => None,
        }
    } else if name == "plan"@ {
        match plan_index(value) {
            Some(v) => Some(seq![v]),
            None => None,
        }
    } else if name == "nursery_zeroing"@ {
        match zeroing_index(value) {
            Some(v) => Some(seq![v]),
            None => None,
        }
    } else if is_count(name) {
        match number(value) {
            Some(n) => if n > 0 {
                Some(seq![n as int])
            } else {
                None
            },
            None => None,
        }
    } else if is_amount(name) {
        match number(value) {
            Some(n) => Some(seq![n as int]),
            None => None,
        }
    } else if name == "nursery"@ {
        nursery_meaning(value)
    } else if name == "gc_trigger"@ {
        trigger_meaning(value)
    } else if name == "transparent_hugepages"@ && value == "false"@ {
        Some(seq![0])
    } else {
        None
    }
}

/// What the memory manager's built-in options store, as far as that is the
/// same on every machine: everything but the number of threads and the
/// trigger.
pub open spec fn built_in(settings: Map<Seq<char>, Seq<int>>) -> bool {
    &&& settings["plan"@] == seq![3int]
    &&& settings["use_short_stack_scans"@] == seq![0int]
    &&& settings["use_return_barrier"@] == seq![0int]
    &&& settings["eager_complete_sweep"@] == seq![0int]
    &&& settings["ignore_system_gc"@] == seq![0int]
    &&& settings["nursery"@] == seq![0int, MIN_NURSERY as int]
    &&& settings["full_heap_system_gc"@] == seq![0int]
    &&& settings["variable_size_heap"@] == seq![1int]
    &&& settings["no_finalizer"@] == seq![0int]
    &&& settings["no_reference_types"@] == seq![1int]
    &&& settings["nursery_zeroing"@] == seq![0int]
    &&& settings["stress_factor"@] == seq![usize::MAX as int]
    &&& settings["analysis_factor"@] == seq![usize::MAX as int]
    &&& settings["precise_stress"@] == seq![1int]
    &&& settings["vm_space_start"@] == seq![0int]
    &&& settings["vm_space_size"@] == seq![0xdc0_0000int]
    &&& settings["work_perf_events"@] == Seq::<int>::empty()
    &&& settings["phase_perf_events"@] == Seq::<int>::empty()
    &&& settings["thread_affinity"@] == Seq::<int>::empty()
    &&& settings["transparent_hugepages"@] == seq![0int]
}

/// How a setting is answered.
#[derive(Clone, Copy, Debug, PartialEq, Eq, Structural)]
pub enum Answer {
    /// The memory manager accepts it on every machine.
    Accepted,
    /// It switches huge pages on, which the memory manager accepts on Linux.
    HugePages,
    /// It ties threads to cores, which the memory manager can do on Linux,
    /// where it accepts the cores that the machine has.
    Affinity,
    /// It is refused on every machine.
    Refused,
}

/// How a setting is answered.
pub open spec fn answer(name: Seq<char>, value: Seq<char>) -> Answer {
    if meaning(name, value) is Some {
        Answer::Accepted
    } else if name == "transparent_hugepages"@ && value == "true"@ {
        Answer::HugePages
    } else if name == "thread_affinity"@ {
        Answer::Affinity
    } else {
        Answer::Refused
    }
}

/// What the setting stores if it is accepted, where the text says so: what
/// it means, and 1 for huge pages switched on.
pub open spec fn stored(name: Seq<char>, value: Seq<char>) -> Option<Seq<int>> {
    match answer(name, value) {
        Answer::Accepted => meaning(name, value),
        Answer::HugePages => Some(seq![1]),
        _ => None,
    }
}

/// Whether the setting is accepted: on every machine where the text says
/// so; on Linux alone for huge pages; for cores on Linux where the memory
/// manager `grants` them.
pub open spec fn accepts(linux: bool, name: Seq<char>, value: Seq<char>, grants: bool) -> bool {
    match answer(name, value) {
        Answer::Accepted => true,
        Answer::HugePages => linux,
        Answer::Affinity => linux && grants,
        Answer::Refused => false,
    }
}

/// The number that a text of digits writes is no smaller than the number
/// that any of its beginnings writes.
proof fn lemma_digits_value_grows(text: Seq<char>, upto: int)
    requires
        0 <= upto <= text.len(),
    ensures
        digits_value(text.subrange(0, upto)) <= digits_value(text),
    decreases text.len(),
{
    if upto == text.len() {
        assert(text.subrange(0, upto) =~= text);
    } else {
        lemma_digits_value_grows(text.drop_last(), upto);
        assert(text.drop_last().subrange(0, upto) =~= text.subrange(0, upto));
    }
}

/// Reads the number that `text` writes.
pub fn parse_number(text: &str) -> (parsed: Option<usize>)
    ensures
        parsed matches Some(n) ==> number(text@) == Some(n as nat),
        parsed is None ==> number(text@) is None,
{
    let len = text.unicode_len();
    if len == 0 {
        return None;
    }
    let first = text.get_char(0);
    let start: usize = if first == '+' {
        1
    } else {
        0
    };
    let ghost digits = unsigned_part(text@);
    assert(digits =~= text@.subrange(start as int, len as int));
    if start == len {
        return None;
    }
    let mut acc: usize = 0;
    let mut at: usize = start;
    while at < len
        invariant
            start <= at <= len,
            len == text@.len(),
            digits == text@.subrange(start as int, len as int),
            digits == unsigned_part(text@),
            forall|i: int| 0 <= i < at - start ==> is_digit(#[trigger] digits[i]),
            acc == digits_value(digits.subrange(0, at - start)),
        decreases len - at,
    {
        let c = text.get_char(at);
        assert(digits[at - start] == c);
        if c < '0' || c > '9' {
            assert(!is_digit(digits[at - start]));
            assert(!is_digits(digits));
            return None;
        }
        let digit: usize = (c as u32 - '0' as u32) as usize;
        proof {
            let longer = digits.subrange(0, at - start + 1);
            assert(longer.drop_last() =~= digits.subrange(0, at - start));
            assert(longer.last() == c);
            assert(digits_value(longer) == 10 * acc + digit);
            lemma_digits_value_grows(digits, at - start + 1);
        }
        if acc > (usize::MAX - digit) / 10 {
            assert(10 * acc + digit > usize::MAX);
            return None;
        }
        acc = 10 * acc + digit;
        at = at + 1;
    }
    assert(digits.subrange(0, at - start) =~= digits);
    Some(acc)
}

/// Whether `name` is one of the switches.
fn names_switch(name: &str) -> (yes: bool)
    ensures
        yes == is_switch(name@),
{
    str_eq(name, "use_short_stack_scans") || str_eq(name, "use_return_barrier") || str_eq(
        name,
        "eager_complete_sweep",
    ) || str_eq(name, "ignore_system_gc") || str_eq(name, "full_heap_system_gc") || str_eq(
        name,
        "variable_size_heap",
    ) || str_eq(name, "no_finalizer") || str_eq(name, "no_reference_types") || str_eq(
        name,
        "precise_stress",
    )
}

/// Whether `value` is the name of a plan.
fn names_plan(value: &str) -> (yes: bool)
    ensures
        yes == plan_index(value@) is Some,
{
    str_eq(value, "NoGC") || str_eq(value, "SemiSpace") || str_eq(value, "GenCopy") || str_eq(
        value,
        "GenImmix",
    ) || str_eq(value, "MarkSweep") || str_eq(value, "PageProtect") || str_eq(value, "Immix")
        || str_eq(value, "MarkCompact") || str_eq(value, "StickyImmix")
}

/// Whether `value` is the name of a way to zero a nursery.
fn names_zeroing(value: &str) -> (yes: bool)
    ensures
        yes == zeroing_index(value@) is Some,
{
    str_eq(value, "Temporal") || str_eq(value, "Nontemporal") || str_eq(value, "Concurrent")
        || str_eq(value, "Adaptive")
}

/// Finds the first colon in `text` at or after `from`.
fn find_colon(text: &str, from: usize, len: usize) -> (at: usize)
    requires
        len == text@.len(),
        from <= len,
    ensures
        at == next_colon(text@, from as int),
        from <= at <= len,
{
    let mut at: usize = from;
    while at < len
        invariant
            from <= at <= len,
            len == text@.len(),
            next_colon(text@, at as int) == next_colon(text@, from as int),
        decreases len - at,
    {
        if text.get_char(at) == ':' {
            return at;
        }
        at = at + 1;
    }
    at
}

/// Whether the memory manager accepts the nursery that `value` describes.
fn nursery_accepted(value: &str) -> (ok: bool)
    ensures
        ok == nursery_meaning(value@) is Some,
{
    let len = value.unicode_len();
    let first = find_colon(value, 0, len);
    if first >= len {
        return false;
    }
    let kind = value.substring_char(0, first);
    let second = find_colon(value, first + 1, len);
    let size = value.substring_char(first + 1, second);
    match parse_number(size) {
        Some(n) => (str_eq(kind, "Fixed") && n > 0) || (str_eq(kind, "Bounded") && n
            >= MIN_NURSERY),
        None => false,
    }
}

/// Whether the memory manager accepts the trigger that `value` describes.
fn trigger_accepted(value: &str) -> (ok: bool)
    ensures
        ok == trigger_meaning(value@) is Some,
{
    match read_trigger(value) {
        Some(Trigger::Fixed(size)) => size > 0,
        Some(Trigger::Dynamic(min, max)) => min <= max,
        Some(Trigger::Delegated) => true,
        None => false,
    }
}

/// Whether the text alone decides that the memory manager accepts the
/// setting.
pub fn is_accepted(name: &str, value: &str) -> (ok: bool)
    ensures
        ok == meaning(name@, value@) is Some,
{
    if names_switch(name) {
        str_eq(value, "true") || str_eq(value, "false")
    } else if str_eq(name, "plan") {
        names_plan(value)
    } else if str_eq(name, "nursery_zeroing") {
        names_zeroing(value)
    } else if str_eq(name, "threads") || str_eq(name, "vm_space_size") {
        match parse_number(value) {
            Some(n) => n > 0,
            None => false,
        }
    } else if str_eq(name, "stress_factor") || str_eq(name, "analysis_factor") || str_eq(
        name,
        "vm_space_start",
    ) {
        parse_number(value).is_some()
    } else if str_eq(name, "nursery") {
        nursery_accepted(value)
    } else if str_eq(name, "gc_trigger") {
        trigger_accepted(value)
    } else {
        str_eq(name, "transparent_hugepages") && str_eq(value, "false")
    }
}

/// How the setting is answered.
pub fn answer_to(name: &str, value: &str) -> (how: Answer)
    ensures
        how == answer(name@, value@),
{
    if is_accepted(name, value) {
        Answer::Accepted
    } else if str_eq(name, "transparent_hugepages") && str_eq(value, "true") {
        Answer::HugePages
    } else if str_eq(name, "thread_affinity") {
        Answer::Affinity
    } else {
        Answer::Refused
    }
}

} // verus!
