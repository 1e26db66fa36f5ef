//! Interrupt dispatch: which handler each vector is bound to, and what
//! servicing each event amounts to.
//!
//! The two chained interrupt controllers are remapped past the CPU exception
//! vectors: the primary to vectors 32 to 39, the secondary to 40 to 47. A
//! hardware interrupt must be acknowledged once, on its own vector, when it
//! has been serviced, or its line stays masked.

use vstd::prelude::*;

use crate::exceptions::{fault_action, spec_fault_action, FaultAction, FaultKind};
use crate::gdt::DOUBLE_FAULT_IST_INDEX;
use crate::keyboard::{decoder_state, spec_decode, start_state, DecoderState, KeyboardDecoder, Output};
use crate::test::TestMode;

verus! {

/// First vector of the primary interrupt controller.
pub const PIC_1_OFFSET: u8 = 32;

/// First vector of the secondary interrupt controller.
pub const PIC_2_OFFSET: u8 = PIC_1_OFFSET + 8;

/// Number of vectors the CPU reserves for its exceptions.
pub const EXCEPTION_VECTORS: u8 = 32;

/// Number of entries of the vector table.
pub const VECTOR_COUNT: usize = 256;

/// Vector of the breakpoint exception.
pub const BREAKPOINT_VECTOR: u8 = 3;

/// Vector of the double-fault exception.
pub const DOUBLE_FAULT_VECTOR: u8 = 8;

/// Vector of the page-fault exception.
pub const PAGE_FAULT_VECTOR: u8 = 14;

/// The hardware interrupt lines that have handlers, on the primary
/// controller.
#[derive(Clone, Copy, Debug, PartialEq, Eq, Structural)]
pub enum InterruptIndex {
    Timer,
    Keyboard,
}

impl InterruptIndex {
    /// The vector this line is delivered on.
    pub open spec fn spec_vector(self) -> u8 {
        match self {
            InterruptIndex::Timer => PIC_1_OFFSET,
            InterruptIndex::Keyboard => (PIC_1_OFFSET + 1) as u8,
        }
    }

    /// The vector this line is delivered on.
    pub fn as_u8(&self) -> (r: u8)
        ensures
            r == self.spec_vector(),
    {
        match self {
            InterruptIndex::Timer => PIC_1_OFFSET,
            InterruptIndex::Keyboard => PIC_1_OFFSET + 1,
        }
    }
}

/// The controllers' vectors follow one another and lie past the exception
/// vectors; each line used here is one of the primary controller's.
pub proof fn lemma_controller_layout(index: InterruptIndex)
    ensures
        PIC_2_OFFSET == PIC_1_OFFSET + 8,
        PIC_1_OFFSET >= EXCEPTION_VECTORS,
        PIC_1_OFFSET <= index.spec_vector() < PIC_2_OFFSET,
{
}

/// The handlers a vector can be bound to.
#[derive(Clone, Copy, Debug, PartialEq, Eq, Structural)]
pub enum Handler {
    Breakpoint,
    DoubleFault,
    PageFault,
    Timer,
    Keyboard,
}

/// A vector's entry: its handler, and the interrupt-stack-table slot to
/// switch to before running it (`None`: stay on the current stack).
#[derive(Clone, Copy, Debug, PartialEq, Eq, Structural)]
pub struct Binding {
    pub handler: Handler,
    pub stack_index: Option<u16>,
}

/// The binding of a vector: the breakpoint, double-fault and page-fault
/// exceptions and the timer and keyboard lines have handlers, and only the
/// double fault switches stacks.
pub open spec fn spec_binding(vector: int, alternate_stack_index: u16) -> Option<Binding> {
    if vector == BREAKPOINT_VECTOR {
        Some(Binding { handler: Handler::Breakpoint, stack_index: None })
    } else if vector == DOUBLE_FAULT_VECTOR {
        Some(Binding { handler: Handler::DoubleFault, stack_index: Some(alternate_stack_index) })
    } else if vector == PAGE_FAULT_VECTOR {
        Some(Binding { handler: Handler::PageFault, stack_index: None })
    } else if vector == InterruptIndex::Timer.spec_vector() {
        Some(Binding { handler: Handler::Timer, stack_index: None })
    } else if vector == InterruptIndex::Keyboard.spec_vector() {
        Some(Binding { handler: Handler::Keyboard, stack_index: None })
    } else {
        None
    }
}

/// The binding of a vector.
fn binding_for(vector: usize, alternate_stack_index: u16) -> (r: Option<Binding>)
    ensures
        r == spec_binding(vector as int, alternate_stack_index),
{
    if vector == BREAKPOINT_VECTOR as usize {
        Some(Binding { handler: Handler::Breakpoint, stack_index: None })
    } else if vector == DOUBLE_FAULT_VECTOR as usize {
        Some(Binding { handler: Handler::DoubleFault, stack_index: Some(alternate_stack_index) })
    } else if vector == PAGE_FAULT_VECTOR as usize {
        Some(Binding { handler: Handler::PageFault, stack_index: None })
    } else if vector == InterruptIndex::Timer.as_u8() as usize {
        Some(Binding { handler: Handler::Timer, stack_index: None })
    } else if vector == InterruptIndex::Keyboard.as_u8() as usize {
        Some(Binding { handler: Handler::Keyboard, stack_index: None })
    } else {
        None
    }
}

/// One entry per vector: the table the CPU consults on every exception and
/// interrupt. Built once at start-up and never changed.
pub struct VectorTable {
    entries: Vec<Option<Binding>>,
}

impl View for VectorTable {
    type V = Seq<Option<Binding>>;

    closed spec fn view(&self) -> Seq<Option<Binding>> {
        self.entries@
    }
}

impl VectorTable {
    /// The table with every vector bound as [`spec_binding`] says, the
    /// double fault to the given interrupt-stack-table slot.
    pub fn build(alternate_stack_index: u16) -> (r: VectorTable)
        ensures
            r@ == Seq::new(VECTOR_COUNT as nat, |v: int| spec_binding(v, alternate_stack_index)),
    {
        let mut entries: Vec<Option<Binding>> = Vec::new();
        let mut vector: usize = 0;
        while vector < VECTOR_COUNT
            invariant
                vector <= VECTOR_COUNT,
                entries@ == Seq::new(vector as nat, |v: int| spec_binding(v, alternate_stack_index)),
            decreases VECTOR_COUNT - vector,
        {
            entries.push(binding_for(vector, alternate_stack_index));
            vector = vector + 1;
            assert(entries@ =~= Seq::new(vector as nat, |v: int| spec_binding(v, alternate_stack_index)));
        }
        VectorTable { entries }
    }

    /// The table of this kernel: the double fault runs on the stack in
    /// slot [`DOUBLE_FAULT_IST_INDEX`].
    pub fn kernel() -> (r: VectorTable)
        ensures
            r@ == Seq::new(VECTOR_COUNT as nat, |v: int| spec_binding(v, DOUBLE_FAULT_IST_INDEX)),
    {
        VectorTable::build(DOUBLE_FAULT_IST_INDEX)
    }

    /// The entry of a vector.
    pub fn entry(&self, vector: u8) -> (r: Option<Binding>)
        requires
            self@.len() == VECTOR_COUNT,
        ensures
            r == self@[vector as int],
    {
        self.entries[vector as usize]
    }
}

/// The double fault is bound to the alternate stack, and it is the only
/// vector that switches stacks: a double fault caused by an exhausted stack
/// never runs on that stack.
pub proof fn lemma_double_fault_on_alternate_stack(alternate_stack_index: u16)
    ensures
        spec_binding(DOUBLE_FAULT_VECTOR as int, alternate_stack_index) == Some(
            Binding { handler: Handler::DoubleFault, stack_index: Some(alternate_stack_index) },
        ),
        forall|v: int|
            #![trigger spec_binding(v, alternate_stack_index)]
            0 <= v < VECTOR_COUNT && v != DOUBLE_FAULT_VECTOR ==> match spec_binding(
                v,
                alternate_stack_index,
            ) {
                Some(b) => b.stack_index is None && b.handler != Handler::DoubleFault,
                None => true,
            },
{
}

/// What the CPU delivers to a handler.
#[derive(Clone, Copy, Debug, PartialEq, Eq, Structural)]
pub enum Event {
    /// The breakpoint exception.
    Breakpoint,
    /// A page fault.
    PageFault,
    /// A double fault.
    DoubleFault,
    /// A tick of the programmable interval timer.
    Timer,
    /// A key event, with the scancode read from the PS/2 data port.
    Keyboard(u8),
}

/// The fault kind of an exception event; `None` for a hardware interrupt.
pub open spec fn spec_fault_kind(event: Event) -> Option<FaultKind> {
    match event {
        Event::Breakpoint => Some(FaultKind::Breakpoint),
        Event::PageFault => Some(FaultKind::PageFault),
        Event::DoubleFault => Some(FaultKind::DoubleFault),
        _ => None,
    }
}

/// The line of a hardware interrupt event; `None` for an exception.
pub open spec fn spec_interrupt_line(event: Event) -> Option<InterruptIndex> {
    match event {
        Event::Timer => Some(InterruptIndex::Timer),
        Event::Keyboard(_) => Some(InterruptIndex::Keyboard),
        _ => None,
    }
}

/// The vector to acknowledge after servicing an event: that of its line for
/// a hardware interrupt, none for an exception.
pub open spec fn spec_end_of_interrupt(event: Event) -> Option<u8> {
    match spec_interrupt_line(event) {
        Some(line) => Some(line.spec_vector()),
        None => None,
    }
}

/// How servicing an event ends: an exception as its fault kind says, a
/// hardware interrupt by resuming.
pub open spec fn spec_event_action(event: Event, is_test: bool) -> FaultAction {
    match spec_fault_kind(event) {
        Some(kind) => spec_fault_action(kind, is_test),
        None => FaultAction::Resume,
    }
}

/// The outcome of servicing one event, for the caller to carry out in
/// order: print the output, acknowledge the vector, then take the action.
#[derive(Clone, Copy, Debug)]
pub struct Response {
    /// What to print on the console.
    pub output: Option<Output>,
    /// The vector to acknowledge to the interrupt controllers.
    pub end_of_interrupt: Option<u8>,
    /// How the handler ends.
    pub action: FaultAction,
}

/// The state the handlers share: the run's mode, the keyboard decoder, and
/// the mark printed on each timer tick, if any.
pub struct Kernel {
    mode: TestMode,
    keyboard: KeyboardDecoder,
    tick_mark: Option<char>,
}

impl Kernel {
    /// Whether this is a test run.
    pub closed spec fn spec_is_test(&self) -> bool {
        self.mode.spec_enabled()
    }

    /// What the keyboard decoder remembers.
    pub closed spec fn spec_decoder_state(&self) -> DecoderState {
        decoder_state(self.keyboard)
    }

    /// The mark printed on each timer tick.
    pub closed spec fn spec_tick_mark(&self) -> Option<char> {
        self.tick_mark
    }

    /// The handlers' state for a run, its mode chosen once here.
    pub fn new(is_test: bool, tick_mark: Option<char>) -> (r: Kernel)
        ensures
            r.spec_is_test() == is_test,
            r.spec_tick_mark() == tick_mark,
            r.spec_decoder_state() == start_state(false),
    {
        Kernel { mode: TestMode::new(is_test), keyboard: KeyboardDecoder::new(), tick_mark }
    }

    /// Whether this is a test run.
    pub fn is_test_mode(&self) -> (r: bool)
        ensures
            r == self.spec_is_test(),
    {
        self.mode.is_enabled()
    }

    /// Services one event. An exception prints nothing here (its handler
    /// reports the CPU state itself) and ends as its fault kind says; the
    /// timer prints the tick mark; a key event prints the decoded key, if
    /// any (none for a release or a prefix byte, `0x80` or more). Every
    /// hardware interrupt, and nothing else, is acknowledged,
    /// once, on its own vector, whatever the decoder made of the scancode.
    pub fn dispatch(&mut self, event: Event) -> (r: Response)
        ensures
            final(self).spec_is_test() == old(self).spec_is_test(),
            final(self).spec_tick_mark() == old(self).spec_tick_mark(),
            r.end_of_interrupt == spec_end_of_interrupt(event),
            r.action == spec_event_action(event, old(self).spec_is_test()),
            spec_fault_kind(event) is Some ==> r.output is None,
            event == Event::Timer ==> r.output == match old(self).spec_tick_mark() {
                Some(c) => Some(Output::Char(c)),
                None => None::<Output>,
            },
            event matches Event::Keyboard(scancode) ==> (final(self).spec_decoder_state(), r.output)
                == spec_decode(old(self).spec_decoder_state(), scancode),
            event matches Event::Keyboard(scancode) && scancode >= 0x80 ==> r.output is None,
            !(event is Keyboard) ==> final(self).spec_decoder_state() == old(self).spec_decoder_state(),
    {
        let is_test = self.mode.is_enabled();
        match event {
            Event::Breakpoint => Response {
                output: None,
                end_of_interrupt: None,
                action: fault_action(FaultKind::Breakpoint, is_test),
            },
            Event::PageFault => Response {
                output: None,
                end_of_interrupt: None,
                action: fault_action(FaultKind::PageFault, is_test),
            },
            Event::DoubleFault => Response {
                output: None,
                end_of_interrupt: None,
                action: fault_action(FaultKind::DoubleFault, is_test),
            },
            Event::Timer => {
                let output = match self.tick_mark {
                    Some(c) => Some(Output::Char(c)),
                    None => None,
                };
                Response {
                    output,
                    end_of_interrupt: Some(InterruptIndex::Timer.as_u8()),
                    action: FaultAction::Resume,
                }
            },
            Event::Keyboard(scancode) => {
                let output = self.keyboard.decode(scancode);
                Response {
                    output,
                    end_of_interrupt: Some(InterruptIndex::Keyboard.as_u8()),
                    action: FaultAction::Resume,
                }
            },
        }
    }
}

/// Every hardware interrupt is acknowledged exactly once, on the vector of
/// its own line, which belongs to the primary controller; an exception is
/// never acknowledged to the controllers.
pub proof fn lemma_interrupts_acknowledged_once(event: Event)
    ensures
        spec_end_of_interrupt(event) is Some <==> spec_interrupt_line(event) is Some,
        spec_interrupt_line(event) is Some ==> spec_end_of_interrupt(event) == Some(
            spec_interrupt_line(event)->Some_0.spec_vector(),
        ),
        spec_end_of_interrupt(event) matches Some(v) ==> PIC_1_OFFSET <= v < PIC_2_OFFSET,
        spec_fault_kind(event) is Some ==> spec_end_of_interrupt(event) is None,
{
}

} // verus!
