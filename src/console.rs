use vstd::prelude::*;
use crate::layout::{
    align_up, c_layout, describes, field_offset, fields_end, lemma_end_step, lemma_words_after, natural,
    placed_at, push_natural, push_words, struct_align, word, FieldShape, StructLayout,
};
use crate::status::{EFIStatus, INVALID_PARAMETER_VALUE, SUCCESS_VALUE};

verus! {

/// An event that the firmware created; only its address is held.
#[derive(Clone, Copy, Debug, PartialEq, Eq, Structural)]
pub struct EFIEvent {
    pub address: usize,
}

/// A handle that the firmware assigned; only its address is held.
#[derive(Clone, Copy, Debug, PartialEq, Eq, Structural)]
pub struct EFIHandle {
    pub address: usize,
}

/// One keystroke as the input interface reports it.
#[derive(Clone, Copy, Debug, PartialEq, Eq, Structural)]
pub struct EFIInputKey {
    pub scan_code: u16,
    pub unicode_char: u16,
}

/// The firmware's snapshot of an output device's mode.
#[derive(Clone, Copy, Debug, PartialEq, Eq, Structural)]
pub struct EFISimpleTextOutputMode {
    /// Number of modes that `query_mode` and `set_mode` accept.
    pub max_mode: i32,
    /// The active text mode.
    pub mode: i32,
    /// The current character attribute.
    pub attribute: i32,
    pub cursor_column: i32,
    pub cursor_row: i32,
    pub cursor_visible: bool,
}

/// A console input interface, known by the address of its function table.
#[derive(Clone, Copy, Debug, PartialEq, Eq, Structural)]
pub struct EFISimpleTextInputProtocol {
    pub address: usize,
}

/// A console output interface, known by the address of its function table.
#[derive(Clone, Copy, Debug, PartialEq, Eq, Structural)]
pub struct EFISimpleTextOutputProtocol {
    pub address: usize,
}

/// A call to be made through an input interface's table; `this` is the
/// address of the table whose entry is called.
#[derive(Debug, PartialEq, Eq)]
pub enum TextInputCall {
    Reset { this: usize, extended_verification: bool },
    ReadKeyStroke { this: usize },
    WaitForKey { this: usize, events: Vec<EFIEvent> },
}

/// A call to be made through an output interface's table; each one passes
/// `this`, the table's own address, as its first argument.
#[derive(Debug, PartialEq, Eq)]
pub enum TextOutputCall<'a> {
    Reset { this: usize, extended_verification: bool },
    OutputString { this: usize, text: &'a [u16] },
    TestString { this: usize, text: &'a [u16] },
    QueryMode { this: usize, mode_number: usize },
    SetMode { this: usize, mode_number: usize },
    SetAttribute { this: usize, attribute: usize },
    ClearScreen { this: usize },
    SetCursorPosition { this: usize, column: usize, row: usize },
    EnableCursor { this: usize, visible: bool },
}

/// A sequence of 16-bit code units that ends with its terminator.
pub open spec fn is_terminated(s: Seq<u16>) -> bool {
    s.len() > 0 && s.last() == 0
}

impl TextInputCall {
    pub open spec fn spec_target(&self) -> usize {
        match self {
            TextInputCall::Reset { this, .. } => *this,
            TextInputCall::ReadKeyStroke { this } => *this,
            TextInputCall::WaitForKey { this, .. } => *this,
        }
    }

    /// The address of the interface that the call goes through.
    pub fn target(&self) -> (r: usize)
        ensures
            r == self.spec_target(),
    {
        match self {
            TextInputCall::Reset { this, .. } => *this,
            TextInputCall::ReadKeyStroke { this } => *this,
            TextInputCall::WaitForKey { this, .. } => *this,
        }
    }
}

impl<'a> TextOutputCall<'a> {
    pub open spec fn spec_target(&self) -> usize {
        match self {
            TextOutputCall::Reset { this, .. } => *this,
            TextOutputCall::OutputString { this, .. } => *this,
            TextOutputCall::TestString { this, .. } => *this,
            TextOutputCall::QueryMode { this, .. } => *this,
            TextOutputCall::SetMode { this, .. } => *this,
            TextOutputCall::SetAttribute { this, .. } => *this,
            TextOutputCall::ClearScreen { this } => *this,
            TextOutputCall::SetCursorPosition { this, .. } => *this,
            TextOutputCall::EnableCursor { this, .. } => *this,
        }
    }

    /// The address passed as the call's first argument.
    pub fn target(&self) -> (r: usize)
        ensures
            r == self.spec_target(),
    {
        match self {
            TextOutputCall::Reset { this, .. } => *this,
            TextOutputCall::OutputString { this, .. } => *this,
            TextOutputCall::TestString { this, .. } => *this,
            TextOutputCall::QueryMode { this, .. } => *this,
            TextOutputCall::SetMode { this, .. } => *this,
            TextOutputCall::SetAttribute { this, .. } => *this,
            TextOutputCall::ClearScreen { this } => *this,
            TextOutputCall::SetCursorPosition { this, .. } => *this,
            TextOutputCall::EnableCursor { this, .. } => *this,
        }
    }
}

impl EFISimpleTextOutputProtocol {
    /// Resets the output device; with `extended_verification` the device may
    /// also run its self-tests.
    pub fn reset(&self, extended_verification: bool) -> (r: TextOutputCall<'static>)
        ensures
            r == (TextOutputCall::Reset { this: self.address, extended_verification }),
    {
        TextOutputCall::Reset { this: self.address, extended_verification }
    }

    /// Writes the terminated string `text` at the cursor.
    pub fn output_string<'a>(&self, text: &'a [u16]) -> (r: TextOutputCall<'a>)
        requires
            is_terminated(text@),
        ensures
            r == (TextOutputCall::OutputString { this: self.address, text }),
    {
        TextOutputCall::OutputString { this: self.address, text }
    }

    /// Checks that the device can display every unit of `text`, writing
    /// nothing.
    pub fn test_string<'a>(&self, text: &'a [u16]) -> (r: TextOutputCall<'a>)
        requires
            is_terminated(text@),
        ensures
            r == (TextOutputCall::TestString { this: self.address, text }),
    {
        TextOutputCall::TestString { this: self.address, text }
    }

    /// Asks for the columns and rows of mode `mode_number`.
    pub fn query_mode(&self, mode_number: usize) -> (r: TextOutputCall<'static>)
        ensures
            r == (TextOutputCall::QueryMode { this: self.address, mode_number }),
    {
        TextOutputCall::QueryMode { this: self.address, mode_number }
    }

    /// Switches to mode `mode_number`.
    pub fn set_mode(&self, mode_number: usize) -> (r: TextOutputCall<'static>)
        ensures
            r == (TextOutputCall::SetMode { this: self.address, mode_number }),
    {
        TextOutputCall::SetMode { this: self.address, mode_number }
    }

    /// Sets the colours of later writes and clears.
    pub fn set_attribute(&self, attribute: usize) -> (r: TextOutputCall<'static>)
        ensures
            r == (TextOutputCall::SetAttribute { this: self.address, attribute }),
    {
        TextOutputCall::SetAttribute { this: self.address, attribute }
    }

    /// Fills the display with the background colour.
    pub fn clear_screen(&self) -> (r: TextOutputCall<'static>)
        ensures
            r == (TextOutputCall::ClearScreen { this: self.address }),
    {
        TextOutputCall::ClearScreen { this: self.address }
    }

    /// Moves the cursor.
    pub fn set_cursor_position(&self, column: usize, row: usize) -> (r: TextOutputCall<'static>)
        ensures
            r == (TextOutputCall::SetCursorPosition { this: self.address, column, row }),
    {
        TextOutputCall::SetCursorPosition { this: self.address, column, row }
    }

    /// Shows or hides the cursor.
    pub fn enable_cursor(&self, visible: bool) -> (r: TextOutputCall<'static>)
        ensures
            r == (TextOutputCall::EnableCursor { this: self.address, visible }),
    {
        TextOutputCall::EnableCursor { this: self.address, visible }
    }
}

impl EFISimpleTextInputProtocol {
    /// Resets the input device.
    pub fn reset(&self, extended_verification: bool) -> (r: TextInputCall)
        ensures
            r == (TextInputCall::Reset { this: self.address, extended_verification }),
    {
        TextInputCall::Reset { this: self.address, extended_verification }
    }

    /// Reads the next keystroke without waiting.
    pub fn read_key_stroke(&self) -> (r: TextInputCall)
        ensures
            r == (TextInputCall::ReadKeyStroke { this: self.address }),
    {
        TextInputCall::ReadKeyStroke { this: self.address }
    }

    /// Waits until one of `events` is signalled.
    pub fn wait_for_key(&self, events: Vec<EFIEvent>) -> (r: TextInputCall)
        ensures
            r == (TextInputCall::WaitForKey { this: self.address, events }),
    {
        TextInputCall::WaitForKey { this: self.address, events }
    }
}

/// The keystroke that a read reported. The firmware fills the key only on
/// success; after any other status (no keystroke queued, a device error) its
/// contents are undefined and no key is given.
pub fn key_from_read(status: EFIStatus, key: EFIInputKey) -> (r: Option<EFIInputKey>)
    ensures
        status.spec_is_success() ==> r == Some(key),
        !status.spec_is_success() ==> r.is_none(),
{
    if status.is_success() {
        Some(key)
    } else {
        None
    }
}

/// The columns and rows that a mode query reported, given only when the query
/// succeeded.
pub fn geometry_from_query(status: EFIStatus, columns: usize, rows: usize) -> (r: Option<
    (usize, usize),
>)
    ensures
        status.spec_is_success() ==> r == Some((columns, rows)),
        !status.spec_is_success() ==> r.is_none(),
{
    if status.is_success() {
        Some((columns, rows))
    } else {
        None
    }
}

/// Where a wait on a list of events stands after one look at which of them
/// are signalled.
#[derive(Clone, Copy, Debug, PartialEq, Eq, Structural)]
pub enum WaitPoll {
    /// None is signalled yet: the caller stays suspended.
    Blocked,
    /// The wait is over: the event at `index` was signalled.
    Signalled { status: EFIStatus, index: usize },
    /// The wait was refused at once; no index is given.
    Failed { status: EFIStatus },
}

/// `i` is the first signalled event.
pub open spec fn first_signalled(s: Seq<bool>, i: int) -> bool {
    0 <= i < s.len() && s[i] && forall|j: int| 0 <= j < i ==> !s[j]
}

/// Decides a wait on events whose signalled flags are `signalled`: an empty
/// list fails at once with an invalid-parameter status; otherwise the wait
/// ends at the first signalled event, or stays blocked while none is.
pub fn poll_wait(signalled: &[bool]) -> (r: WaitPoll)
    ensures
        signalled@.len() == 0 ==> r == (WaitPoll::Failed {
            status: EFIStatus { value: INVALID_PARAMETER_VALUE },
        }),
        signalled@.len() > 0 ==> (r == WaitPoll::Blocked <==> forall|j: int|
            0 <= j < signalled@.len() ==> !signalled@[j]),
        signalled@.len() > 0 ==> forall|i: int|
            first_signalled(signalled@, i) ==> r == (WaitPoll::Signalled {
                status: EFIStatus { value: SUCCESS_VALUE },
                index: i as usize,
            }),
        forall|k: int|
            0 <= k < signalled@.len() && signalled@[k] && (forall|j: int|
                0 <= j < signalled@.len() && j != k ==> !signalled@[j]) ==> r == (WaitPoll::Signalled {
                status: EFIStatus { value: SUCCESS_VALUE },
                index: k as usize,
            }),
{
    if signalled.len() == 0 {
        return WaitPoll::Failed { status: EFIStatus::invalid_parameter() };
    }
    let mut i: usize = 0;
    while i < signalled.len()
        invariant
            i <= signalled@.len(),
            forall|j: int| 0 <= j < i ==> !signalled@[j],
        decreases signalled@.len() - i,
    {
        if signalled[i] {
            assert(first_signalled(signalled@, i as int));
            return WaitPoll::Signalled { status: EFIStatus::success(), index: i };
        }
        i = i + 1;
    }
    WaitPoll::Blocked
}


/// Fields of a keystroke: two 16-bit units.
pub open spec fn input_key_shapes() -> Seq<FieldShape> {
    seq![natural(2), natural(2)]
}

/// Fields of the output mode: five 32-bit integers and a flag.
pub open spec fn output_mode_shapes() -> Seq<FieldShape> {
    seq![natural(4), natural(4), natural(4), natural(4), natural(4), natural(1)]
}

/// `n` function addresses in a row.
pub open spec fn function_table_shapes(n: nat) -> Seq<FieldShape> {
    Seq::new(n, |i: int| word())
}

impl EFIInputKey {
    /// Size and alignment of each field.
    pub fn field_shapes() -> (r: Vec<FieldShape>)
        ensures
            r@ == input_key_shapes(),
    {
        let mut r: Vec<FieldShape> = Vec::new();
        push_natural(&mut r, 2);
        push_natural(&mut r, 2);
        assert(r@ =~= input_key_shapes());
        r
    }

    /// Where C places each field.
    pub fn layout() -> (r: StructLayout)
        ensures
            describes(r, input_key_shapes()),
    {
        c_layout(&Self::field_shapes())
    }
}

impl EFISimpleTextOutputMode {
    /// Size and alignment of each field.
    pub fn field_shapes() -> (r: Vec<FieldShape>)
        ensures
            r@ == output_mode_shapes(),
    {
        let mut r: Vec<FieldShape> = Vec::new();
        push_natural(&mut r, 4);
        push_natural(&mut r, 4);
        push_natural(&mut r, 4);
        push_natural(&mut r, 4);
        push_natural(&mut r, 4);
        push_natural(&mut r, 1);
        assert(r@ =~= output_mode_shapes());
        r
    }

    /// Where C places each field.
    pub fn layout() -> (r: StructLayout)
        ensures
            describes(r, output_mode_shapes()),
    {
        c_layout(&Self::field_shapes())
    }
}

impl EFISimpleTextInputProtocol {
    /// Size and alignment of each entry of the function table.
    pub fn field_shapes() -> (r: Vec<FieldShape>)
        ensures
            r@ == function_table_shapes(3),
    {
        let mut r: Vec<FieldShape> = Vec::new();
        push_words(&mut r, 3);
        assert(r@ =~= function_table_shapes(3));
        r
    }

    /// Where C places each entry.
    pub fn layout() -> (r: StructLayout)
        ensures
            describes(r, function_table_shapes(3)),
    {
        c_layout(&Self::field_shapes())
    }
}

impl EFISimpleTextOutputProtocol {
    /// Size and alignment of each entry of the function table: nine
    /// functions, then the address of the mode.
    pub fn field_shapes() -> (r: Vec<FieldShape>)
        ensures
            r@ == function_table_shapes(10),
    {
        let mut r: Vec<FieldShape> = Vec::new();
        push_words(&mut r, 10);
        assert(r@ =~= function_table_shapes(10));
        r
    }

    /// Where C places each entry.
    pub fn layout() -> (r: StructLayout)
        ensures
            describes(r, function_table_shapes(10)),
    {
        c_layout(&Self::field_shapes())
    }
}

/// A keystroke takes four bytes: the scan code at 0, the character at 2.
pub proof fn lemma_input_key_layout()
    ensures
        placed_at(input_key_shapes(), seq![0, 2], 4),
{
    let f = input_key_shapes();
    assert(f.take(0) =~= Seq::<FieldShape>::empty());
    assert(fields_end(f.take(0)) == 0);
    lemma_end_step(f, 0);
    assert(fields_end(f.take(1)) == 2);
    lemma_end_step(f, 1);
    assert(fields_end(f.take(2)) == 4);
    assert(f.take(2) =~= f);
}

/// The output mode takes 24 bytes: its integers every four bytes from 0, the
/// flag at 20, then padding to a multiple of four.
pub proof fn lemma_output_mode_layout()
    ensures
        placed_at(output_mode_shapes(), seq![0, 4, 8, 12, 16, 20], 24),
{
    let f = output_mode_shapes();
    assert(4int % 4 == 0 && 8int % 4 == 0 && 12int % 4 == 0 && 16int % 4 == 0 && 20int % 1 == 0)
        by (nonlinear_arith);
    assert(f.take(0) =~= Seq::<FieldShape>::empty());
    assert(fields_end(f.take(0)) == 0);
    lemma_end_step(f, 0);
    assert(fields_end(f.take(1)) == 4);
    lemma_end_step(f, 1);
    assert(fields_end(f.take(2)) == 8);
    lemma_end_step(f, 2);
    assert(fields_end(f.take(3)) == 12);
    lemma_end_step(f, 3);
    assert(fields_end(f.take(4)) == 16);
    lemma_end_step(f, 4);
    assert(fields_end(f.take(5)) == 20);
    lemma_end_step(f, 5);
    assert(fields_end(f.take(6)) == 21);
    assert(f.take(6) =~= f);
    assert(struct_align(f) == 4);
    assert(21int % 4 == 1) by (nonlinear_arith);
    assert(align_up(21, 4) == 24);
}

/// A table of `n` function addresses takes `8 * n` bytes, entry `i` at `8 * i`.
pub proof fn lemma_function_table_layout(n: nat)
    ensures
        placed_at(function_table_shapes(n), Seq::new(n, |i: int| 8 * i), (8 * n) as int),
{
    let f = function_table_shapes(n);
    assert(f.take(0) =~= Seq::<FieldShape>::empty());
    assert forall|k: int| 0 <= k <= n implies fields_end(f.take(k)) == 8 * k && (k > 0
        ==> struct_align(f.take(k)) == 8) by {
        lemma_words_after(f, 0, k);
    }
    assert forall|i: int| 0 <= i < n implies #[trigger] field_offset(f, i) == 8 * i by {
        assert((8 * i) % 8 == 0) by (nonlinear_arith);
    }
    assert(f.take(n as int) =~= f);
    assert((8 * n) % 8 == 0) by (nonlinear_arith);
}

/// The input interface's table takes 24 bytes and the output interface's 80,
/// an address every eight bytes.
pub proof fn lemma_protocol_layouts()
    ensures
        placed_at(function_table_shapes(3), seq![0, 8, 16], 24),
        placed_at(
            function_table_shapes(10),
            seq![0, 8, 16, 24, 32, 40, 48, 56, 64, 72],
            80,
        ),
{
    lemma_function_table_layout(3);
    lemma_function_table_layout(10);
    assert(Seq::new(3, |i: int| 8 * i) =~= seq![0, 8, 16]);
    assert(Seq::new(10, |i: int| 8 * i) =~= seq![0, 8, 16, 24, 32, 40, 48, 56, 64, 72]);
}

} // verus!
