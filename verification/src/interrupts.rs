//! The interrupt dispatch subsystem: the remap offsets of the two chained
//! interrupt controllers, the fixed vector numbers, and the 256-entry
//! dispatch table that sends each vector to its handler — built once, loaded
//! once, read-only afterwards. Also the keyboard handler's decoding path,
//! which turns scan-code bytes into console output.

use vstd::prelude::*;
use crate::gdt::DOUBLE_FAULT_IST_INDEX;
use crate::vga_buffer::{
    spec_write_bytes, Writer, NEWLINE, PLACEHOLDER,
};

verus! {

/// First vector of the primary interrupt controller after remapping.
pub const PIC_1_OFFSET: u8 = 32;

/// First vector of the secondary interrupt controller after remapping.
pub const PIC_2_OFFSET: u8 = PIC_1_OFFSET + 8;

/// Number of lines each of the two chained controllers serves.
pub const PIC_LINES: u8 = 8;

/// Vector of the breakpoint exception.
pub const BREAKPOINT_VECTOR: u8 = 3;

/// Vector of the double-fault exception.
pub const DOUBLE_FAULT_VECTOR: u8 = 8;

/// Vector of the page-fault exception.
pub const PAGE_FAULT_VECTOR: u8 = 14;

/// Number of entries of the dispatch table.
pub const VECTOR_COUNT: usize = 256;

/// The hardware interrupt lines the kernel serves, by remapped vector.
#[derive(Debug, Clone, Copy, PartialEq, Eq, Structural)]
pub enum InterruptIndex {
    Timer,
    Keyboard,
}

impl InterruptIndex {
    /// The vector this line arrives at: the timer on the primary
    /// controller's first line, the keyboard on its second.
    pub open spec fn spec_vector(self) -> u8 {
        match self {
            InterruptIndex::Timer => PIC_1_OFFSET,
            InterruptIndex::Keyboard => (PIC_1_OFFSET + 1) as u8,
        }
    }

    /// The vector as a byte.
    pub fn as_u8(self) -> (r: u8)
        ensures
            r == self.spec_vector(),
    {
        match self {
            InterruptIndex::Timer => PIC_1_OFFSET,
            InterruptIndex::Keyboard => PIC_1_OFFSET + 1,
        }
    }

    /// The vector as a table index.
    pub fn as_usize(self) -> (r: usize)
        ensures
            r == self.spec_vector(),
    {
        self.as_u8() as usize
    }
}

/// The two chained interrupt controllers.
#[derive(Debug, Clone, Copy, PartialEq, Eq, Structural)]
pub enum ControllerId {
    Primary,
    Secondary,
}

/// Which controller serves a vector: the primary the eight vectors from
/// `PIC_1_OFFSET`, the secondary the eight from `PIC_2_OFFSET`; no
/// controller serves any other vector.
pub open spec fn spec_controller_for_vector(vector: u8) -> Option<ControllerId> {
    if PIC_1_OFFSET <= vector < PIC_1_OFFSET + PIC_LINES {
        Some(ControllerId::Primary)
    } else if PIC_2_OFFSET <= vector < PIC_2_OFFSET + PIC_LINES {
        Some(ControllerId::Secondary)
    } else {
        None
    }
}

/// The controller that must be acknowledged after a vector is serviced.
/// Without the acknowledgement, that line and all chained lines above it
/// never fire again.
pub fn controller_for_vector(vector: u8) -> (r: Option<ControllerId>)
    ensures
        r == spec_controller_for_vector(vector),
{
    if PIC_1_OFFSET <= vector && vector < PIC_1_OFFSET + PIC_LINES {
        Some(ControllerId::Primary)
    } else if PIC_2_OFFSET <= vector && vector < PIC_2_OFFSET + PIC_LINES {
        Some(ControllerId::Secondary)
    } else {
        None
    }
}

/// The handlers the kernel installs.
#[derive(Debug, Clone, Copy, PartialEq, Eq, Structural)]
pub enum HandlerKind {
    Breakpoint,
    DoubleFault,
    PageFault,
    Timer,
    Keyboard,
}

/// One entry of the dispatch table: which handler serves the vector, whether
/// it diverges (halts instead of returning), and the stack-table slot the
/// CPU must switch to before dispatching it, if any.
#[derive(Debug, Clone, Copy, PartialEq, Eq)]
pub struct DispatchEntry {
    pub handler: HandlerKind,
    pub diverges: bool,
    pub stack_slot: Option<u16>,
}

/// The vector-to-handler table: 256 entries, one per vector, unset entries
/// empty.
pub struct DispatchTable {
    pub entries: Vec<Option<DispatchEntry>>,
}

impl DispatchTable {
    /// The entry for vector `v`.
    pub open spec fn spec_entry(self, v: int) -> Option<DispatchEntry> {
        self.entries@[v]
    }

    /// The table has exactly one entry per vector.
    pub open spec fn wf(self) -> bool {
        self.entries@.len() == VECTOR_COUNT
    }

    /// A table with every entry empty.
    pub fn new() -> (t: DispatchTable)
        ensures
            t.wf(),
            forall|v: int| 0 <= v < VECTOR_COUNT ==> (#[trigger] t.entries@[v]) is None,
    {
        let mut entries: Vec<Option<DispatchEntry>> = Vec::new();
        while entries.len() < VECTOR_COUNT
            invariant
                entries@.len() <= VECTOR_COUNT,
                forall|v: int| 0 <= v < entries@.len() ==> #[trigger] entries@[v] is None,
            decreases VECTOR_COUNT - entries@.len(),
        {
            entries.push(None);
        }
        DispatchTable { entries }
    }

    /// Installs a handler for one vector.
    pub fn set_entry(&mut self, vector: u8, entry: DispatchEntry)
        requires
            old(self).wf(),
        ensures
            final(self).wf(),
            final(self).entries@ == old(self).entries@.update(
                vector as int,
                Some(entry),
            ),
    {
        self.entries[vector as usize] = Some(entry);
    }

    /// Reads the entry for one vector.
    pub fn entry_at(&self, vector: u8) -> (r: Option<DispatchEntry>)
        requires
            self.wf(),
        ensures
            r == self.spec_entry(vector as int),
    {
        self.entries[vector as usize]
    }
}

/// The entry the kernel installs for vector `v`: the breakpoint handler
/// returns; the double fault diverges and runs on the dedicated fault stack;
/// the page fault diverges (there is no demand paging to recover with); the
/// timer and keyboard handlers return; every other vector stays unset.
pub open spec fn spec_installed_entry(v: int) -> Option<DispatchEntry> {
    if v == BREAKPOINT_VECTOR as int {
        Some(
            DispatchEntry { handler: HandlerKind::Breakpoint, diverges: false, stack_slot: None },
        )
    } else if v == DOUBLE_FAULT_VECTOR as int {
        Some(
            DispatchEntry {
                handler: HandlerKind::DoubleFault,
                diverges: true,
                stack_slot: Some(DOUBLE_FAULT_IST_INDEX),
            },
        )
    } else if v == PAGE_FAULT_VECTOR as int {
        Some(DispatchEntry { handler: HandlerKind::PageFault, diverges: true, stack_slot: None })
    } else if v == InterruptIndex::Timer.spec_vector() as int {
        Some(DispatchEntry { handler: HandlerKind::Timer, diverges: false, stack_slot: None })
    } else if v == InterruptIndex::Keyboard.spec_vector() as int {
        Some(DispatchEntry { handler: HandlerKind::Keyboard, diverges: false, stack_slot: None })
    } else {
        None
    }
}

/// Builds the dispatch table the kernel loads: handlers for the breakpoint,
/// double-fault and page-fault exceptions and for the timer and keyboard
/// lines, exactly as `spec_installed_entry` lays them out. Built and loaded
/// once; read-only to software afterwards.
pub fn init_idt() -> (t: DispatchTable)
    ensures
        t.wf(),
        forall|v: int|
            0 <= v < VECTOR_COUNT ==> #[trigger] t.spec_entry(v) == spec_installed_entry(v),
{
    let mut t = DispatchTable::new();
    t.set_entry(
        BREAKPOINT_VECTOR,
        DispatchEntry { handler: HandlerKind::Breakpoint, diverges: false, stack_slot: None },
    );
    t.set_entry(
        DOUBLE_FAULT_VECTOR,
        DispatchEntry {
            handler: HandlerKind::DoubleFault,
            diverges: true,
            stack_slot: Some(DOUBLE_FAULT_IST_INDEX),
        },
    );
    t.set_entry(
        PAGE_FAULT_VECTOR,
        DispatchEntry { handler: HandlerKind::PageFault, diverges: true, stack_slot: None },
    );
    t.set_entry(
        InterruptIndex::Timer.as_u8(),
        DispatchEntry { handler: HandlerKind::Timer, diverges: false, stack_slot: None },
    );
    t.set_entry(
        InterruptIndex::Keyboard.as_u8(),
        DispatchEntry { handler: HandlerKind::Keyboard, diverges: false, stack_slot: None },
    );
    proof {
        assert forall|v: int| 0 <= v < VECTOR_COUNT implies #[trigger] t.spec_entry(v)
            == spec_installed_entry(v) by {}
    }
    t
}

#[verifier::external_type_specification]
#[verifier::external_body]
pub struct ExKeyEvent(pc_keyboard::KeyEvent);

#[verifier::external_type_specification]
#[verifier::external_body]
pub struct ExDecodedKey(pc_keyboard::DecodedKey);

#[verifier::external_type_specification]
#[verifier::external_body]
pub struct ExPcKeyboardError(pc_keyboard::Error);

/// The keyboard handler's persistent state: the scan-code decoder that turns
/// the byte stream from the keyboard port into resolved keys. Verus refuses
/// to declare the decoder's type (its generics carry outside trait bounds),
/// so it lives opaquely in this struct and is reached only through the
/// trusted functions below.
#[verifier::external_body]
pub struct KeyDecoder {
    decoder: pc_keyboard::Keyboard<pc_keyboard::layouts::Us104Key, pc_keyboard::ScancodeSet1>,
}

/// Relies on pc_keyboard::Keyboard::new: a fresh decoder for the US 104-key
/// layout and scan-code set 1, with no partial scan-code sequence and
/// control characters left unmapped.
#[verifier::external_body]
fn keyboard_new() -> KeyDecoder {
    KeyDecoder {
        decoder: pc_keyboard::Keyboard::new(
            pc_keyboard::layouts::Us104Key,
            pc_keyboard::ScancodeSet1,
            pc_keyboard::HandleControl::Ignore,
        ),
    }
}

/// Relies on pc_keyboard::Keyboard::add_byte: feeds one scan-code byte into
/// the decoder's state machine. Depending on the bytes seen so far it may
/// complete a key event, need more bytes, or reject the byte as an error.
#[verifier::external_body]
fn keyboard_add_byte(kb: &mut KeyDecoder, scancode: u8) -> Result<
    Option<pc_keyboard::KeyEvent>,
    pc_keyboard::Error,
> {
    kb.decoder.add_byte(scancode)
}

/// Relies on pc_keyboard::Keyboard::process_keyevent: applies the decoder's
/// modifier state to a key event; a key press may resolve to a key, a
/// release or bare modifier resolves to none.
#[verifier::external_body]
fn keyboard_process_keyevent(kb: &mut KeyDecoder, event: pc_keyboard::KeyEvent) -> Option<
    pc_keyboard::DecodedKey,
> {
    kb.decoder.process_keyevent(event)
}

/// A resolved key as the keyboard handler prints it.
pub enum Key {
    /// A key that resolved to a character.
    Unicode(char),
    /// A non-printable key, carried as the bytes of its name.
    Raw(Vec<u8>),
}

/// Relies on pc_keyboard::DecodedKey having exactly the variants Unicode and
/// RawKey; the character is carried over as it is, a raw key as the bytes of
/// its debug name.
#[verifier::external_body]
fn key_of_decoded(key: pc_keyboard::DecodedKey) -> Key {
    match key {
        pc_keyboard::DecodedKey::Unicode(character) => Key::Unicode(character),
        pc_keyboard::DecodedKey::RawKey(key_code) => Key::Raw(
            format!("{:?}", key_code).into_bytes(),
        ),
    }
}

/// The bytes the console receives for one resolved key: an ASCII character
/// as its one byte, any other character as the placeholder glyph, a raw key
/// as the bytes of its name.
pub open spec fn spec_key_bytes(key: Key) -> Seq<u8> {
    match key {
        Key::Unicode(c) => if (c as u32) < 128 {
            seq![(c as u32) as u8]
        } else {
            seq![PLACEHOLDER]
        },
        Key::Raw(name) => name@,
    }
}

/// Writes one resolved key to the console, exactly as `spec_key_bytes` lays
/// its bytes out.
pub fn emit_key(writer: &mut Writer, key: &Key)
    requires
        old(writer).wf(),
    ensures
        final(writer).wf(),
        final(writer).color_code == old(writer).color_code,
        final(writer).grid() == spec_write_bytes(
            old(writer).grid(),
            old(writer).column_position as int,
            old(writer).color_code,
            spec_key_bytes(*key),
        ).0,
        final(writer).column_position == spec_write_bytes(
            old(writer).grid(),
            old(writer).column_position as int,
            old(writer).color_code,
            spec_key_bytes(*key),
        ).1,
{
    match key {
        Key::Unicode(c) => {
            let code: u32 = *c as u32;
            let byte: u8 = if code < 128 {
                code as u8
            } else {
                PLACEHOLDER
            };
            let mut one: Vec<u8> = Vec::new();
            one.push(byte);
            proof {
                assert(one@ =~= spec_key_bytes(*key));
            }
            writer.write_bytes(one.as_slice());
        },
        Key::Raw(name) => {
            writer.write_bytes(name.as_slice());
        },
    }
}

impl KeyDecoder {
    /// A fresh decoder with no partial scan-code sequence.
    pub fn new() -> KeyDecoder {
        keyboard_new()
    }

    /// Feeds one scan-code byte read from the keyboard port into the
    /// decoder. When the byte completes a key event that resolves to a key,
    /// that key is written to the console; on a partial sequence, a bare
    /// modifier or a rejected byte the console stays as it was. Whatever the
    /// decoder answers, the console either is untouched or shows exactly one
    /// resolved key.
    pub fn handle_scancode(&mut self, scancode: u8, writer: &mut Writer)
        requires
            old(writer).wf(),
        ensures
            final(writer).wf(),
            final(writer).color_code == old(writer).color_code,
            (*final(writer) == *old(writer)) || (exists|key: Key|
                {
                    let r = spec_write_bytes(
                        old(writer).grid(),
                        old(writer).column_position as int,
                        old(writer).color_code,
                        #[trigger] spec_key_bytes(key),
                    );
                    final(writer).grid() == r.0 && final(writer).column_position == r.1
                }),
    {
        match keyboard_add_byte(self, scancode) {
            Ok(Some(key_event)) => {
                match keyboard_process_keyevent(self, key_event) {
                    Some(decoded) => {
                        let key = key_of_decoded(decoded);
                        emit_key(writer, &key);
                    },
                    None => {},
                }
            },
            _ => {},
        }
    }
}

} // verus!
