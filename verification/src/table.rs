//! The decoded table: header flags, program-counter ranges and the action
//! chain.

use vstd::prelude::*;
use crate::action::{ActionRecord, ExceptionAction};

verus! {

/// One range of code addresses and the offset of the action record at
/// which unwinding starts for it.
#[derive(Copy, Clone, Debug, PartialEq, Eq, Structural)]
pub struct PCAction {
    /// First address of the range.
    pub start_pc: u32,
    /// `start_pc` plus the size of the range in bytes.
    pub end_pc: u32,
    /// Offset of the first action record for this range.
    pub action_offset: u32,
}

impl PCAction {
    /// The range of no bytes at address zero.
    pub fn new() -> (p: Self)
        ensures
            p == (PCAction { start_pc: 0, end_pc: 0, action_offset: 0 }),
    {
        Self { start_pc: 0, end_pc: 0, action_offset: 0 }
    }
}

impl Default for PCAction {
    fn default() -> (p: Self)
        ensures
            p == (PCAction { start_pc: 0, end_pc: 0, action_offset: 0 }),
    {
        Self::new()
    }
}

/// Whether bit `bit` of the header word is set; bit 0 is the least
/// significant.
pub open spec fn flag_bit(flag_val: u16, bit: u16) -> bool {
    (flag_val >> bit) & 1 == 1
}

/// The five-bit field of the header word whose lowest bit is `low_bit`.
pub open spec fn save_range(flag_val: u16, low_bit: u16) -> u32 {
    ((flag_val >> low_bit) & 0b11111) as u32
}

/// The header word that holds the two save ranges in bits 6 to 10 and 11
/// to 15, and nothing else.
pub open spec fn save_range_bits(fpr_save_range: u32, gpr_save_range: u32) -> u16 {
    ((fpr_save_range as u16) << 6) | ((gpr_save_range as u16) << 11)
}

/// A save range counts registers, so it is at most 31.
pub proof fn lemma_save_range_bound(flag_val: u16, low_bit: u16)
    ensures
        save_range(flag_val, low_bit) <= 31,
{
    assert((flag_val >> low_bit) & 0b11111 <= 31) by (bit_vector);
}

/// Writing the two save ranges of a header word back into bits 6 to 10 and
/// 11 to 15 of a fresh word gives those ten bits of the header word again.
pub proof fn lemma_save_ranges_roundtrip(flag_val: u16)
    ensures
        save_range_bits(save_range(flag_val, 6), save_range(flag_val, 11)) == flag_val & 0xFFC0,
        save_range(save_range_bits(save_range(flag_val, 6), save_range(flag_val, 11)), 6)
            == save_range(flag_val, 6),
        save_range(save_range_bits(save_range(flag_val, 6), save_range(flag_val, 11)), 11)
            == save_range(flag_val, 11),
{
    assert(((((flag_val >> 6) & 0b11111) as u32) as u16) << 6 | ((((flag_val >> 11) & 0b11111) as u32) as u16)
        << 11 == flag_val & 0xFFC0) by (bit_vector);
    let w: u16 = flag_val & 0xFFC0;
    assert(((flag_val & 0xFFC0) >> 6) & 0b11111 == (flag_val >> 6) & 0b11111) by (bit_vector);
    assert(((flag_val & 0xFFC0) >> 11) & 0b11111 == (flag_val >> 11) & 0b11111) by (bit_vector);
}

/// A decoded table as mathematics. The flags and save ranges are functions
/// of `flag_val` and hold no state of their own.
pub struct TableView {
    pub flag_val: u16,
    pub et_field: u16,
    pub pc_actions: Seq<PCAction>,
    pub exception_actions: Seq<ActionRecord>,
}

impl TableView {
    pub open spec fn has_elf_vector(self) -> bool {
        flag_bit(self.flag_val, 1)
    }

    pub open spec fn large_frame(self) -> bool {
        flag_bit(self.flag_val, 3)
    }

    pub open spec fn has_frame_pointer(self) -> bool {
        flag_bit(self.flag_val, 4)
    }

    pub open spec fn saved_cr(self) -> bool {
        flag_bit(self.flag_val, 5)
    }

    /// How many of the highest-numbered floating-point registers are saved.
    pub open spec fn fpr_save_range(self) -> u32 {
        save_range(self.flag_val, 6)
    }

    /// How many of the highest-numbered general registers are saved.
    pub open spec fn gpr_save_range(self) -> u32 {
        save_range(self.flag_val, 11)
    }

    /// Every action record has the payload length that its tag fixes.
    pub open spec fn actions_wf(self) -> bool {
        forall|i: int| 0 <= i < self.exception_actions.len() ==> (#[trigger] self.exception_actions[i]).wf()
    }
}

/// The views of a vector of action records, in order.
pub open spec fn action_records(actions: Seq<ExceptionAction>) -> Seq<ActionRecord> {
    actions.map_values(|a: ExceptionAction| a@)
}

/// Everything that a table holds.
#[derive(Clone, Debug, PartialEq, Eq)]
pub struct ExceptionTableData {
    /// The raw header word. The six fields after it are derived from it.
    pub flag_val: u16,
    pub has_elf_vector: bool,
    pub large_frame: bool,
    pub has_frame_pointer: bool,
    pub saved_cr: bool,
    pub fpr_save_range: u32,
    pub gpr_save_range: u32,
    /// The second header word, kept as it is.
    pub et_field: u16,
    /// The ranges, in the order of the table.
    pub pc_actions: Vec<PCAction>,
    /// The action records, in the order of the table.
    pub exception_actions: Vec<ExceptionAction>,
}

impl View for ExceptionTableData {
    type V = TableView;

    open spec fn view(&self) -> TableView {
        TableView {
            flag_val: self.flag_val,
            et_field: self.et_field,
            pc_actions: self.pc_actions@,
            exception_actions: action_records(self.exception_actions@),
        }
    }
}

impl ExceptionTableData {
    /// The six derived fields say what `flag_val` says.
    pub open spec fn flags_wf(&self) -> bool {
        &&& self.has_elf_vector == self@.has_elf_vector()
        &&& self.large_frame == self@.large_frame()
        &&& self.has_frame_pointer == self@.has_frame_pointer()
        &&& self.saved_cr == self@.saved_cr()
        &&& self.fpr_save_range == self@.fpr_save_range()
        &&& self.gpr_save_range == self@.gpr_save_range()
    }

    /// The derived fields agree with `flag_val`, and every action record
    /// has the payload length that its tag fixes.
    pub open spec fn wf(&self) -> bool {
        &&& self.flags_wf()
        &&& self@.actions_wf()
    }

    /// The table with a zero header, no ranges and no actions.
    pub fn new() -> (t: Self)
        ensures
            t.wf(),
            t@ == (TableView {
                flag_val: 0,
                et_field: 0,
                pc_actions: Seq::<PCAction>::empty(),
                exception_actions: Seq::<ActionRecord>::empty(),
            }),
    {
        let mut t = Self {
            flag_val: 0,
            has_elf_vector: false,
            large_frame: false,
            has_frame_pointer: false,
            saved_cr: false,
            fpr_save_range: 0,
            gpr_save_range: 0,
            et_field: 0,
            pc_actions: Vec::new(),
            exception_actions: Vec::new(),
        };
        t.calculate_flag_values();
        assert(t@.exception_actions =~= Seq::<ActionRecord>::empty());
        t
    }

    /// Sets the six derived fields from `flag_val`.
    pub fn calculate_flag_values(&mut self)
        ensures
            final(self).flags_wf(),
            final(self)@ == old(self)@,
            final(self).pc_actions == old(self).pc_actions,
            final(self).exception_actions == old(self).exception_actions,
            final(self).fpr_save_range <= 31,
            final(self).gpr_save_range <= 31,
    {
        proof {
            lemma_save_range_bound(self.flag_val, 6);
            lemma_save_range_bound(self.flag_val, 11);
        }
        self.has_elf_vector = ((self.flag_val >> 1) & 1) == 1;
        self.large_frame = ((self.flag_val >> 3) & 1) == 1;
        self.has_frame_pointer = ((self.flag_val >> 4) & 1) == 1;
        self.saved_cr = ((self.flag_val >> 5) & 1) == 1;
        self.fpr_save_range = ((self.flag_val >> 6) & 0b11111) as u32;
        self.gpr_save_range = ((self.flag_val >> 11) & 0b11111) as u32;
    }

    /// Whether the derived fields agree with `flag_val` and every action
    /// record has the payload length that its tag fixes.
    pub fn is_well_formed(&self) -> (b: bool)
        ensures
            b == self.wf(),
    {
        let flags_agree: bool = self.has_elf_vector == (((self.flag_val >> 1) & 1) == 1)
            && self.large_frame == (((self.flag_val >> 3) & 1) == 1)
            && self.has_frame_pointer == (((self.flag_val >> 4) & 1) == 1)
            && self.saved_cr == (((self.flag_val >> 5) & 1) == 1)
            && self.fpr_save_range == ((self.flag_val >> 6) & 0b11111) as u32
            && self.gpr_save_range == ((self.flag_val >> 11) & 0b11111) as u32;
        if !flags_agree {
            return false;
        }
        let n: usize = self.exception_actions.len();
        let mut i: usize = 0;
        while i < n
            invariant
                i <= n,
                n == self.exception_actions@.len(),
                forall|j: int| 0 <= j < i ==> (#[trigger] self@.exception_actions[j]).wf(),
            decreases n - i,
        {
            if !self.exception_actions[i].is_well_formed() {
                assert(!self@.exception_actions[i as int].wf());
                return false;
            }
            i = i + 1;
        }
        true
    }
}

} // verus!
