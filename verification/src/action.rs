//! Action records: the seventeen tags, the raw record as decoded from a
//! table, and the typed payload that a record's bytes stand for.

use vstd::prelude::*;
use crate::error::ExtabError;
use crate::mem_utils::{be_u16, be_u32, uint16_at, uint32_at};

verus! {

/// The payload of an action record, decoded according to its tag.
#[derive(Copy, Clone, Debug, PartialEq, Eq, Structural)]
#[allow(inconsistent_fields)]
pub enum ExActionData {
    EndOfList,
    Branch { target_offset: u16 },
    DestroyLocal { local_offset: u16, dtor_address: u32 },
    DestroyLocalCond { condition: u16, local_offset: u16, dtor_address: u32 },
    DestroyLocalPointer { local_pointer: u16, dtor_address: u32 },
    DestroyLocalArray { local_array: u16, elements: u16, element_size: u16, dtor_address: u32 },
    DestroyBase { object_pointer: u16, member_offset: u32, dtor_address: u32 },
    DestroyMember { object_pointer: u16, member_offset: u32, dtor_address: u32 },
    DestroyMemberCond { condition: u16, object_pointer: u16, member_offset: u32, dtor_address: u32 },
    DestroyMemberArray {
        object_pointer: u16,
        member_offset: u32,
        elements: u32,
        element_size: u32,
        dtor_address: u32,
    },
    DeletePointer { object_pointer: u16, dtor_address: u32 },
    DeletePointerCond { condition: u16, object_pointer: u16, dtor_address: u32 },
    CatchBlock { unk0: u16, catch_type: u32, catch_pc_offset: u16, cinfo_ref: u16 },
    ActiveCatchBlock { cinfo_ref: u16 },
    Terminate,
    Specification { specs: u16, pc_offset: u32, cinfo_ref: u32 },
    CatchBlock32 { unk0: u16, catch_type: u32, catch_pc_offset: u32, cinfo_ref: u32 },
}

/// The tag of an action record.
#[derive(Copy, Clone, Debug, PartialEq, Eq, Structural)]
pub enum ExAction {
    EndOfList,
    Branch,
    DestroyLocal,
    DestroyLocalCond,
    DestroyLocalPointer,
    DestroyLocalArray,
    DestroyBase,
    DestroyMember,
    DestroyMemberCond,
    DestroyMemberArray,
    DeletePointer,
    DeletePointerCond,
    CatchBlock,
    ActiveCatchBlock,
    Terminate,
    Specification,
    CatchBlock32,
}

impl ExAction {
    /// The number that stands for this tag in the low seven bits of a type byte.
    pub open spec fn tag(self) -> int {
        match self {
            ExAction::EndOfList => 0,
            ExAction::Branch => 1,
            ExAction::DestroyLocal => 2,
            ExAction::DestroyLocalCond => 3,
            ExAction::DestroyLocalPointer => 4,
            ExAction::DestroyLocalArray => 5,
            ExAction::DestroyBase => 6,
            ExAction::DestroyMember => 7,
            ExAction::DestroyMemberCond => 8,
            ExAction::DestroyMemberArray => 9,
            ExAction::DeletePointer => 10,
            ExAction::DeletePointerCond => 11,
            ExAction::CatchBlock => 12,
            ExAction::ActiveCatchBlock => 13,
            ExAction::Terminate => 14,
            ExAction::Specification => 15,
            ExAction::CatchBlock32 => 16,
        }
    }

    /// The tag that `val` stands for, if any.
    pub open spec fn from_tag(val: int) -> Option<ExAction> {
        if val == 0 {
            Some(ExAction::EndOfList)
        } else if val == 1 {
            Some(ExAction::Branch)
        } else if val == 2 {
            Some(ExAction::DestroyLocal)
        } else if val == 3 {
            Some(ExAction::DestroyLocalCond)
        } else if val == 4 {
            Some(ExAction::DestroyLocalPointer)
        } else if val == 5 {
            Some(ExAction::DestroyLocalArray)
        } else if val == 6 {
            Some(ExAction::DestroyBase)
        } else if val == 7 {
            Some(ExAction::DestroyMember)
        } else if val == 8 {
            Some(ExAction::DestroyMemberCond)
        } else if val == 9 {
            Some(ExAction::DestroyMemberArray)
        } else if val == 10 {
            Some(ExAction::DeletePointer)
        } else if val == 11 {
            Some(ExAction::DeletePointerCond)
        } else if val == 12 {
            Some(ExAction::CatchBlock)
        } else if val == 13 {
            Some(ExAction::ActiveCatchBlock)
        } else if val == 14 {
            Some(ExAction::Terminate)
        } else if val == 15 {
            Some(ExAction::Specification)
        } else if val == 16 {
            Some(ExAction::CatchBlock32)
        } else {
            None
        }
    }

    /// The name under which a record of this tag is listed.
    pub open spec fn name(self) -> Seq<char> {
        match self {
            ExAction::EndOfList => "NULL"@,
            ExAction::Branch => "BRANCH"@,
            ExAction::DestroyLocal => "DESTROYLOCAL"@,
            ExAction::DestroyLocalCond => "DESTROYLOCALCOND"@,
            ExAction::DestroyLocalPointer => "DESTROYLOCALPOINTER"@,
            ExAction::DestroyLocalArray => "DESTROYLOCALARRAY"@,
            ExAction::DestroyBase => "DESTROYBASE"@,
            ExAction::DestroyMember => "DESTROYMEMBER"@,
            ExAction::DestroyMemberCond => "DESTROYMEMBERCOND"@,
            ExAction::DestroyMemberArray => "DESTROYMEMBERARRAY"@,
            ExAction::DeletePointer => "DELETEPOINTER"@,
            ExAction::DeletePointerCond => "DELETEPOINTERCOND"@,
            ExAction::CatchBlock => "CATCHBLOCK (Small)"@,
            ExAction::ActiveCatchBlock => "ACTIVECATCHBLOCK"@,
            ExAction::Terminate => "TERMINATE"@,
            ExAction::Specification => "SPECIFICATION"@,
            ExAction::CatchBlock32 => "CATCHBLOCK (Large)"@,
        }
    }

    /// How many payload bytes every record of this tag has. A
    /// `Specification` record has four more for each entry of its type list.
    pub open spec fn fixed_payload_len(self) -> nat {
        match self {
            ExAction::EndOfList => 0,
            ExAction::Branch => 2,
            ExAction::DestroyLocal => 6,
            ExAction::DestroyLocalCond => 8,
            ExAction::DestroyLocalPointer => 6,
            ExAction::DestroyLocalArray => 10,
            ExAction::DestroyBase => 10,
            ExAction::DestroyMember => 10,
            ExAction::DestroyMemberCond => 12,
            ExAction::DestroyMemberArray => 18,
            ExAction::DeletePointer => 6,
            ExAction::DeletePointerCond => 8,
            ExAction::CatchBlock => 10,
            ExAction::ActiveCatchBlock => 2,
            ExAction::Terminate => 0,
            ExAction::Specification => 10,
            ExAction::CatchBlock32 => 14,
        }
    }

    /// Whether a record of this tag names a destructor.
    pub open spec fn refers_to_dtor(self) -> bool {
        match self {
            ExAction::EndOfList
            | ExAction::Branch
            | ExAction::CatchBlock
            | ExAction::ActiveCatchBlock
            | ExAction::Terminate
            | ExAction::Specification
            | ExAction::CatchBlock32 => false,
            _ => true,
        }
    }

    /// The number that stands for this tag on the wire.
    pub fn to_int(&self) -> (r: i32)
        ensures
            r == self.tag(),
            ExAction::from_tag(r as int) == Some(*self),
    {
        match self {
            ExAction::EndOfList => 0,
            ExAction::Branch => 1,
            ExAction::DestroyLocal => 2,
            ExAction::DestroyLocalCond => 3,
            ExAction::DestroyLocalPointer => 4,
            ExAction::DestroyLocalArray => 5,
            ExAction::DestroyBase => 6,
            ExAction::DestroyMember => 7,
            ExAction::DestroyMemberCond => 8,
            ExAction::DestroyMemberArray => 9,
            ExAction::DeletePointer => 10,
            ExAction::DeletePointerCond => 11,
            ExAction::CatchBlock => 12,
            ExAction::ActiveCatchBlock => 13,
            ExAction::Terminate => 14,
            ExAction::Specification => 15,
            ExAction::CatchBlock32 => 16,
        }
    }

    /// The tag that `val` stands for. Every number outside `0..=16` is
    /// rejected with `InvalidActionType`.
    pub fn from_int(val: i32) -> (r: Result<ExAction, ExtabError>)
        ensures
            r is Ok <==> 0 <= val <= 16,
            r matches Ok(a) ==> a.tag() == val && ExAction::from_tag(val as int) == Some(a),
            r matches Err(e) ==> e == ExtabError::InvalidActionType,
    {
        let result: ExAction = match val {
            0 => ExAction::EndOfList,
            1 => ExAction::Branch,
            2 => ExAction::DestroyLocal,
            3 => ExAction::DestroyLocalCond,
            4 => ExAction::DestroyLocalPointer,
            5 => ExAction::DestroyLocalArray,
            6 => ExAction::DestroyBase,
            7 => ExAction::DestroyMember,
            8 => ExAction::DestroyMemberCond,
            9 => ExAction::DestroyMemberArray,
            10 => ExAction::DeletePointer,
            11 => ExAction::DeletePointerCond,
            12 => ExAction::CatchBlock,
            13 => ExAction::ActiveCatchBlock,
            14 => ExAction::Terminate,
            15 => ExAction::Specification,
            16 => ExAction::CatchBlock32,
            _ => {
                return Err(ExtabError::InvalidActionType);
            },
        };
        Ok(result)
    }

    /// The name under which a record of this tag is listed.
    pub fn convert_to_string(&self) -> (s: String)
        ensures
            s@ == self.name(),
    {
        let name: &str = match self {
            ExAction::EndOfList => "NULL",
            ExAction::Branch => "BRANCH",
            ExAction::DestroyLocal => "DESTROYLOCAL",
            ExAction::DestroyLocalCond => "DESTROYLOCALCOND",
            ExAction::DestroyLocalPointer => "DESTROYLOCALPOINTER",
            ExAction::DestroyLocalArray => "DESTROYLOCALARRAY",
            ExAction::DestroyBase => "DESTROYBASE",
            ExAction::DestroyMember => "DESTROYMEMBER",
            ExAction::DestroyMemberCond => "DESTROYMEMBERCOND",
            ExAction::DestroyMemberArray => "DESTROYMEMBERARRAY",
            ExAction::DeletePointer => "DELETEPOINTER",
            ExAction::DeletePointerCond => "DELETEPOINTERCOND",
            ExAction::CatchBlock => "CATCHBLOCK (Small)",
            ExAction::ActiveCatchBlock => "ACTIVECATCHBLOCK",
            ExAction::Terminate => "TERMINATE",
            ExAction::Specification => "SPECIFICATION",
            ExAction::CatchBlock32 => "CATCHBLOCK (Large)",
        };
        String::from_str(name)
    }
}

/// The typed payload that the bytes `b` hold for a record of tag `t`.
pub open spec fn action_data(t: ExAction, b: Seq<u8>) -> ExActionData {
    match t {
        ExAction::EndOfList => ExActionData::EndOfList,
        ExAction::Branch => ExActionData::Branch { target_offset: be_u16(b, 0) as u16 },
        ExAction::DestroyLocal => ExActionData::DestroyLocal {
            local_offset: be_u16(b, 0) as u16,
            dtor_address: be_u32(b, 2) as u32,
        },
        ExAction::DestroyLocalCond => ExActionData::DestroyLocalCond {
            condition: be_u16(b, 0) as u16,
            local_offset: be_u16(b, 2) as u16,
            dtor_address: be_u32(b, 4) as u32,
        },
        ExAction::DestroyLocalPointer => ExActionData::DestroyLocalPointer {
            local_pointer: be_u16(b, 0) as u16,
            dtor_address: be_u32(b, 2) as u32,
        },
        ExAction::DestroyLocalArray => ExActionData::DestroyLocalArray {
            local_array: be_u16(b, 0) as u16,
            elements: be_u16(b, 2) as u16,
            element_size: be_u16(b, 4) as u16,
            dtor_address: be_u32(b, 6) as u32,
        },
        ExAction::DestroyBase => ExActionData::DestroyBase {
            object_pointer: be_u16(b, 0) as u16,
            member_offset: be_u32(b, 2) as u32,
            dtor_address: be_u32(b, 6) as u32,
        },
        ExAction::DestroyMember => ExActionData::DestroyMember {
            object_pointer: be_u16(b, 0) as u16,
            member_offset: be_u32(b, 2) as u32,
            dtor_address: be_u32(b, 6) as u32,
        },
        ExAction::DestroyMemberCond => ExActionData::DestroyMemberCond {
            condition: be_u16(b, 0) as u16,
            object_pointer: be_u16(b, 2) as u16,
            member_offset: be_u32(b, 4) as u32,
            dtor_address: be_u32(b, 8) as u32,
        },
        ExAction::DestroyMemberArray => ExActionData::DestroyMemberArray {
            object_pointer: be_u16(b, 0) as u16,
            member_offset: be_u32(b, 2) as u32,
            elements: be_u32(b, 6) as u32,
            element_size: be_u32(b, 10) as u32,
            dtor_address: be_u32(b, 14) as u32,
        },
        ExAction::DeletePointer => ExActionData::DeletePointer {
            object_pointer: be_u16(b, 0) as u16,
            dtor_address: be_u32(b, 2) as u32,
        },
        ExAction::DeletePointerCond => ExActionData::DeletePointerCond {
            condition: be_u16(b, 0) as u16,
            object_pointer: be_u16(b, 2) as u16,
            dtor_address: be_u32(b, 4) as u32,
        },
        ExAction::CatchBlock => ExActionData::CatchBlock {
            unk0: be_u16(b, 0) as u16,
            catch_type: be_u32(b, 2) as u32,
            catch_pc_offset: be_u16(b, 6) as u16,
            cinfo_ref: be_u16(b, 8) as u16,
        },
        ExAction::ActiveCatchBlock => ExActionData::ActiveCatchBlock {
            cinfo_ref: be_u16(b, 0) as u16,
        },
        ExAction::Terminate => ExActionData::Terminate,
        ExAction::Specification => ExActionData::Specification {
            specs: be_u16(b, 0) as u16,
            pc_offset: be_u32(b, 2) as u32,
            cinfo_ref: be_u32(b, 6) as u32,
        },
        ExAction::CatchBlock32 => ExActionData::CatchBlock32 {
            unk0: be_u16(b, 0) as u16,
            catch_type: be_u32(b, 2) as u32,
            catch_pc_offset: be_u32(b, 6) as u32,
            cinfo_ref: be_u32(b, 10) as u32,
        },
    }
}

/// How many payload bytes a record of tag `t` has, when its payload starts
/// at `offset` in `s`: the fixed part, and for a `Specification` four bytes
/// for each entry that the 16-bit count at the payload's start announces.
pub open spec fn payload_len(t: ExAction, s: Seq<u8>, offset: int) -> int {
    if t is Specification {
        10 + 4 * be_u16(s, offset)
    } else {
        t.fixed_payload_len() as int
    }
}

/// One action record as mathematics: the fields of `ExceptionAction`, with
/// the payload as a sequence of bytes.
pub struct ActionRecord {
    pub action_offset: u32,
    pub action_type: ExAction,
    pub action_param: u8,
    pub has_end_bit: bool,
    pub bytes: Seq<u8>,
}

impl ActionRecord {
    /// The payload has exactly the length that the record's tag fixes.
    pub open spec fn wf(self) -> bool {
        &&& self.bytes.len() >= self.action_type.fixed_payload_len()
        &&& self.bytes.len() == payload_len(self.action_type, self.bytes, 0)
    }

    /// The typed payload of this record.
    pub open spec fn data(self) -> ExActionData {
        action_data(self.action_type, self.bytes)
    }
}

/// One record of the action chain, with its payload kept as raw bytes.
#[derive(Clone, Debug, PartialEq, Eq)]
pub struct ExceptionAction {
    /// Where the record starts in the table.
    pub action_offset: u32,
    pub action_type: ExAction,
    /// Mode bits whose meaning depends on the tag.
    pub action_param: u8,
    /// Whether this record ends its chain.
    pub has_end_bit: bool,
    /// The payload, of the length that the tag fixes.
    pub bytes: Vec<u8>,
}

impl View for ExceptionAction {
    type V = ActionRecord;

    open spec fn view(&self) -> ActionRecord {
        ActionRecord {
            action_offset: self.action_offset,
            action_type: self.action_type,
            action_param: self.action_param,
            has_end_bit: self.has_end_bit,
            bytes: self.bytes@,
        }
    }
}

impl ExceptionAction {
    /// An `EndOfList` record at offset zero, with no payload.
    pub fn new() -> (a: Self)
        ensures
            a@ == (ActionRecord {
                action_offset: 0,
                action_type: ExAction::EndOfList,
                action_param: 0,
                has_end_bit: false,
                bytes: Seq::<u8>::empty(),
            }),
            a@.wf(),
    {
        Self {
            action_offset: 0,
            action_type: ExAction::EndOfList,
            action_param: 0,
            has_end_bit: false,
            bytes: Vec::new(),
        }
    }

    /// Whether this record names a destructor.
    pub fn has_dtor_ref(&self) -> (b: bool)
        ensures
            b == self.action_type.refers_to_dtor(),
    {
        match self.action_type {
            ExAction::EndOfList
            | ExAction::Branch
            | ExAction::CatchBlock
            | ExAction::ActiveCatchBlock
            | ExAction::Terminate
            | ExAction::Specification
            | ExAction::CatchBlock32 => false,
            _ => true,
        }
    }

    /// Whether the payload has exactly the length that the tag fixes.
    pub fn is_well_formed(&self) -> (b: bool)
        ensures
            b == self@.wf(),
    {
        let fixed: usize = fixed_size(self.action_type);
        if self.bytes.len() < fixed {
            return false;
        }
        match self.action_type {
            ExAction::Specification => {
                let entries: usize = uint16_at(self.bytes.as_slice(), 0) as usize;
                self.bytes.len() - 10 == 4 * entries
            },
            _ => self.bytes.len() == fixed,
        }
    }

    /// Decodes the payload according to the record's tag.
    pub fn get_exaction_data(&self) -> (d: ExActionData)
        requires
            self.bytes@.len() >= self.action_type.fixed_payload_len(),
        ensures
            d == self@.data(),
    {
        let b: &[u8] = self.bytes.as_slice();
        match self.action_type {
            ExAction::EndOfList => ExActionData::EndOfList,
            ExAction::Branch => ExActionData::Branch { target_offset: uint16_at(b, 0) },
            ExAction::DestroyLocal => ExActionData::DestroyLocal {
                local_offset: uint16_at(b, 0),
                dtor_address: uint32_at(b, 2),
            },
            ExAction::DestroyLocalCond => ExActionData::DestroyLocalCond {
                condition: uint16_at(b, 0),
                local_offset: uint16_at(b, 2),
                dtor_address: uint32_at(b, 4),
            },
            ExAction::DestroyLocalPointer => ExActionData::DestroyLocalPointer {
                local_pointer: uint16_at(b, 0),
                dtor_address: uint32_at(b, 2),
            },
            ExAction::DestroyLocalArray => ExActionData::DestroyLocalArray {
                local_array: uint16_at(b, 0),
                elements: uint16_at(b, 2),
                element_size: uint16_at(b, 4),
                dtor_address: uint32_at(b, 6),
            },
            ExAction::DestroyBase => ExActionData::DestroyBase {
                object_pointer: uint16_at(b, 0),
                member_offset: uint32_at(b, 2),
                dtor_address: uint32_at(b, 6),
            },
            ExAction::DestroyMember => ExActionData::DestroyMember {
                object_pointer: uint16_at(b, 0),
                member_offset: uint32_at(b, 2),
                dtor_address: uint32_at(b, 6),
            },
            ExAction::DestroyMemberCond => ExActionData::DestroyMemberCond {
                condition: uint16_at(b, 0),
                object_pointer: uint16_at(b, 2),
                member_offset: uint32_at(b, 4),
                dtor_address: uint32_at(b, 8),
            },
            ExAction::DestroyMemberArray => ExActionData::DestroyMemberArray {
                object_pointer: uint16_at(b, 0),
                member_offset: uint32_at(b, 2),
                elements: uint32_at(b, 6),
                element_size: uint32_at(b, 10),
                dtor_address: uint32_at(b, 14),
            },
            ExAction::DeletePointer => ExActionData::DeletePointer {
                object_pointer: uint16_at(b, 0),
                dtor_address: uint32_at(b, 2),
            },
            ExAction::DeletePointerCond => ExActionData::DeletePointerCond {
                condition: uint16_at(b, 0),
                object_pointer: uint16_at(b, 2),
                dtor_address: uint32_at(b, 4),
            },
            ExAction::CatchBlock => ExActionData::CatchBlock {
                unk0: uint16_at(b, 0),
                catch_type: uint32_at(b, 2),
                catch_pc_offset: uint16_at(b, 6),
                cinfo_ref: uint16_at(b, 8),
            },
            ExAction::ActiveCatchBlock => ExActionData::ActiveCatchBlock {
                cinfo_ref: uint16_at(b, 0),
            },
            ExAction::Terminate => ExActionData::Terminate,
            ExAction::Specification => ExActionData::Specification {
                specs: uint16_at(b, 0),
                pc_offset: uint32_at(b, 2),
                cinfo_ref: uint32_at(b, 6),
            },
            ExAction::CatchBlock32 => ExActionData::CatchBlock32 {
                unk0: uint16_at(b, 0),
                catch_type: uint32_at(b, 2),
                catch_pc_offset: uint32_at(b, 6),
                cinfo_ref: uint32_at(b, 10),
            },
        }
    }
}

impl Default for ExceptionAction {
    fn default() -> (a: Self)
        ensures
            a@ == (ActionRecord {
                action_offset: 0,
                action_type: ExAction::EndOfList,
                action_param: 0,
                has_end_bit: false,
                bytes: Seq::<u8>::empty(),
            }),
    {
        Self::new()
    }
}

/// How many payload bytes every record of tag `t` has.
pub fn fixed_size(t: ExAction) -> (n: usize)
    ensures
        n == t.fixed_payload_len(),
{
    match t {
        ExAction::EndOfList => 0,
        ExAction::Branch => 2,
        ExAction::DestroyLocal => 6,
        ExAction::DestroyLocalCond => 8,
        ExAction::DestroyLocalPointer => 6,
        ExAction::DestroyLocalArray => 10,
        ExAction::DestroyBase | ExAction::DestroyMember => 10,
        ExAction::DestroyMemberCond => 12,
        ExAction::DestroyMemberArray => 18,
        ExAction::DeletePointer => 6,
        ExAction::DeletePointerCond => 8,
        ExAction::CatchBlock => 10,
        ExAction::ActiveCatchBlock => 2,
        ExAction::Terminate => 0,
        ExAction::Specification => 10,
        ExAction::CatchBlock32 => 14,
    }
}

} // verus!
