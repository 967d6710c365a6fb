//! The text report of a decoded table.
//!
//! The report has three blocks: the header flags, the program-counter
//! ranges, and the action records. Each function that writes text comes
//! with the sequence of characters that it writes.

use vstd::prelude::*;
use crate::action::{ActionRecord, ExActionData, ExceptionAction};
use crate::digits::{
    dec_digits,
    dec_string,
    hex_padded,
    hex_padded_string,
    hex_prefixed,
    hex_prefixed_string,
};
use crate::error::ExtabError;
use crate::table::{lemma_save_range_bound, ExceptionTableData, PCAction, TableView};

verus! {

/// `Yes` or `No`.
pub open spec fn yes_no(b: bool) -> Seq<char> {
    if b {
        "Yes"@
    } else {
        "No"@
    }
}

/// One line of the flags block: a label, then `Yes` or `No`.
pub open spec fn flag_line(label: Seq<char>, value: bool) -> Seq<char> {
    label + yes_no(value) + "\n"@
}

/// The registers that a save range of `count` stands for: the `count`
/// highest-numbered ones of a bank of 32, written as the first and the last
/// of them, or as register 31 alone.
pub open spec fn saved_registers(prefix: Seq<char>, count: nat) -> Seq<char> {
    if count == 1 {
        prefix + "31"@
    } else {
        prefix + dec_digits((32 - count) as nat) + "-"@ + prefix + "31"@
    }
}

/// The line for a save range, or nothing where no register is saved.
pub open spec fn save_range_line(label: Seq<char>, prefix: Seq<char>, count: nat) -> Seq<char> {
    if count == 0 {
        Seq::<char>::empty()
    } else {
        label + saved_registers(prefix, count) + "\n"@
    }
}

/// The flags block.
pub open spec fn render_flags(t: TableView) -> Seq<char> {
    "Flag values:\n"@ + flag_line("Has Elf Vector: "@, t.has_elf_vector()) + flag_line(
        "Large Frame: "@,
        t.large_frame(),
    ) + flag_line("Has Frame Pointer: "@, t.has_frame_pointer()) + flag_line(
        "Saved CR: "@,
        t.saved_cr(),
    ) + save_range_line("Saved FPR range: "@, "fp"@, t.fpr_save_range() as nat) + save_range_line(
        "Saved GPR range: "@,
        "r"@,
        t.gpr_save_range() as nat,
    )
}

/// The line for one range. The end address is left out where the range is
/// empty.
pub open spec fn render_pc_action(p: PCAction) -> Seq<char> {
    if p.start_pc != p.end_pc {
        "PC="@ + hex_padded(p.start_pc as nat, 8) + ":"@ + hex_padded(p.end_pc as nat, 8)
            + ", Action: "@ + hex_padded(p.action_offset as nat, 6) + "\n"@
    } else {
        "PC="@ + hex_padded(p.start_pc as nat, 8) + ", Action: "@ + hex_padded(
            p.action_offset as nat,
            6,
        ) + "\n"@
    }
}

/// The lines for the ranges, in order.
pub open spec fn render_pc_actions(ps: Seq<PCAction>) -> Seq<char>
    decreases ps.len(),
{
    if ps.len() == 0 {
        Seq::<char>::empty()
    } else {
        render_pc_actions(ps.drop_last()) + render_pc_action(ps.last())
    }
}

/// The block of ranges: a heading, the lines and an empty line; nothing
/// where there is no range.
pub open spec fn render_pc_block(ps: Seq<PCAction>) -> Seq<char> {
    if ps.len() == 0 {
        Seq::<char>::empty()
    } else {
        "PC actions:\n"@ + render_pc_actions(ps) + "\n"@
    }
}

/// The register that frame offsets are relative to.
pub open spec fn local_reg(has_frame_pointer: bool) -> Seq<char> {
    if has_frame_pointer {
        "FP"@
    } else {
        "SP"@
    }
}

/// Whether bit `bit` of a record's parameter byte is set.
pub open spec fn param_bit(action_param: u8, bit: u8) -> bool {
    (action_param >> bit) & 1 == 1
}

/// An offset from the frame register, such as `0x10(SP)`.
pub open spec fn frame_ref(value: nat, reg: Seq<char>) -> Seq<char> {
    hex_prefixed(value) + "("@ + reg + ")"@
}

/// The condition of a conditional record: a register where `in_register`,
/// else a frame offset.
pub open spec fn cond_text(condition: nat, in_register: bool, reg: Seq<char>) -> Seq<char> {
    if in_register {
        "\nCond: r"@ + dec_digits(condition)
    } else {
        "\nCond: "@ + frame_ref(condition, reg)
    }
}

/// The pointer of a `DestroyLocalPointer` record.
pub open spec fn local_pointer_text(pointer: nat, in_register: bool, reg: Seq<char>) -> Seq<char> {
    if in_register {
        "Pointer: r"@ + dec_digits(pointer)
    } else {
        "Pointer: "@ + frame_ref(pointer, reg)
    }
}

/// The pointer of a `DeletePointer` or `DeletePointerCond` record. The
/// register form ends in a closing bracket.
pub open spec fn delete_pointer_text(pointer: nat, in_register: bool, reg: Seq<char>) -> Seq<char> {
    if in_register {
        "Pointer: r"@ + dec_digits(pointer) + ")"@
    } else {
        "Pointer: "@ + frame_ref(pointer, reg)
    }
}

/// The member of a `DestroyBase`, `DestroyMember` or `DestroyMemberCond`
/// record.
pub open spec fn member_text(
    object_pointer: nat,
    member_offset: nat,
    in_register: bool,
    reg: Seq<char>,
) -> Seq<char> {
    if in_register {
        "Member: "@ + hex_prefixed(member_offset) + "(r"@ + dec_digits(object_pointer) + ")"@
    } else {
        "Member: "@ + frame_ref(object_pointer, reg) + "+"@ + hex_prefixed(member_offset)
    }
}

/// The member of a `DestroyMemberArray` record. In the frame form the
/// member offset stands in decimal behind `+0x`.
pub open spec fn member_array_text(
    object_pointer: nat,
    member_offset: nat,
    in_register: bool,
    reg: Seq<char>,
) -> Seq<char> {
    if in_register {
        "Member: "@ + hex_prefixed(member_offset) + "(r"@ + dec_digits(object_pointer) + ")"@
    } else {
        "Member: "@ + frame_ref(object_pointer, reg) + "+0x"@ + dec_digits(member_offset)
    }
}

/// The count and size of an array's elements.
pub open spec fn elements_text(elements: nat, element_size: nat) -> Seq<char> {
    "\nElements: "@ + dec_digits(elements) + "\nSize: "@ + dec_digits(element_size)
}

/// The fields of either kind of catch block.
pub open spec fn catch_text(cinfo_ref: nat, catch_pc_offset: nat, catch_type: nat, reg: Seq<char>) -> Seq<
    char,
> {
    "Local: "@ + frame_ref(cinfo_ref, reg) + "\nPC: "@ + hex_padded(catch_pc_offset, 8)
        + "\ncatch_type_addr: "@ + hex_padded(catch_type, 8)
}

/// The fields of a record, by its typed payload. Bit 7 of the parameter
/// byte puts a pointer, a member's object or a condition in a register; in
/// the conditional records with an object, bit 6 does so for the object.
pub open spec fn render_fields(d: ExActionData, action_param: u8, reg: Seq<char>) -> Seq<char> {
    match d {
        ExActionData::EndOfList => Seq::<char>::empty(),
        ExActionData::Branch { target_offset } => "Action: "@ + hex_padded(target_offset as nat, 6),
        ExActionData::DestroyLocal { local_offset, dtor_address } => "Local: "@ + frame_ref(
            local_offset as nat,
            reg,
        ),
        ExActionData::DestroyLocalCond { condition, local_offset, dtor_address } => "Local: "@
            + frame_ref(local_offset as nat, reg) + cond_text(
            condition as nat,
            param_bit(action_param, 7),
            reg,
        ),
        ExActionData::DestroyLocalPointer { local_pointer, dtor_address } => local_pointer_text(
            local_pointer as nat,
            param_bit(action_param, 7),
            reg,
        ),
        ExActionData::DestroyLocalArray { local_array, elements, element_size, dtor_address } => "Array: "@
            + frame_ref(local_array as nat, reg) + elements_text(
            elements as nat,
            element_size as nat,
        ),
        ExActionData::DestroyBase { object_pointer, member_offset, dtor_address } => member_text(
            object_pointer as nat,
            member_offset as nat,
            param_bit(action_param, 7),
            reg,
        ),
        ExActionData::DestroyMember { object_pointer, member_offset, dtor_address } => member_text(
            object_pointer as nat,
            member_offset as nat,
            param_bit(action_param, 7),
            reg,
        ),
        ExActionData::DestroyMemberCond { condition, object_pointer, member_offset, dtor_address } => member_text(
            object_pointer as nat,
            member_offset as nat,
            param_bit(action_param, 6),
            reg,
        ) + cond_text(condition as nat, param_bit(action_param, 7), reg),
        ExActionData::DestroyMemberArray {
            object_pointer,
            member_offset,
            elements,
            element_size,
            dtor_address,
        } => member_array_text(
            object_pointer as nat,
            member_offset as nat,
            param_bit(action_param, 7),
            reg,
        ) + elements_text(elements as nat, element_size as nat),
        ExActionData::DeletePointer { object_pointer, dtor_address } => delete_pointer_text(
            object_pointer as nat,
            param_bit(action_param, 7),
            reg,
        ),
        ExActionData::DeletePointerCond { condition, object_pointer, dtor_address } => delete_pointer_text(
            object_pointer as nat,
            param_bit(action_param, 6),
            reg,
        ) + cond_text(condition as nat, param_bit(action_param, 7), reg),
        ExActionData::CatchBlock { unk0, catch_type, catch_pc_offset, cinfo_ref } => catch_text(
            cinfo_ref as nat,
            catch_pc_offset as nat,
            catch_type as nat,
            reg,
        ),
        ExActionData::ActiveCatchBlock { cinfo_ref } => "Local: "@ + frame_ref(cinfo_ref as nat, reg),
        ExActionData::Terminate => Seq::<char>::empty(),
        ExActionData::Specification { specs, pc_offset, cinfo_ref } => "Local: "@ + frame_ref(
            cinfo_ref as nat,
            reg,
        ) + "\nPC: "@ + hex_padded(pc_offset as nat, 8) + "\nTypes: "@ + dec_digits(specs as nat),
        ExActionData::CatchBlock32 { unk0, catch_type, catch_pc_offset, cinfo_ref } => catch_text(
            cinfo_ref as nat,
            catch_pc_offset as nat,
            catch_type as nat,
            reg,
        ),
    }
}

/// The line that names a record's destructor, or nothing where the record
/// has none.
pub open spec fn dtor_text(refers_to_dtor: bool, name: Seq<char>) -> Seq<char> {
    if refers_to_dtor {
        "\nDtor: \""@ + name + "\""@
    } else {
        Seq::<char>::empty()
    }
}

/// The dot behind the last record of a chain.
pub open spec fn end_mark(has_end_bit: bool) -> Seq<char> {
    if has_end_bit {
        "."@
    } else {
        Seq::<char>::empty()
    }
}

/// The entry of one record. `name` is used only where the record names a
/// destructor.
pub open spec fn render_action(a: ActionRecord, reg: Seq<char>, name: Seq<char>) -> Seq<char> {
    hex_padded(a.action_offset as nat, 6) + ":\nType: "@ + a.action_type.name() + "\n"@
        + render_fields(a.data(), a.action_param, reg) + dtor_text(
        a.action_type.refers_to_dtor(),
        name,
    ) + end_mark(a.has_end_bit) + "\n"@
}

/// How many of the records name a destructor.
pub open spec fn dtor_count(actions: Seq<ActionRecord>) -> nat
    decreases actions.len(),
{
    if actions.len() == 0 {
        0
    } else {
        dtor_count(actions.drop_last()) + if actions.last().action_type.refers_to_dtor() {
            1nat
        } else {
            0nat
        }
    }
}

/// The entries of the records, in order. A record that names a destructor
/// takes the name whose position is the number of such records before it.
pub open spec fn render_actions(actions: Seq<ActionRecord>, reg: Seq<char>, names: Seq<Seq<char>>) -> Seq<
    char,
>
    decreases actions.len(),
{
    if actions.len() == 0 {
        Seq::<char>::empty()
    } else {
        render_actions(actions.drop_last(), reg, names) + render_action(
            actions.last(),
            reg,
            names[dtor_count(actions.drop_last()) as int],
        )
    }
}

/// The block of records: a heading and the entries; nothing where there is
/// no record.
pub open spec fn render_actions_block(
    actions: Seq<ActionRecord>,
    reg: Seq<char>,
    names: Seq<Seq<char>>,
) -> Seq<char> {
    if actions.len() == 0 {
        Seq::<char>::empty()
    } else {
        "Exception actions:\n"@ + render_actions(actions, reg, names)
    }
}

/// The names as sequences of characters.
pub open spec fn name_views(func_names: Seq<&str>) -> Seq<Seq<char>> {
    func_names.map_values(|s: &str| s@)
}

/// The report of a table: the flags block, an empty line, the block of
/// ranges and the block of records. There is no report where the records
/// name more destructors than there are names.
pub open spec fn render(t: TableView, names: Seq<Seq<char>>) -> Result<Seq<char>, ExtabError> {
    if dtor_count(t.exception_actions) > names.len() {
        Err(ExtabError::MissingFunctionName)
    } else {
        Ok(
            render_flags(t) + "\n"@ + render_pc_block(t.pc_actions) + render_actions_block(
                t.exception_actions,
                local_reg(t.has_frame_pointer()),
                names,
            ),
        )
    }
}

/// The first `k` records name no more destructors than all of them do.
pub proof fn lemma_dtor_count_prefix(actions: Seq<ActionRecord>, k: int)
    requires
        0 <= k <= actions.len(),
    ensures
        dtor_count(actions.take(k)) <= dtor_count(actions),
    decreases actions.len(),
{
    if k == actions.len() {
        assert(actions.take(k) =~= actions);
    } else {
        lemma_dtor_count_prefix(actions.drop_last(), k);
        assert(actions.drop_last().take(k) =~= actions.take(k));
    }
}

fn yes_no_str(b: bool) -> (s: &'static str)
    ensures
        s@ == yes_no(b),
{
    if b {
        "Yes"
    } else {
        "No"
    }
}

fn flag_line_string(label: &str, value: bool) -> (s: String)
    ensures
        s@ == flag_line(label@, value),
{
    let mut s: String = String::from_str(label);
    s.append(yes_no_str(value));
    s.append("\n");
    s
}

fn saved_registers_string(prefix: &str, count: u32) -> (s: String)
    requires
        1 <= count <= 32,
    ensures
        s@ == saved_registers(prefix@, count as nat),
{
    let mut s: String = String::from_str(prefix);
    if count == 1 {
        s.append("31");
    } else {
        s.append(dec_string(32 - count).as_str());
        s.append("-");
        s.append(prefix);
        s.append("31");
    }
    s
}

fn save_range_line_string(label: &str, prefix: &str, count: u32) -> (s: String)
    requires
        count <= 32,
    ensures
        s@ == save_range_line(label@, prefix@, count as nat),
{
    if count == 0 {
        String::new()
    } else {
        let mut s: String = String::from_str(label);
        s.append(saved_registers_string(prefix, count).as_str());
        s.append("\n");
        s
    }
}

fn pc_action_string(p: &PCAction) -> (s: String)
    ensures
        s@ == render_pc_action(*p),
{
    let mut s: String = String::from_str("PC=");
    s.append(hex_padded_string(p.start_pc, 8).as_str());
    if p.start_pc != p.end_pc {
        s.append(":");
        s.append(hex_padded_string(p.end_pc, 8).as_str());
    }
    s.append(", Action: ");
    s.append(hex_padded_string(p.action_offset, 6).as_str());
    s.append("\n");
    s
}

fn local_reg_str(has_frame_pointer: bool) -> (s: &'static str)
    ensures
        s@ == local_reg(has_frame_pointer),
{
    if has_frame_pointer {
        "FP"
    } else {
        "SP"
    }
}

fn param_bit_set(action_param: u8, bit: u8) -> (b: bool)
    requires
        bit < 8,
    ensures
        b == param_bit(action_param, bit),
{
    (action_param >> bit) & 1 == 1
}

fn frame_ref_string(value: u32, reg: &str) -> (s: String)
    ensures
        s@ == frame_ref(value as nat, reg@),
{
    let mut s: String = hex_prefixed_string(value);
    s.append("(");
    s.append(reg);
    s.append(")");
    s
}

fn cond_string(condition: u16, in_register: bool, reg: &str) -> (s: String)
    ensures
        s@ == cond_text(condition as nat, in_register, reg@),
{
    if in_register {
        let mut s: String = String::from_str("\nCond: r");
        s.append(dec_string(condition as u32).as_str());
        s
    } else {
        let mut s: String = String::from_str("\nCond: ");
        s.append(frame_ref_string(condition as u32, reg).as_str());
        s
    }
}

fn local_pointer_string(pointer: u16, in_register: bool, reg: &str) -> (s: String)
    ensures
        s@ == local_pointer_text(pointer as nat, in_register, reg@),
{
    if in_register {
        let mut s: String = String::from_str("Pointer: r");
        s.append(dec_string(pointer as u32).as_str());
        s
    } else {
        let mut s: String = String::from_str("Pointer: ");
        s.append(frame_ref_string(pointer as u32, reg).as_str());
        s
    }
}

fn delete_pointer_string(pointer: u16, in_register: bool, reg: &str) -> (s: String)
    ensures
        s@ == delete_pointer_text(pointer as nat, in_register, reg@),
{
    if in_register {
        let mut s: String = String::from_str("Pointer: r");
        s.append(dec_string(pointer as u32).as_str());
        s.append(")");
        s
    } else {
        let mut s: String = String::from_str("Pointer: ");
        s.append(frame_ref_string(pointer as u32, reg).as_str());
        s
    }
}

fn member_string(object_pointer: u16, member_offset: u32, in_register: bool, reg: &str) -> (s: String)
    ensures
        s@ == member_text(object_pointer as nat, member_offset as nat, in_register, reg@),
{
    let mut s: String = String::from_str("Member: ");
    if in_register {
        s.append(hex_prefixed_string(member_offset).as_str());
        s.append("(r");
        s.append(dec_string(object_pointer as u32).as_str());
        s.append(")");
    } else {
        s.append(frame_ref_string(object_pointer as u32, reg).as_str());
        s.append("+");
        s.append(hex_prefixed_string(member_offset).as_str());
    }
    s
}

fn member_array_string(object_pointer: u16, member_offset: u32, in_register: bool, reg: &str) -> (s:
    String)
    ensures
        s@ == member_array_text(object_pointer as nat, member_offset as nat, in_register, reg@),
{
    let mut s: String = String::from_str("Member: ");
    if in_register {
        s.append(hex_prefixed_string(member_offset).as_str());
        s.append("(r");
        s.append(dec_string(object_pointer as u32).as_str());
        s.append(")");
    } else {
        s.append(frame_ref_string(object_pointer as u32, reg).as_str());
        s.append("+0x");
        s.append(dec_string(member_offset).as_str());
    }
    s
}

fn elements_string(elements: u32, element_size: u32) -> (s: String)
    ensures
        s@ == elements_text(elements as nat, element_size as nat),
{
    let mut s: String = String::from_str("\nElements: ");
    s.append(dec_string(elements).as_str());
    s.append("\nSize: ");
    s.append(dec_string(element_size).as_str());
    s
}

fn catch_string(cinfo_ref: u32, catch_pc_offset: u32, catch_type: u32, reg: &str) -> (s: String)
    ensures
        s@ == catch_text(cinfo_ref as nat, catch_pc_offset as nat, catch_type as nat, reg@),
{
    let mut s: String = String::from_str("Local: ");
    s.append(frame_ref_string(cinfo_ref, reg).as_str());
    s.append("\nPC: ");
    s.append(hex_padded_string(catch_pc_offset, 8).as_str());
    s.append("\ncatch_type_addr: ");
    s.append(hex_padded_string(catch_type, 8).as_str());
    s
}

/// The fields of a record with the typed payload `d`, as text.
pub fn fields_string(d: ExActionData, action_param: u8, reg: &str) -> (s: String)
    ensures
        s@ == render_fields(d, action_param, reg@),
{
    match d {
        ExActionData::EndOfList => String::new(),
        ExActionData::Branch { target_offset } => {
            let mut s: String = String::from_str("Action: ");
            s.append(hex_padded_string(target_offset as u32, 6).as_str());
            s
        },
        ExActionData::DestroyLocal { local_offset, dtor_address: _ } => {
            let mut s: String = String::from_str("Local: ");
            s.append(frame_ref_string(local_offset as u32, reg).as_str());
            s
        },
        ExActionData::DestroyLocalCond { condition, local_offset, dtor_address: _ } => {
            let mut s: String = String::from_str("Local: ");
            s.append(frame_ref_string(local_offset as u32, reg).as_str());
            s.append(cond_string(condition, param_bit_set(action_param, 7), reg).as_str());
            s
        },
        ExActionData::DestroyLocalPointer { local_pointer, dtor_address: _ } => {
            local_pointer_string(local_pointer, param_bit_set(action_param, 7), reg)
        },
        ExActionData::DestroyLocalArray { local_array, elements, element_size, dtor_address: _ } => {
            let mut s: String = String::from_str("Array: ");
            s.append(frame_ref_string(local_array as u32, reg).as_str());
            s.append(elements_string(elements as u32, element_size as u32).as_str());
            s
        },
        ExActionData::DestroyBase { object_pointer, member_offset, dtor_address: _ } => {
            member_string(object_pointer, member_offset, param_bit_set(action_param, 7), reg)
        },
        ExActionData::DestroyMember { object_pointer, member_offset, dtor_address: _ } => {
            member_string(object_pointer, member_offset, param_bit_set(action_param, 7), reg)
        },
        ExActionData::DestroyMemberCond { condition, object_pointer, member_offset, dtor_address: _ } => {
            let mut s: String = member_string(
                object_pointer,
                member_offset,
                param_bit_set(action_param, 6),
                reg,
            );
            s.append(cond_string(condition, param_bit_set(action_param, 7), reg).as_str());
            s
        },
        ExActionData::DestroyMemberArray {
            object_pointer,
            member_offset,
            elements,
            element_size,
            dtor_address: _,
        } => {
            let mut s: String = member_array_string(
                object_pointer,
                member_offset,
                param_bit_set(action_param, 7),
                reg,
            );
            s.append(elements_string(elements, element_size).as_str());
            s
        },
        ExActionData::DeletePointer { object_pointer, dtor_address: _ } => {
            delete_pointer_string(object_pointer, param_bit_set(action_param, 7), reg)
        },
        ExActionData::DeletePointerCond { condition, object_pointer, dtor_address: _ } => {
            let mut s: String = delete_pointer_string(
                object_pointer,
                param_bit_set(action_param, 6),
                reg,
            );
            s.append(cond_string(condition, param_bit_set(action_param, 7), reg).as_str());
            s
        },
        ExActionData::CatchBlock { unk0: _, catch_type, catch_pc_offset, cinfo_ref } => {
            catch_string(cinfo_ref as u32, catch_pc_offset as u32, catch_type, reg)
        },
        ExActionData::ActiveCatchBlock { cinfo_ref } => {
            let mut s: String = String::from_str("Local: ");
            s.append(frame_ref_string(cinfo_ref as u32, reg).as_str());
            s
        },
        ExActionData::Terminate => String::new(),
        ExActionData::Specification { specs, pc_offset, cinfo_ref } => {
            let mut s: String = String::from_str("Local: ");
            s.append(frame_ref_string(cinfo_ref, reg).as_str());
            s.append("\nPC: ");
            s.append(hex_padded_string(pc_offset, 8).as_str());
            s.append("\nTypes: ");
            s.append(dec_string(specs as u32).as_str());
            s
        },
        ExActionData::CatchBlock32 { unk0: _, catch_type, catch_pc_offset, cinfo_ref } => {
            catch_string(cinfo_ref, catch_pc_offset, catch_type, reg)
        },
    }
}

fn dtor_string(refers_to_dtor: bool, name: &str) -> (s: String)
    ensures
        s@ == dtor_text(refers_to_dtor, name@),
{
    if refers_to_dtor {
        let mut s: String = String::from_str("\nDtor: \"");
        s.append(name);
        s.append("\"");
        s
    } else {
        String::new()
    }
}

fn end_mark_str(has_end_bit: bool) -> (s: &'static str)
    ensures
        s@ == end_mark(has_end_bit),
{
    proof {
        reveal_strlit("");
    }
    if has_end_bit {
        "."
    } else {
        ""
    }
}

/// The entry of one record. `name` is written only where the record names
/// a destructor.
pub fn action_string(action: &ExceptionAction, reg: &str, name: &str) -> (s: String)
    requires
        action@.wf(),
    ensures
        s@ == render_action(action@, reg@, name@),
{
    let mut s: String = hex_padded_string(action.action_offset, 6);
    s.append(":\nType: ");
    s.append(action.action_type.convert_to_string().as_str());
    s.append("\n");
    s.append(fields_string(action.get_exaction_data(), action.action_param, reg).as_str());
    s.append(dtor_string(action.has_dtor_ref(), name).as_str());
    s.append(end_mark_str(action.has_end_bit));
    s.append("\n");
    s
}

/// The name at `*func_index`, with the index moved to the next name; or
/// `MissingFunctionName`, with the index unchanged, where no name is left.
pub fn next_name<'a>(func_names: &[&'a str], func_index: &mut usize) -> (r: Result<
    &'a str,
    ExtabError,
>)
    ensures
        r is Ok <==> *old(func_index) < func_names@.len(),
        r matches Ok(name) ==> name == func_names@[*old(func_index) as int] && *final(func_index)
            == *old(func_index) + 1,
        r matches Err(e) ==> e == ExtabError::MissingFunctionName && *final(func_index) == *old(
            func_index,
        ),
{
    if *func_index >= func_names.len() {
        return Err(ExtabError::MissingFunctionName);
    }
    let name: &'a str = func_names[*func_index];
    *func_index = *func_index + 1;
    Ok(name)
}

impl ExceptionTableData {
    /// The flags block.
    pub fn flags_string(&self) -> (s: String)
        requires
            self.flags_wf(),
        ensures
            s@ == render_flags(self@),
    {
        proof {
            lemma_save_range_bound(self.flag_val, 6);
            lemma_save_range_bound(self.flag_val, 11);
        }
        let mut s: String = String::from_str("Flag values:\n");
        s.append(flag_line_string("Has Elf Vector: ", self.has_elf_vector).as_str());
        s.append(flag_line_string("Large Frame: ", self.large_frame).as_str());
        s.append(flag_line_string("Has Frame Pointer: ", self.has_frame_pointer).as_str());
        s.append(flag_line_string("Saved CR: ", self.saved_cr).as_str());
        s.append(save_range_line_string("Saved FPR range: ", "fp", self.fpr_save_range).as_str());
        s.append(save_range_line_string("Saved GPR range: ", "r", self.gpr_save_range).as_str());
        s
    }

    /// The block of ranges.
    pub fn pc_block_string(&self) -> (s: String)
        ensures
            s@ == render_pc_block(self@.pc_actions),
    {
        let n: usize = self.pc_actions.len();
        if n == 0 {
            return String::new();
        }
        let mut lines: String = String::new();
        let mut i: usize = 0;
        while i < n
            invariant
                i <= n,
                n == self.pc_actions@.len(),
                lines@ == render_pc_actions(self.pc_actions@.take(i as int)),
            decreases n - i,
        {
            let line: String = pc_action_string(&self.pc_actions[i]);
            lines.append(line.as_str());
            proof {
                let next = self.pc_actions@.take(i + 1);
                assert(next.drop_last() =~= self.pc_actions@.take(i as int));
            }
            i = i + 1;
        }
        assert(self.pc_actions@.take(n as int) =~= self.pc_actions@);
        let mut s: String = String::from_str("PC actions:\n");
        s.append(lines.as_str());
        s.append("\n");
        s
    }

    /// The block of records, or `MissingFunctionName` where the records
    /// name more destructors than `func_names` has names.
    pub fn actions_block_string(&self, func_names: &[&str]) -> (r: Result<String, ExtabError>)
        requires
            self.wf(),
        ensures
            r is Ok <==> dtor_count(self@.exception_actions) <= func_names@.len(),
            r matches Ok(s) ==> s@ == render_actions_block(
                self@.exception_actions,
                local_reg(self@.has_frame_pointer()),
                name_views(func_names@),
            ),
            r matches Err(e) ==> e == ExtabError::MissingFunctionName,
    {
        let n: usize = self.exception_actions.len();
        if n == 0 {
            return Ok(String::new());
        }
        let reg: &str = local_reg_str(self.has_frame_pointer);
        let ghost actions = self@.exception_actions;
        let ghost names = name_views(func_names@);
        let mut lines: String = String::new();
        let mut func_index: usize = 0;
        let mut i: usize = 0;
        while i < n
            invariant
                i <= n,
                n == self.exception_actions@.len(),
                self.wf(),
                actions == self@.exception_actions,
                names == name_views(func_names@),
                reg@ == local_reg(self@.has_frame_pointer()),
                func_index == dtor_count(actions.take(i as int)),
                func_index <= func_names@.len(),
                func_index <= i,
                lines@ == render_actions(actions.take(i as int), reg@, names),
            decreases n - i,
        {
            let action: &ExceptionAction = &self.exception_actions[i];
            proof {
                let next = actions.take(i + 1);
                assert(next.drop_last() =~= actions.take(i as int));
                assert(actions[i as int] == action@);
                lemma_dtor_count_prefix(actions, i + 1);
            }
            let line: String = if action.has_dtor_ref() {
                let name: &str = next_name(func_names, &mut func_index)?;
                action_string(action, reg, name)
            } else {
                action_string(action, reg, "")
            };
            lines.append(line.as_str());
            i = i + 1;
        }
        assert(actions.take(n as int) =~= actions);
        let mut s: String = String::from_str("Exception actions:\n");
        s.append(lines.as_str());
        Ok(s)
    }

    /// The report of the table. A record that names a destructor takes the
    /// next unused name of `func_names`, in order; the call fails with
    /// `MissingFunctionName` exactly where the names run out.
    pub fn to_string(&self, func_names: &[&str]) -> (r: Result<String, ExtabError>)
        requires
            self.wf(),
        ensures
            r matches Ok(s) ==> render(self@, name_views(func_names@)) == Ok::<
                Seq<char>,
                ExtabError,
            >(s@),
            r matches Err(e) ==> render(self@, name_views(func_names@)) == Err::<
                Seq<char>,
                ExtabError,
            >(e),
            r is Ok <==> dtor_count(self@.exception_actions) <= func_names@.len(),
            r matches Err(e) ==> e == ExtabError::MissingFunctionName,
    {
        let mut sb: String = self.flags_string();
        sb.append("\n");
        sb.append(self.pc_block_string().as_str());
        match self.actions_block_string(func_names) {
            Ok(block) => {
                sb.append(block.as_str());
                Ok(sb)
            },
            Err(e) => Err(e),
        }
    }
}

/// The fields of a `DestroyLocal` record are its offset from the frame
/// register, whatever its parameter byte and its destructor.
pub proof fn lemma_destroy_local_fields(
    local_offset: u16,
    dtor_address: u32,
    action_param: u8,
    reg: Seq<char>,
)
    ensures
        render_fields(ExActionData::DestroyLocal { local_offset, dtor_address }, action_param, reg)
            == "Local: "@ + hex_prefixed(local_offset as nat) + "("@ + reg + ")"@,
{
}

/// With as many names as there are records that name a destructor, there
/// is a report; with the last of those names taken away, there is none,
/// for want of a name.
pub proof fn lemma_render_needs_every_name(t: TableView, names: Seq<Seq<char>>)
    requires
        names.len() == dtor_count(t.exception_actions),
    ensures
        render(t, names) is Ok,
        names.len() > 0 ==> render(t, names.drop_last()) == Err::<Seq<char>, ExtabError>(
            ExtabError::MissingFunctionName,
        ),
{
}

} // verus!
