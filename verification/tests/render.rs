use cwextab::decoder::read_pc_action;
use cwextab::render::{action_string, fields_string};
use cwextab::{
    decode_extab, ExAction, ExActionData, ExceptionAction, ExceptionTableData, ExtabError,
    PCAction,
};

const NO_FLAGS: &str =
    "Flag values:\nHas Elf Vector: No\nLarge Frame: No\nHas Frame Pointer: No\nSaved CR: No\n\n";

fn table_with_header(flag_val: u16) -> ExceptionTableData {
    let mut table = ExceptionTableData::new();
    table.flag_val = flag_val;
    table.calculate_flag_values();
    table
}

fn table_with_actions(flag_val: u16, actions: Vec<ExceptionAction>) -> ExceptionTableData {
    let mut table = table_with_header(flag_val);
    table.exception_actions = actions;
    assert!(table.is_well_formed());
    table
}

fn action(action_type: ExAction, action_param: u8, bytes: Vec<u8>) -> ExceptionAction {
    ExceptionAction { action_offset: 0x18, action_type, action_param, has_end_bit: false, bytes }
}

fn destroy_local(local_offset: u16, dtor_address: u32) -> ExceptionAction {
    let mut bytes = Vec::new();
    bytes.extend_from_slice(&local_offset.to_be_bytes());
    bytes.extend_from_slice(&dtor_address.to_be_bytes());
    action(ExAction::DestroyLocal, 0, bytes)
}

#[test]
fn empty_table_renders_flags_only() {
    let table = decode_extab(&[0, 0, 0, 0, 0, 0, 0, 0]).unwrap();
    assert_eq!(table.to_string(&[]), Ok(String::from(NO_FLAGS)));
    assert_eq!(table.to_string(&["unused"]), Ok(String::from(NO_FLAGS)));
}

#[test]
fn flags_block_says_yes_for_set_bits() {
    let table = table_with_header(0x003A);
    assert_eq!(
        table.flags_string(),
        "Flag values:\nHas Elf Vector: Yes\nLarge Frame: Yes\nHas Frame Pointer: Yes\nSaved CR: Yes\n"
    );
    let table = table_with_header(0x0008);
    assert_eq!(
        table.flags_string(),
        "Flag values:\nHas Elf Vector: No\nLarge Frame: Yes\nHas Frame Pointer: No\nSaved CR: No\n"
    );
}

#[test]
fn saved_register_ranges() {
    let head = "Flag values:\nHas Elf Vector: No\nLarge Frame: No\nHas Frame Pointer: No\nSaved CR: No\n";
    let cases: [(u16, &str); 7] = [
        (1 << 6, "Saved FPR range: fp31\n"),
        (2 << 6, "Saved FPR range: fp30-fp31\n"),
        (31 << 6, "Saved FPR range: fp1-fp31\n"),
        (1 << 11, "Saved GPR range: r31\n"),
        (18 << 11, "Saved GPR range: r14-r31\n"),
        (31 << 11, "Saved GPR range: r1-r31\n"),
        ((3 << 6) | (1 << 11), "Saved FPR range: fp29-fp31\nSaved GPR range: r31\n"),
    ];
    for (flag_val, lines) in cases {
        let table = table_with_header(flag_val);
        assert_eq!(table.flags_string(), format!("{}{}", head, lines));
        assert_eq!(table.to_string(&[]), Ok(format!("{}{}\n", head, lines)));
    }
}

#[test]
fn pc_lines() {
    let mut table = table_with_header(0);
    assert_eq!(table.pc_block_string(), "");
    table.pc_actions.push(PCAction { start_pc: 0x8000_1000, end_pc: 0x8000_1040, action_offset: 0x18 });
    assert_eq!(table.pc_block_string(), "PC actions:\nPC=80001000:80001040, Action: 000018\n\n");
    table.pc_actions.push(PCAction { start_pc: 0x2000, end_pc: 0x2000, action_offset: 0x20 });
    table.pc_actions.push(PCAction { start_pc: 0, end_pc: 4, action_offset: 0xFFFF });
    assert_eq!(
        table.pc_block_string(),
        "PC actions:\nPC=80001000:80001040, Action: 000018\nPC=00002000, Action: 000020\nPC=00000000:00000004, Action: 00FFFF\n\n"
    );
    assert_eq!(
        table.to_string(&[]),
        Ok(format!(
            "{}PC actions:\nPC=80001000:80001040, Action: 000018\nPC=00002000, Action: 000020\nPC=00000000:00000004, Action: 00FFFF\n\n",
            NO_FLAGS
        ))
    );
}

#[test]
fn pc_line_with_a_wide_action_offset() {
    let mut table = table_with_header(0);
    table.pc_actions.push(PCAction { start_pc: 1, end_pc: 2, action_offset: 0x1234_5678 });
    assert_eq!(table.pc_block_string(), "PC actions:\nPC=00000001:00000002, Action: 12345678\n\n");
}

#[test]
fn whole_report() {
    let bytes = vec![
        0x08, 0xF0, 0x12, 0x34, 0x80, 0x00, 0x10, 0x00, 0x00, 0x10, 0x00, 0x18, 0x80, 0x00, 0x20,
        0x00, 0x00, 0x00, 0x00, 0x20, 0x00, 0x00, 0x00, 0x00, 0x02, 0x00, 0x00, 0x10, 0x80, 0x00,
        0x30, 0x00, 0x81, 0x00, 0x00, 0x18,
    ];
    let table = decode_extab(&bytes).unwrap();
    let expected = "Flag values:\n\
Has Elf Vector: No\n\
Large Frame: No\n\
Has Frame Pointer: Yes\n\
Saved CR: Yes\n\
Saved FPR range: fp29-fp31\n\
Saved GPR range: r31\n\
\n\
PC actions:\n\
PC=80001000:80001040, Action: 000018\n\
PC=80002000, Action: 000020\n\
\n\
Exception actions:\n\
000018:\n\
Type: DESTROYLOCAL\n\
Local: 0x10(FP)\n\
Dtor: \"dtor_a\"\n\
000020:\n\
Type: BRANCH\n\
Action: 000018.\n";
    assert_eq!(table.to_string(&["dtor_a"]), Ok(String::from(expected)));
    assert_eq!(table.to_string(&["dtor_a", "spare"]), Ok(String::from(expected)));
    assert_eq!(table.to_string(&[]), Err(ExtabError::MissingFunctionName));
}

#[test]
fn destroy_local_is_relative_to_the_frame_register() {
    for param in [0x00u8, 0x40, 0x80, 0xFF] {
        for dtor in [0u32, 0x8000_3000, 0xFFFF_FFFF] {
            let mut a = destroy_local(0x10, dtor);
            a.action_param = param;
            let table = table_with_actions(0, vec![a.clone()]);
            assert_eq!(
                table.to_string(&["f"]),
                Ok(format!(
                    "{}Exception actions:\n000018:\nType: DESTROYLOCAL\nLocal: 0x10(SP)\nDtor: \"f\"\n",
                    NO_FLAGS
                ))
            );
            let table = table_with_actions(0x0010, vec![a]);
            let text = table.to_string(&["f"]).unwrap();
            assert!(text.contains("Has Frame Pointer: Yes\n"));
            assert!(text.ends_with(
                "Exception actions:\n000018:\nType: DESTROYLOCAL\nLocal: 0x10(FP)\nDtor: \"f\"\n"
            ));
            assert_eq!(text.lines().filter(|l| *l == "Local: 0x10(FP)").count(), 1);
        }
    }
}

#[test]
fn names_are_taken_in_order() {
    let actions = vec![
        destroy_local(0x8, 1),
        action(ExAction::Terminate, 0, vec![]),
        action(ExAction::DeletePointer, 0, vec![0x00, 0x0C, 0, 0, 0, 2]),
        action(ExAction::Branch, 0, vec![0x00, 0x18]),
        destroy_local(0x10, 3),
    ];
    let table = table_with_actions(0, actions);
    let text = table.to_string(&["first", "second", "third", "fourth"]).unwrap();
    let expected = format!(
        "{}Exception actions:\n\
000018:\nType: DESTROYLOCAL\nLocal: 0x8(SP)\nDtor: \"first\"\n\
000018:\nType: TERMINATE\n\n\
000018:\nType: DELETEPOINTER\nPointer: 0xC(SP)\nDtor: \"second\"\n\
000018:\nType: BRANCH\nAction: 000018\n\
000018:\nType: DESTROYLOCAL\nLocal: 0x10(SP)\nDtor: \"third\"\n",
        NO_FLAGS
    );
    assert_eq!(text, expected);
}

#[test]
fn rendering_needs_a_name_for_each_destructor() {
    let actions = vec![
        destroy_local(0x8, 1),
        action(ExAction::Terminate, 0, vec![]),
        destroy_local(0x10, 3),
        action(ExAction::ActiveCatchBlock, 0, vec![0, 8]),
    ];
    let table = table_with_actions(0, actions);
    assert!(table.to_string(&["a", "b"]).is_ok());
    assert!(table.to_string(&["a", "b", "c"]).is_ok());
    assert_eq!(table.to_string(&["a"]), Err(ExtabError::MissingFunctionName));
    assert_eq!(table.to_string(&[]), Err(ExtabError::MissingFunctionName));
    assert_eq!(table.actions_block_string(&["a"]), Err(ExtabError::MissingFunctionName));
    let none = table_with_actions(0, vec![action(ExAction::Terminate, 0, vec![])]);
    assert!(none.to_string(&[]).is_ok());
}

#[test]
fn every_tag_that_names_a_destructor_needs_a_name() {
    let sizes: [usize; 17] = [0, 2, 6, 8, 6, 10, 10, 10, 12, 18, 6, 8, 10, 2, 0, 10, 14];
    for tag in 0..=16 {
        let t = ExAction::from_int(tag).unwrap();
        let a = action(t, 0, vec![0u8; sizes[tag as usize]]);
        let needs_name = a.has_dtor_ref();
        let table = table_with_actions(0, vec![a]);
        assert_eq!(table.to_string(&[]).is_err(), needs_name);
        let text = table.to_string(&["the_name"]).unwrap();
        assert_eq!(text.contains("\nDtor: \"the_name\"\n"), needs_name);
    }
}

#[test]
fn entry_ends_in_a_dot_where_the_chain_ends() {
    let mut a = destroy_local(0x10, 0);
    a.has_end_bit = true;
    a.action_offset = 0xABCDE;
    assert_eq!(
        action_string(&a, "SP", "dtor"),
        "0ABCDE:\nType: DESTROYLOCAL\nLocal: 0x10(SP)\nDtor: \"dtor\".\n"
    );
    let mut t = action(ExAction::Terminate, 0, vec![]);
    t.has_end_bit = true;
    assert_eq!(action_string(&t, "SP", "ignored"), "000018:\nType: TERMINATE\n.\n");
    let e = action(ExAction::EndOfList, 0, vec![]);
    assert_eq!(action_string(&e, "FP", ""), "000018:\nType: NULL\n\n");
}

#[test]
fn fields_of_branch() {
    let d = ExActionData::Branch { target_offset: 0x1234 };
    assert_eq!(fields_string(d, 0, "SP"), "Action: 001234");
    assert_eq!(fields_string(d, 0xFF, "FP"), "Action: 001234");
}

#[test]
fn fields_without_text() {
    assert_eq!(fields_string(ExActionData::EndOfList, 0, "SP"), "");
    assert_eq!(fields_string(ExActionData::Terminate, 0x80, "FP"), "");
}

#[test]
fn fields_of_destroy_local_cond() {
    let d = ExActionData::DestroyLocalCond { condition: 0x20, local_offset: 0x10, dtor_address: 9 };
    assert_eq!(fields_string(d, 0x00, "SP"), "Local: 0x10(SP)\nCond: 0x20(SP)");
    assert_eq!(fields_string(d, 0x40, "SP"), "Local: 0x10(SP)\nCond: 0x20(SP)");
    assert_eq!(fields_string(d, 0x80, "SP"), "Local: 0x10(SP)\nCond: r32");
    assert_eq!(fields_string(d, 0x80, "FP"), "Local: 0x10(FP)\nCond: r32");
    assert_eq!(fields_string(d, 0x00, "FP"), "Local: 0x10(FP)\nCond: 0x20(FP)");
}

#[test]
fn fields_of_destroy_local_pointer() {
    let d = ExActionData::DestroyLocalPointer { local_pointer: 0x1F, dtor_address: 9 };
    assert_eq!(fields_string(d, 0x00, "SP"), "Pointer: 0x1F(SP)");
    assert_eq!(fields_string(d, 0x7F, "FP"), "Pointer: 0x1F(FP)");
    assert_eq!(fields_string(d, 0x80, "SP"), "Pointer: r31");
}

#[test]
fn fields_of_destroy_local_array() {
    let d = ExActionData::DestroyLocalArray {
        local_array: 0x30,
        elements: 5,
        element_size: 12,
        dtor_address: 9,
    };
    assert_eq!(fields_string(d, 0, "SP"), "Array: 0x30(SP)\nElements: 5\nSize: 12");
    assert_eq!(fields_string(d, 0x80, "FP"), "Array: 0x30(FP)\nElements: 5\nSize: 12");
}

#[test]
fn fields_of_destroy_base_and_member() {
    let base = ExActionData::DestroyBase { object_pointer: 8, member_offset: 0x24, dtor_address: 9 };
    let member =
        ExActionData::DestroyMember { object_pointer: 8, member_offset: 0x24, dtor_address: 9 };
    for d in [base, member] {
        assert_eq!(fields_string(d, 0x00, "SP"), "Member: 0x8(SP)+0x24");
        assert_eq!(fields_string(d, 0x40, "FP"), "Member: 0x8(FP)+0x24");
        assert_eq!(fields_string(d, 0x80, "SP"), "Member: 0x24(r8)");
    }
}

#[test]
fn fields_of_destroy_member_cond() {
    let d = ExActionData::DestroyMemberCond {
        condition: 0x1C,
        object_pointer: 3,
        member_offset: 0x10,
        dtor_address: 9,
    };
    assert_eq!(fields_string(d, 0x00, "SP"), "Member: 0x3(SP)+0x10\nCond: 0x1C(SP)");
    assert_eq!(fields_string(d, 0x40, "SP"), "Member: 0x10(r3)\nCond: 0x1C(SP)");
    assert_eq!(fields_string(d, 0x80, "SP"), "Member: 0x3(SP)+0x10\nCond: r28");
    assert_eq!(fields_string(d, 0xC0, "SP"), "Member: 0x10(r3)\nCond: r28");
}

#[test]
fn fields_of_destroy_member_array() {
    let d = ExActionData::DestroyMemberArray {
        object_pointer: 8,
        member_offset: 0x24,
        elements: 4,
        element_size: 16,
        dtor_address: 9,
    };
    assert_eq!(fields_string(d, 0x00, "SP"), "Member: 0x8(SP)+0x36\nElements: 4\nSize: 16");
    assert_eq!(fields_string(d, 0x80, "SP"), "Member: 0x24(r8)\nElements: 4\nSize: 16");
}

#[test]
fn fields_of_delete_pointer() {
    let d = ExActionData::DeletePointer { object_pointer: 0x1E, dtor_address: 9 };
    assert_eq!(fields_string(d, 0x00, "SP"), "Pointer: 0x1E(SP)");
    assert_eq!(fields_string(d, 0x80, "SP"), "Pointer: r30)");
}

#[test]
fn fields_of_delete_pointer_cond() {
    let d = ExActionData::DeletePointerCond { condition: 0x2C, object_pointer: 0x1E, dtor_address: 9 };
    assert_eq!(fields_string(d, 0x00, "SP"), "Pointer: 0x1E(SP)\nCond: 0x2C(SP)");
    assert_eq!(fields_string(d, 0x40, "SP"), "Pointer: r30)\nCond: 0x2C(SP)");
    assert_eq!(fields_string(d, 0x80, "FP"), "Pointer: 0x1E(FP)\nCond: r44");
    assert_eq!(fields_string(d, 0xC0, "FP"), "Pointer: r30)\nCond: r44");
}

#[test]
fn fields_of_catch_blocks() {
    let small = ExActionData::CatchBlock {
        unk0: 0xFFFF,
        catch_type: 0x8012_3456,
        catch_pc_offset: 0x40,
        cinfo_ref: 0x28,
    };
    assert_eq!(
        fields_string(small, 0, "SP"),
        "Local: 0x28(SP)\nPC: 00000040\ncatch_type_addr: 80123456"
    );
    let large = ExActionData::CatchBlock32 {
        unk0: 0,
        catch_type: 0x8012_3456,
        catch_pc_offset: 0x12345,
        cinfo_ref: 0x10028,
    };
    assert_eq!(
        fields_string(large, 0, "FP"),
        "Local: 0x10028(FP)\nPC: 00012345\ncatch_type_addr: 80123456"
    );
    let active = ExActionData::ActiveCatchBlock { cinfo_ref: 0x28 };
    assert_eq!(fields_string(active, 0, "SP"), "Local: 0x28(SP)");
}

#[test]
fn fields_of_specification() {
    let d = ExActionData::Specification { specs: 3, pc_offset: 0x100, cinfo_ref: 0x38 };
    assert_eq!(fields_string(d, 0, "SP"), "Local: 0x38(SP)\nPC: 00000100\nTypes: 3");
}

#[test]
fn one_range_record() {
    let data = [0xAAu8, 0x80, 0x00, 0x10, 0x00, 0x00, 0x10, 0x00, 0x18];
    let mut offset: usize = 1;
    assert_eq!(
        read_pc_action(&data, &mut offset),
        Ok(PCAction { start_pc: 0x8000_1000, end_pc: 0x8000_1040, action_offset: 0x18 })
    );
    assert_eq!(offset, 9);
    let mut late: usize = 2;
    assert_eq!(read_pc_action(&data, &mut late), Err(ExtabError::OutOfBounds));
    assert_eq!(late, 2);
}

#[test]
fn names_one_after_the_other() {
    let names = ["a", "b"];
    let mut index: usize = 0;
    assert_eq!(cwextab::render::next_name(&names, &mut index), Ok("a"));
    assert_eq!(index, 1);
    assert_eq!(cwextab::render::next_name(&names, &mut index), Ok("b"));
    assert_eq!(index, 2);
    assert_eq!(
        cwextab::render::next_name(&names, &mut index),
        Err(ExtabError::MissingFunctionName)
    );
    assert_eq!(index, 2);
}
