//! Decoding a table from its bytes.
//!
//! A table is a four-byte header, a list of eight-byte range records that a
//! zero word ends, and then action records up to the end of the buffer.
//! The functions `pc_ranges_from`, `action_at`, `actions_from` and
//! `decoded` say what the bytes stand for; the decoder computes it.

use vstd::prelude::*;
use vstd::slice::{slice_subrange, slice_to_vec};
use crate::action::{fixed_size, payload_len, ActionRecord, ExAction, ExceptionAction};
use crate::error::ExtabError;
use crate::mem_utils::{
    be_u16,
    be_u32,
    in_bounds,
    read_byte,
    read_uint16,
    read_uint32,
    uint16_at,
    uint32_at,
};
use crate::table::{action_records, ExceptionTableData, PCAction, TableView};

verus! {

/// The range record in the eight bytes of `s` at `offset`: the start
/// address, the size in units of four bytes, and the action offset. The end
/// address is the start plus the size in bytes, within 32 bits.
pub open spec fn pc_action_at(s: Seq<u8>, offset: int) -> PCAction {
    PCAction {
        start_pc: be_u32(s, offset) as u32,
        end_pc: ((be_u32(s, offset) + 4 * be_u16(s, offset + 4)) % 0x1_0000_0000) as u32,
        action_offset: be_u16(s, offset + 6) as u32,
    }
}

/// The range records from `offset` up to the zero word that ends them, and
/// the offset behind that word. Running out of bytes before the zero word
/// is `OutOfBounds`.
pub open spec fn pc_ranges_from(s: Seq<u8>, offset: int) -> Result<(Seq<PCAction>, int), ExtabError>
    decreases s.len() - offset,
{
    if !in_bounds(s, offset, 4) {
        Err(ExtabError::OutOfBounds)
    } else if be_u32(s, offset) == 0 {
        Ok((Seq::<PCAction>::empty(), offset + 4))
    } else if !in_bounds(s, offset, 8) {
        Err(ExtabError::OutOfBounds)
    } else {
        match pc_ranges_from(s, offset + 8) {
            Ok((rest, end)) => Ok((seq![pc_action_at(s, offset)] + rest, end)),
            Err(e) => Err(e),
        }
    }
}

/// The offset of a record as it is kept in 32 bits.
pub open spec fn offset_word(offset: int) -> u32 {
    (offset % 0x1_0000_0000) as u32
}

/// The action record that starts at `offset`: a type byte, whose bit 7 is
/// the end bit and whose other bits are the tag, a parameter byte, and the
/// payload of the length that the tag fixes. An unknown tag is
/// `InvalidActionType`; a record that does not fit is `OutOfBounds`.
pub open spec fn action_at(s: Seq<u8>, offset: int) -> Result<ActionRecord, ExtabError> {
    if !in_bounds(s, offset, 1) {
        Err(ExtabError::OutOfBounds)
    } else {
        match ExAction::from_tag((s[offset] & 0x7F) as int) {
            None => Err(ExtabError::InvalidActionType),
            Some(t) => {
                if !in_bounds(s, offset, 2) {
                    Err(ExtabError::OutOfBounds)
                } else if t is Specification && !in_bounds(s, offset + 2, 2) {
                    Err(ExtabError::OutOfBounds)
                } else if !in_bounds(s, offset + 2, payload_len(t, s, offset + 2)) {
                    Err(ExtabError::OutOfBounds)
                } else {
                    Ok(
                        ActionRecord {
                            action_offset: offset_word(offset),
                            action_type: t,
                            action_param: s[offset + 1],
                            has_end_bit: (s[offset] & 0x80) != 0,
                            bytes: s.subrange(
                                offset + 2,
                                offset + 2 + payload_len(t, s, offset + 2),
                            ),
                        },
                    )
                }
            },
        }
    }
}

/// The action records from `offset` to the end of `s`, each starting where
/// the one before it ends.
pub open spec fn actions_from(s: Seq<u8>, offset: int) -> Result<Seq<ActionRecord>, ExtabError>
    decreases s.len() - offset,
{
    if offset >= s.len() {
        Ok(Seq::<ActionRecord>::empty())
    } else {
        match action_at(s, offset) {
            Err(e) => Err(e),
            Ok(a) => match actions_from(s, offset + 2 + a.bytes.len()) {
                Err(e) => Err(e),
                Ok(rest) => Ok(seq![a] + rest),
            },
        }
    }
}

/// The table that the bytes `s` stand for, or why they stand for none.
pub open spec fn decoded(s: Seq<u8>) -> Result<TableView, ExtabError> {
    if s.len() < 8 {
        Err(ExtabError::TableTooShort)
    } else if s.len() == 8 && be_u32(s, 4) != 0 {
        Err(ExtabError::InvalidEmptyTable)
    } else {
        match pc_ranges_from(s, 4) {
            Err(e) => Err(e),
            Ok((pc_actions, end)) => match actions_from(s, end) {
                Err(e) => Err(e),
                Ok(exception_actions) => Ok(
                    TableView {
                        flag_val: be_u16(s, 0) as u16,
                        et_field: be_u16(s, 2) as u16,
                        pc_actions,
                        exception_actions,
                    },
                ),
            },
        }
    }
}

/// The table with the given header, no ranges and no actions.
pub open spec fn header_table(flag_val: u16, et_field: u16) -> TableView {
    TableView {
        flag_val,
        et_field,
        pc_actions: Seq::<PCAction>::empty(),
        exception_actions: Seq::<ActionRecord>::empty(),
    }
}

/// The table with a zero header, no ranges and no actions.
pub open spec fn empty_table() -> TableView {
    header_table(0, 0)
}

/// `t` with `pc_actions` for its ranges.
pub open spec fn with_ranges(t: TableView, pc_actions: Seq<PCAction>) -> TableView {
    TableView { pc_actions, ..t }
}

/// `t` with `exception_actions` for its action records.
pub open spec fn with_actions(t: TableView, exception_actions: Seq<ActionRecord>) -> TableView {
    TableView { exception_actions, ..t }
}

spec fn ranges_after(acc: Seq<PCAction>, r: Result<(Seq<PCAction>, int), ExtabError>) -> Result<
    (Seq<PCAction>, int),
    ExtabError,
> {
    match r {
        Ok((rest, end)) => Ok((acc + rest, end)),
        Err(e) => Err(e),
    }
}

spec fn actions_after(acc: Seq<ActionRecord>, r: Result<Seq<ActionRecord>, ExtabError>) -> Result<
    Seq<ActionRecord>,
    ExtabError,
> {
    match r {
        Ok(rest) => Ok(acc + rest),
        Err(e) => Err(e),
    }
}

/// A record that `action_at` accepts has the payload length that its tag
/// fixes, and ends within the buffer.
pub proof fn lemma_action_at_wf(s: Seq<u8>, offset: int)
    requires
        action_at(s, offset) is Ok,
    ensures
        action_at(s, offset)->Ok_0.wf(),
        action_at(s, offset)->Ok_0.bytes.len() == payload_len(
            action_at(s, offset)->Ok_0.action_type,
            s,
            offset + 2,
        ),
        0 <= offset,
        offset + 2 + action_at(s, offset)->Ok_0.bytes.len() <= s.len(),
{
    let a = action_at(s, offset)->Ok_0;
    if a.action_type is Specification {
        assert(a.bytes[0] == s[offset + 2]);
        assert(a.bytes[1] == s[offset + 3]);
    }
}

/// The end address of a range record lies `4 * size` bytes behind its
/// start, where `size` is the 16-bit size field of the record, unless the
/// sum leaves 32 bits; then it lies that far behind it modulo 2^32.
pub proof fn lemma_pc_range_size(s: Seq<u8>, offset: int)
    ensures
        pc_action_at(s, offset).start_pc + 4 * be_u16(s, offset + 4) <= u32::MAX ==> pc_action_at(
            s,
            offset,
        ).end_pc - pc_action_at(s, offset).start_pc == 4 * be_u16(s, offset + 4),
        pc_action_at(s, offset).start_pc + 4 * be_u16(s, offset + 4) > u32::MAX ==> pc_action_at(
            s,
            offset,
        ).end_pc + 0x1_0000_0000 - pc_action_at(s, offset).start_pc == 4 * be_u16(s, offset + 4),
{
}

/// The ranges that end at a zero word lie one behind the other, eight
/// bytes each: the `i`-th is the record at `offset + 8 * i`, its first
/// word is not zero, and the zero word stands behind the last.
pub proof fn lemma_pc_ranges_layout(s: Seq<u8>, offset: int, i: int)
    requires
        pc_ranges_from(s, offset) is Ok,
        0 <= i < pc_ranges_from(s, offset)->Ok_0.0.len(),
    ensures
        pc_ranges_from(s, offset)->Ok_0.0[i] == pc_action_at(s, offset + 8 * i),
        in_bounds(s, offset + 8 * i, 8),
        be_u32(s, offset + 8 * i) != 0,
        pc_ranges_from(s, offset)->Ok_0.1 == offset + 8 * pc_ranges_from(s, offset)->Ok_0.0.len() + 4,
        be_u32(s, pc_ranges_from(s, offset)->Ok_0.1 - 4) == 0,
        pc_ranges_from(s, offset)->Ok_0.1 <= s.len(),
    decreases i,
{
    lemma_pc_ranges_end(s, offset);
    if i > 0 {
        lemma_pc_ranges_layout(s, offset + 8, i - 1);
    }
}

/// The ranges that end at a zero word take eight bytes each, and the zero
/// word stands behind the last, within the buffer.
pub proof fn lemma_pc_ranges_end(s: Seq<u8>, offset: int)
    requires
        pc_ranges_from(s, offset) is Ok,
    ensures
        pc_ranges_from(s, offset)->Ok_0.1 == offset + 8 * pc_ranges_from(s, offset)->Ok_0.0.len() + 4,
        be_u32(s, pc_ranges_from(s, offset)->Ok_0.1 - 4) == 0,
        pc_ranges_from(s, offset)->Ok_0.1 <= s.len(),
    decreases s.len() - offset,
{
    if be_u32(s, offset) != 0 {
        lemma_pc_ranges_end(s, offset + 8);
    }
}

/// In a decoded table the `i`-th range is the record at byte `4 + 8 * i`,
/// and its end address lies `4 * size` bytes behind its start wherever
/// that sum stays within 32 bits.
pub proof fn lemma_decoded_pc_range(s: Seq<u8>, i: int)
    requires
        decoded(s) is Ok,
        0 <= i < decoded(s)->Ok_0.pc_actions.len(),
    ensures
        decoded(s)->Ok_0.pc_actions[i] == pc_action_at(s, 4 + 8 * i),
        in_bounds(s, 4 + 8 * i, 8),
        decoded(s)->Ok_0.pc_actions[i].start_pc + 4 * be_u16(s, 8 + 8 * i) <= u32::MAX ==> decoded(
            s,
        )->Ok_0.pc_actions[i].end_pc - decoded(s)->Ok_0.pc_actions[i].start_pc == 4 * be_u16(
            s,
            8 + 8 * i,
        ),
{
    lemma_pc_ranges_layout(s, 4, i);
    lemma_pc_range_size(s, 4 + 8 * i);
}

/// A buffer of eight bytes whose last four are zero is a table with no
/// range and no action; one whose last four are not all zero is no table,
/// for `InvalidEmptyTable`.
pub proof fn lemma_eight_byte_table(s: Seq<u8>)
    requires
        s.len() == 8,
    ensures
        be_u32(s, 4) == 0 <==> s[4] == 0 && s[5] == 0 && s[6] == 0 && s[7] == 0,
        be_u32(s, 4) == 0 ==> decoded(s) == Ok::<TableView, ExtabError>(
            header_table(be_u16(s, 0) as u16, be_u16(s, 2) as u16),
        ),
        be_u32(s, 4) != 0 ==> decoded(s) == Err::<TableView, ExtabError>(
            ExtabError::InvalidEmptyTable,
        ),
{
}

/// A `Specification` record whose type list has `n` entries has a payload
/// of `10 + 4 * n` bytes, and the next record starts `2 + 10 + 4 * n`
/// bytes behind its start.
pub proof fn lemma_specification_len(s: Seq<u8>, offset: int)
    requires
        action_at(s, offset) is Ok,
        action_at(s, offset)->Ok_0.action_type is Specification,
    ensures
        action_at(s, offset)->Ok_0.bytes.len() == 10 + 4 * be_u16(s, offset + 2),
        be_u16(action_at(s, offset)->Ok_0.bytes, 0) == be_u16(s, offset + 2),
        offset + 2 + 10 + 4 * be_u16(s, offset + 2) <= s.len(),
{
    lemma_action_at_wf(s, offset);
}

/// Ranges fail only by running out of bytes.
pub proof fn lemma_pc_ranges_error(s: Seq<u8>, offset: int)
    ensures
        pc_ranges_from(s, offset) matches Err(e) ==> e == ExtabError::OutOfBounds,
    decreases s.len() - offset,
{
    if in_bounds(s, offset, 8) && be_u32(s, offset) != 0 {
        lemma_pc_ranges_error(s, offset + 8);
    }
}

/// Action records fail only by an unknown tag or by running out of bytes.
pub proof fn lemma_actions_error(s: Seq<u8>, offset: int)
    ensures
        actions_from(s, offset) matches Err(e) ==> e == ExtabError::InvalidActionType || e
            == ExtabError::OutOfBounds,
    decreases s.len() - offset,
{
    if offset < s.len() {
        if let Ok(a) = action_at(s, offset) {
            lemma_actions_error(s, offset + 2 + a.bytes.len());
        }
    }
}

/// Which failure comes when: `TableTooShort` exactly under eight bytes,
/// `InvalidEmptyTable` exactly on eight bytes whose last four are not all
/// zero, and otherwise only `InvalidActionType` or `OutOfBounds`. Decoding
/// never fails for want of a name: that is left to rendering.
pub proof fn lemma_decoded_error(s: Seq<u8>)
    ensures
        decoded(s) == Err::<TableView, ExtabError>(ExtabError::TableTooShort) <==> s.len() < 8,
        decoded(s) == Err::<TableView, ExtabError>(ExtabError::InvalidEmptyTable) <==> s.len() == 8
            && be_u32(s, 4) != 0,
        decoded(s) matches Err(e) ==> e != ExtabError::MissingFunctionName,
{
    lemma_pc_ranges_error(s, 4);
    if let Ok((pc_actions, end)) = pc_ranges_from(s, 4) {
        lemma_actions_error(s, end);
    }
}

proof fn lemma_ranges_step(s: Seq<u8>, acc: Seq<PCAction>, offset: int)
    requires
        in_bounds(s, offset, 8),
        be_u32(s, offset) != 0,
    ensures
        ranges_after(acc, pc_ranges_from(s, offset)) == ranges_after(
            acc.push(pc_action_at(s, offset)),
            pc_ranges_from(s, offset + 8),
        ),
{
    match pc_ranges_from(s, offset + 8) {
        Ok((rest, end)) => {
            assert(acc.push(pc_action_at(s, offset)) + rest =~= acc + (seq![pc_action_at(s, offset)]
                + rest));
        },
        Err(e) => {},
    }
}

proof fn lemma_ranges_end(s: Seq<u8>, acc: Seq<PCAction>, offset: int)
    requires
        in_bounds(s, offset, 4),
        be_u32(s, offset) == 0,
    ensures
        ranges_after(acc, pc_ranges_from(s, offset)) == Ok::<(Seq<PCAction>, int), ExtabError>(
            (acc, offset + 4),
        ),
{
}

proof fn lemma_actions_step(s: Seq<u8>, acc: Seq<ActionRecord>, offset: int)
    requires
        0 <= offset < s.len(),
        action_at(s, offset) is Ok,
    ensures
        actions_after(acc, actions_from(s, offset)) == actions_after(
            acc.push(action_at(s, offset)->Ok_0),
            actions_from(s, offset + 2 + action_at(s, offset)->Ok_0.bytes.len()),
        ),
{
    let a = action_at(s, offset)->Ok_0;
    match actions_from(s, offset + 2 + a.bytes.len()) {
        Ok(rest) => {
            assert(acc.push(a) + rest =~= acc + (seq![a] + rest));
        },
        Err(e) => {},
    }
}

proof fn lemma_actions_end(s: Seq<u8>, acc: Seq<ActionRecord>, offset: int)
    requires
        offset >= s.len(),
    ensures
        actions_after(acc, actions_from(s, offset)) == Ok::<Seq<ActionRecord>, ExtabError>(acc),
{
}

/// Reads the eight bytes of one range record at `*offset` and moves the
/// offset behind them. On failure the offset stays.
pub fn read_pc_action(data: &[u8], offset: &mut usize) -> (r: Result<PCAction, ExtabError>)
    ensures
        r is Ok <==> in_bounds(data@, *old(offset) as int, 8),
        r matches Ok(p) ==> p == pc_action_at(data@, *old(offset) as int) && *final(offset) == *old(
            offset,
        ) + 8,
        r matches Err(e) ==> e == ExtabError::OutOfBounds && *final(offset) == *old(offset),
{
    if data.len() < 8 || *offset > data.len() - 8 {
        return Err(ExtabError::OutOfBounds);
    }
    let start_pc: u32 = uint32_at(data, *offset);
    let size_raw: u16 = uint16_at(data, *offset + 4);
    let action_offset: u16 = uint16_at(data, *offset + 6);
    let range_size: u32 = (size_raw as u32) * 4;
    let end_pc: u32 = ((start_pc as u64 + range_size as u64) % 0x1_0000_0000) as u32;
    *offset = *offset + 8;
    Ok(PCAction { start_pc, end_pc, action_offset: action_offset as u32 })
}

/// Reads tables from bytes. It holds the table that it has read so far,
/// the bytes, and how far it has come in them.
pub struct ExtabDecoder {
    pub extab_data: ExceptionTableData,
    pub offset: usize,
    pub data: Vec<u8>,
}

impl ExtabDecoder {
    /// Nothing read yet: an empty table, no bytes, offset zero.
    pub open spec fn is_initial(&self) -> bool {
        &&& self.extab_data.wf()
        &&& self.extab_data@ == empty_table()
        &&& self.offset == 0
        &&& self.data@.len() == 0
    }

    /// A decoder that has read nothing.
    pub fn new() -> (d: Self)
        ensures
            d.is_initial(),
    {
        Self { extab_data: ExceptionTableData::new(), offset: 0, data: Vec::new() }
    }

    /// Reads the action record at the decoder's offset and appends it to
    /// the table. On failure the decoder is left as it was.
    pub fn parse_action_entry(&mut self) -> (r: Result<(), ExtabError>)
        ensures
            r is Ok <==> action_at(old(self).data@, old(self).offset as int) is Ok,
            r is Ok ==> final(self).extab_data@ == with_actions(
                old(self).extab_data@,
                old(self).extab_data@.exception_actions.push(
                    action_at(old(self).data@, old(self).offset as int)->Ok_0,
                ),
            ),
            r is Ok ==> final(self).offset == old(self).offset + 2 + payload_len(
                action_at(old(self).data@, old(self).offset as int)->Ok_0.action_type,
                old(self).data@,
                old(self).offset + 2,
            ),
            r is Ok ==> final(self).offset <= old(self).data@.len(),
            r is Ok ==> final(self).data == old(self).data,
            r is Ok && old(self).extab_data.wf() ==> final(self).extab_data.wf(),
            r matches Err(e) ==> action_at(old(self).data@, old(self).offset as int) == Err::<
                ActionRecord,
                ExtabError,
            >(e),
            r is Err ==> *final(self) == *old(self),
    {
        let mut offset: usize = self.offset;
        let action_offset: u32 = ((offset as u64) % 0x1_0000_0000) as u32;
        let type_byte: u8 = read_byte(self.data.as_slice(), &mut offset, true)?;
        let has_end_bit: bool = (type_byte & 0x80) != 0;
        let action_type: ExAction = ExAction::from_int((type_byte & 0x7F) as i32)?;
        let action_param: u8 = read_byte(self.data.as_slice(), &mut offset, true)?;
        let mut size: usize = fixed_size(action_type);
        if let ExAction::Specification = action_type {
            let entries: u16 = read_uint16(self.data.as_slice(), &mut offset, false)?;
            size = size + 4 * (entries as usize);
        }
        if size > self.data.len() - offset {
            return Err(ExtabError::OutOfBounds);
        }
        let bytes: Vec<u8> = slice_to_vec(
            slice_subrange(self.data.as_slice(), offset, offset + size),
        );
        let action = ExceptionAction { action_offset, action_type, action_param, has_end_bit, bytes };
        let ghost before = self.extab_data@;
        proof {
            lemma_action_at_wf(self.data@, self.offset as int);
            assert(action@.bytes =~= action_at(self.data@, self.offset as int)->Ok_0.bytes);
            assert(action@ == action_at(self.data@, self.offset as int)->Ok_0);
            assert(action_records(self.extab_data.exception_actions@.push(action)) =~= before.exception_actions.push(
                action@,
            ));
        }
        self.extab_data.exception_actions.push(action);
        self.offset = offset + size;
        proof {
            assert(self.extab_data@ == with_actions(before, before.exception_actions.push(action@)));
            if before.actions_wf() {
                assert forall|i: int| 0 <= i < self.extab_data@.exception_actions.len() implies (
                #[trigger] self.extab_data@.exception_actions[i]).wf() by {
                    if i < before.exception_actions.len() {
                        assert(self.extab_data@.exception_actions[i] == before.exception_actions[i]);
                    }
                }
            }
        }
        Ok(())
    }

    fn parse_header(&mut self) -> (r: Result<(), ExtabError>)
        requires
            old(self).extab_data@ == empty_table(),
            old(self).extab_data.wf(),
            old(self).offset == 0,
        ensures
            final(self).data == old(self).data,
            final(self).extab_data.wf(),
            r is Ok ==> old(self).data@.len() >= 8 && !(old(self).data@.len() == 8 && be_u32(
                old(self).data@,
                4,
            ) != 0),
            r is Ok ==> final(self).offset == 4,
            r is Ok ==> final(self).extab_data@ == header_table(
                be_u16(old(self).data@, 0) as u16,
                be_u16(old(self).data@, 2) as u16,
            ),
            r matches Err(e) ==> decoded(old(self).data@) == Err::<TableView, ExtabError>(e),
    {
        if self.data.len() < 8 {
            return Err(ExtabError::TableTooShort);
        }
        let mut offset: usize = 0;
        self.extab_data.flag_val = read_uint16(self.data.as_slice(), &mut offset, true)?;
        self.extab_data.calculate_flag_values();
        self.extab_data.et_field = read_uint16(self.data.as_slice(), &mut offset, true)?;
        let terminator: u32 = read_uint32(self.data.as_slice(), &mut offset, false)?;
        if self.data.len() == 8 && terminator != 0 {
            return Err(ExtabError::InvalidEmptyTable);
        }
        self.offset = offset;
        Ok(())
    }

    fn parse_pc_ranges(&mut self) -> (r: Result<(), ExtabError>)
        requires
            old(self).extab_data@.pc_actions.len() == 0,
            old(self).extab_data.wf(),
            old(self).offset <= old(self).data@.len(),
        ensures
            final(self).data == old(self).data,
            final(self).extab_data.wf(),
            r is Ok <==> pc_ranges_from(old(self).data@, old(self).offset as int) is Ok,
            r is Ok ==> final(self).offset == pc_ranges_from(
                old(self).data@,
                old(self).offset as int,
            )->Ok_0.1,
            r is Ok ==> final(self).offset <= old(self).data@.len(),
            r is Ok ==> final(self).extab_data@ == with_ranges(
                old(self).extab_data@,
                pc_ranges_from(old(self).data@, old(self).offset as int)->Ok_0.0,
            ),
            r matches Err(e) ==> pc_ranges_from(old(self).data@, old(self).offset as int) == Err::<
                (Seq<PCAction>, int),
                ExtabError,
            >(e),
    {
        let ghost s = self.data@;
        let ghost start = self.offset as int;
        let ghost table = self.extab_data@;
        let mut offset: usize = self.offset;
        loop
            invariant
                s == old(self).data@,
                start == old(self).offset,
                self.data == old(self).data,
                offset <= s.len(),
                self.extab_data.wf(),
                self.extab_data@ == with_ranges(table, self.extab_data.pc_actions@),
                pc_ranges_from(s, start) == ranges_after(
                    self.extab_data.pc_actions@,
                    pc_ranges_from(s, offset as int),
                ),
            ensures
                pc_ranges_from(s, start) == Ok::<(Seq<PCAction>, int), ExtabError>(
                    (self.extab_data.pc_actions@, offset + 4),
                ),
                offset + 4 <= s.len(),
            decreases s.len() - offset,
        {
            let word: u32 = read_uint32(self.data.as_slice(), &mut offset, false)?;
            if word == 0 {
                proof {
                    lemma_ranges_end(s, self.extab_data.pc_actions@, offset as int);
                }
                break ;
            }
            let ghost at = offset as int;
            let pcaction: PCAction = read_pc_action(self.data.as_slice(), &mut offset)?;
            proof {
                lemma_ranges_step(s, self.extab_data.pc_actions@, at);
            }
            let ghost before = self.extab_data@;
            self.extab_data.pc_actions.push(pcaction);
            assert(self.extab_data@.exception_actions == before.exception_actions);
        }
        assert(offset + 4 <= self.data.len());
        self.offset = offset + 4;
        Ok(())
    }

    fn parse_actions(&mut self) -> (r: Result<(), ExtabError>)
        requires
            old(self).extab_data@.exception_actions.len() == 0,
            old(self).extab_data.wf(),
            old(self).offset <= old(self).data@.len(),
        ensures
            final(self).data == old(self).data,
            r is Ok <==> actions_from(old(self).data@, old(self).offset as int) is Ok,
            r is Ok ==> final(self).offset == old(self).data@.len(),
            r is Ok ==> final(self).extab_data.wf(),
            r is Ok ==> final(self).extab_data@ == with_actions(
                old(self).extab_data@,
                actions_from(old(self).data@, old(self).offset as int)->Ok_0,
            ),
            r matches Err(e) ==> actions_from(old(self).data@, old(self).offset as int) == Err::<
                Seq<ActionRecord>,
                ExtabError,
            >(e),
    {
        let ghost s = self.data@;
        let ghost start = self.offset as int;
        let ghost table = self.extab_data@;
        while self.offset < self.data.len()
            invariant
                s == old(self).data@,
                start == old(self).offset,
                self.data == old(self).data,
                self.offset <= s.len(),
                self.extab_data.wf(),
                self.extab_data@ == with_actions(table, self.extab_data@.exception_actions),
                actions_from(s, start) == actions_after(
                    self.extab_data@.exception_actions,
                    actions_from(s, self.offset as int),
                ),
            decreases s.len() - self.offset,
        {
            let ghost at = self.offset as int;
            let ghost acc = self.extab_data@.exception_actions;
            self.parse_action_entry()?;
            proof {
                lemma_action_at_wf(s, at);
                lemma_actions_step(s, acc, at);
            }
        }
        proof {
            lemma_actions_end(s, self.extab_data@.exception_actions, self.offset as int);
        }
        Ok(())
    }

    fn parse_phases(&mut self) -> (r: Result<(), ExtabError>)
        requires
            old(self).extab_data@ == empty_table(),
            old(self).extab_data.wf(),
            old(self).offset == 0,
        ensures
            final(self).data == old(self).data,
            r is Ok ==> decoded(old(self).data@) == Ok::<TableView, ExtabError>(
                final(self).extab_data@,
            ),
            r is Ok ==> final(self).extab_data.wf(),
            r is Ok ==> final(self).offset == old(self).data@.len(),
            r matches Err(e) ==> decoded(old(self).data@) == Err::<TableView, ExtabError>(e),
    {
        self.parse_header()?;
        self.parse_pc_ranges()?;
        self.parse_actions()?;
        Ok(())
    }

    /// Reads the table that `bytes` hold: the header, the ranges up to the
    /// zero word, and action records up to the end. Whatever the decoder
    /// held before is dropped. On failure it is left as new.
    pub fn parse_exception_table(&mut self, bytes: &[u8]) -> (r: Result<(), ExtabError>)
        ensures
            r is Ok <==> decoded(bytes@) is Ok,
            r is Ok ==> decoded(bytes@) == Ok::<TableView, ExtabError>(final(self).extab_data@),
            r is Ok ==> final(self).extab_data.wf(),
            r is Ok ==> final(self).data@ == bytes@,
            r is Ok ==> final(self).offset == bytes@.len(),
            r matches Err(e) ==> decoded(bytes@) == Err::<TableView, ExtabError>(e),
            r is Err ==> final(self).is_initial(),
    {
        self.offset = 0;
        self.data = slice_to_vec(bytes);
        self.extab_data = ExceptionTableData::new();
        match self.parse_phases() {
            Ok(()) => Ok(()),
            Err(e) => {
                *self = ExtabDecoder::new();
                Err(e)
            },
        }
    }
}

/// Decodes the table that `data` holds.
///
/// Fails with `TableTooShort` under eight bytes, with `InvalidEmptyTable`
/// on eight bytes whose last four are not zero, with `InvalidActionType`
/// on a record of unknown tag, and with `OutOfBounds` where the ranges or
/// a record run past the end.
pub fn decode_extab(data: &[u8]) -> (r: Result<ExceptionTableData, ExtabError>)
    ensures
        r is Ok <==> decoded(data@) is Ok,
        r matches Ok(t) ==> decoded(data@) == Ok::<TableView, ExtabError>(t@) && t.wf(),
        r matches Err(e) ==> decoded(data@) == Err::<TableView, ExtabError>(e),
        r matches Err(e) ==> e != ExtabError::MissingFunctionName,
        r == Err::<ExceptionTableData, ExtabError>(ExtabError::TableTooShort) <==> data@.len() < 8,
        r == Err::<ExceptionTableData, ExtabError>(ExtabError::InvalidEmptyTable) <==> data@.len()
            == 8 && be_u32(data@, 4) != 0,
{
    proof {
        lemma_decoded_error(data@);
    }
    let mut decoder = ExtabDecoder::new();
    match decoder.parse_exception_table(data) {
        Ok(()) => Ok(decoder.extab_data),
        Err(e) => Err(e),
    }
}

} // verus!
