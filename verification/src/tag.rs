//! The kinds of control that can be offered to the embedder, and the bitmask that selects them.

use vstd::prelude::*;

verus! {

/// Take no control; every control follows the engine's default path.
pub const SERVO_EMBEDDER_CONTROL_NONE: u64 = 0;

/// A context menu opened on web content.
pub const SERVO_EMBEDDER_CONTROL_CONTEXT_MENU: u64 = 1 << 0;

/// The picker of a `<select>` element.
pub const SERVO_EMBEDDER_CONTROL_SELECT: u64 = 1 << 1;

/// The picker of an `<input type=file>` element.
pub const SERVO_EMBEDDER_CONTROL_FILE_PICKER: u64 = 1 << 2;

/// Reserved for controls that the embedder originates.
pub const SERVO_EMBEDDER_CONTROL_WASM_IMPORT: u64 = 1 << 3;

/// Reserved for controls that the embedder originates.
pub const SERVO_EMBEDDER_CONTROL_WEBMCP: u64 = 1 << 4;

/// Take every taggable control, including bits not yet assigned.
pub const SERVO_EMBEDDER_CONTROL_ALL: u64 = 0xFFFF_FFFF;

/// The number of [`ServoEmbedderControlTag::ContextMenu`].
pub const SERVO_EMBEDDER_CONTROL_TAG_CONTEXT_MENU: u32 = 1;

/// The number of [`ServoEmbedderControlTag::Select`].
pub const SERVO_EMBEDDER_CONTROL_TAG_SELECT: u32 = 2;

/// The number of [`ServoEmbedderControlTag::FilePicker`].
pub const SERVO_EMBEDDER_CONTROL_TAG_FILE_PICKER: u32 = 3;

/// The number of [`ServoEmbedderControlTag::WasmImport`].
pub const SERVO_EMBEDDER_CONTROL_TAG_WASM_IMPORT: u32 = 4;

/// The number of [`ServoEmbedderControlTag::WebMcpToolCall`].
pub const SERVO_EMBEDDER_CONTROL_TAG_WEB_MCP_TOOL_CALL: u32 = 5;

/// The kind of a control offered to the embedder.
///
/// Each kind has a number that is part of the ABI, see [`ServoEmbedderControlTag::code`].
/// `WasmImport` and `WebMcpToolCall` are reserved for controls that the embedder itself
/// originates.
#[derive(Clone, Copy, Debug, PartialEq, Eq, Structural)]
pub enum ServoEmbedderControlTag {
    ContextMenu,
    Select,
    FilePicker,
    WasmImport,
    WebMcpToolCall,
}

impl ServoEmbedderControlTag {
    /// The number of a kind of control.
    pub open spec fn spec_code(self) -> u32 {
        match self {
            ServoEmbedderControlTag::ContextMenu => SERVO_EMBEDDER_CONTROL_TAG_CONTEXT_MENU,
            ServoEmbedderControlTag::Select => SERVO_EMBEDDER_CONTROL_TAG_SELECT,
            ServoEmbedderControlTag::FilePicker => SERVO_EMBEDDER_CONTROL_TAG_FILE_PICKER,
            ServoEmbedderControlTag::WasmImport => SERVO_EMBEDDER_CONTROL_TAG_WASM_IMPORT,
            ServoEmbedderControlTag::WebMcpToolCall => SERVO_EMBEDDER_CONTROL_TAG_WEB_MCP_TOOL_CALL,
        }
    }

    /// The mask constant that selects a kind of control and nothing else.
    pub open spec fn spec_flag(self) -> u64 {
        match self {
            ServoEmbedderControlTag::ContextMenu => SERVO_EMBEDDER_CONTROL_CONTEXT_MENU,
            ServoEmbedderControlTag::Select => SERVO_EMBEDDER_CONTROL_SELECT,
            ServoEmbedderControlTag::FilePicker => SERVO_EMBEDDER_CONTROL_FILE_PICKER,
            ServoEmbedderControlTag::WasmImport => SERVO_EMBEDDER_CONTROL_WASM_IMPORT,
            ServoEmbedderControlTag::WebMcpToolCall => SERVO_EMBEDDER_CONTROL_WEBMCP,
        }
    }

    /// The number of this kind of control on the wire.
    pub fn code(self) -> (code: u32)
        ensures
            code == self.spec_code(),
            self is ContextMenu ==> code == 1,
            self is Select ==> code == 2,
            self is FilePicker ==> code == 3,
            self is WasmImport ==> code == 4,
            self is WebMcpToolCall ==> code == 5,
    {
        match self {
            ServoEmbedderControlTag::ContextMenu => SERVO_EMBEDDER_CONTROL_TAG_CONTEXT_MENU,
            ServoEmbedderControlTag::Select => SERVO_EMBEDDER_CONTROL_TAG_SELECT,
            ServoEmbedderControlTag::FilePicker => SERVO_EMBEDDER_CONTROL_TAG_FILE_PICKER,
            ServoEmbedderControlTag::WasmImport => SERVO_EMBEDDER_CONTROL_TAG_WASM_IMPORT,
            ServoEmbedderControlTag::WebMcpToolCall => SERVO_EMBEDDER_CONTROL_TAG_WEB_MCP_TOOL_CALL,
        }
    }

    /// Whether `flags` selects this kind of control.
    pub fn taken_by(self, flags: u64) -> (taken: bool)
        ensures
            taken == takes(flags, self),
            self is ContextMenu ==> (taken <==> flags & 0x01 != 0),
            self is Select ==> (taken <==> flags & 0x02 != 0),
            self is FilePicker ==> (taken <==> flags & 0x04 != 0),
            self is WasmImport ==> (taken <==> flags & 0x08 != 0),
            self is WebMcpToolCall ==> (taken <==> flags & 0x10 != 0),
    {
        proof {
            law_each_tag_is_taken_by_its_own_bit(flags);
        }
        let shift: u32 = self.code() - 1;
        (flags >> shift) & 1 == 1
    }
}

/// Whether bit `bit` of a mask is set.
pub open spec fn bit_set(flags: u64, bit: u32) -> bool {
    (flags >> bit) & 1 == 1
}

/// Whether a mask selects a kind of control: a tag occupies the bit one below its number.
pub open spec fn takes(flags: u64, tag: ServoEmbedderControlTag) -> bool {
    bit_set(flags, (tag.spec_code() - 1) as u32)
}

/// A tag occupies bit `code - 1`: its mask constant is one shifted by that much.
pub proof fn law_tag_occupies_the_bit_below_its_code(tag: ServoEmbedderControlTag)
    ensures
        1 <= tag.spec_code() <= 5,
        tag.spec_flag() == 1u64 << ((tag.spec_code() - 1) as u64),
{
}

/// The numbers of the five kinds, which are part of the ABI, and their mask constants.
pub proof fn law_numbers_and_masks_are_fixed()
    ensures
        ServoEmbedderControlTag::ContextMenu.spec_code() == 1,
        ServoEmbedderControlTag::Select.spec_code() == 2,
        ServoEmbedderControlTag::FilePicker.spec_code() == 3,
        ServoEmbedderControlTag::WasmImport.spec_code() == 4,
        ServoEmbedderControlTag::WebMcpToolCall.spec_code() == 5,
        ServoEmbedderControlTag::ContextMenu.spec_flag() == 0x01,
        ServoEmbedderControlTag::Select.spec_flag() == 0x02,
        ServoEmbedderControlTag::FilePicker.spec_flag() == 0x04,
        ServoEmbedderControlTag::WasmImport.spec_flag() == 0x08,
        ServoEmbedderControlTag::WebMcpToolCall.spec_flag() == 0x10,
        SERVO_EMBEDDER_CONTROL_NONE == 0,
        SERVO_EMBEDDER_CONTROL_ALL == 0xFFFF_FFFF,
{
    assert((1u64 << 0) == 1 && (1u64 << 1) == 2 && (1u64 << 2) == 4 && (1u64 << 3) == 8 && (1u64
        << 4) == 16) by (bit_vector);
}

/// Whatever else a mask holds, whether it selects a kind of control is decided by the one bit of
/// that kind.
pub proof fn law_each_tag_is_taken_by_its_own_bit(flags: u64)
    ensures
        takes(flags, ServoEmbedderControlTag::ContextMenu) <==> flags & 0x01 != 0,
        takes(flags, ServoEmbedderControlTag::Select) <==> flags & 0x02 != 0,
        takes(flags, ServoEmbedderControlTag::FilePicker) <==> flags & 0x04 != 0,
        takes(flags, ServoEmbedderControlTag::WasmImport) <==> flags & 0x08 != 0,
        takes(flags, ServoEmbedderControlTag::WebMcpToolCall) <==> flags & 0x10 != 0,
{
    law_numbers_and_masks_are_fixed();
    law_takes_is_a_mask_test(flags, ServoEmbedderControlTag::ContextMenu);
    law_takes_is_a_mask_test(flags, ServoEmbedderControlTag::Select);
    law_takes_is_a_mask_test(flags, ServoEmbedderControlTag::FilePicker);
    law_takes_is_a_mask_test(flags, ServoEmbedderControlTag::WasmImport);
    law_takes_is_a_mask_test(flags, ServoEmbedderControlTag::WebMcpToolCall);
}

/// A bit of a mask is set exactly when the mask meets one shifted to that bit.
pub proof fn law_bit_set_is_a_mask_test(flags: u64, bit: u32)
    requires
        bit < 64,
    ensures
        bit_set(flags, bit) <==> flags & (1u64 << bit) != 0,
{
    assert(bit < 64 ==> (((flags >> bit) & 1 == 1) <==> flags & (1u64 << bit) != 0)) by (bit_vector);
}

/// No two kinds of control share a number or a mask constant.
pub proof fn law_tags_are_distinct(a: ServoEmbedderControlTag, b: ServoEmbedderControlTag)
    requires
        a != b,
    ensures
        a.spec_code() != b.spec_code(),
        a.spec_flag() != b.spec_flag(),
        a.spec_flag() & b.spec_flag() == 0,
{
    assert((1u64 << 0) == 1 && (1u64 << 1) == 2 && (1u64 << 2) == 4 && (1u64 << 3) == 8 && (1u64
        << 4) == 16) by (bit_vector);
    assert(forall|x: u64, y: u64| #![trigger x & y]
        (x == 1 || x == 2 || x == 4 || x == 8 || x == 16) && (y == 1 || y == 2 || y == 4 || y == 8
            || y == 16) && x != y ==> x & y == 0) by (bit_vector);
}

/// The mask constant of a kind of control selects that kind and no other.
pub proof fn law_flag_takes_exactly_its_tag(
    flag_of: ServoEmbedderControlTag,
    tag: ServoEmbedderControlTag,
)
    ensures
        takes(flag_of.spec_flag(), tag) <==> flag_of == tag,
{
    assert(forall|i: u32, j: u32| #![trigger (1u64 << i) >> j]
        i < 5 && j < 5 ==> ((((1u64 << i) >> j) & 1 == 1) <==> i == j)) by (bit_vector);
}

/// A mask selects a kind of control exactly when it meets that kind's mask constant.
pub proof fn law_takes_is_a_mask_test(flags: u64, tag: ServoEmbedderControlTag)
    ensures
        takes(flags, tag) <==> flags & tag.spec_flag() != 0,
{
    assert(forall|j: u32| #![trigger flags >> j]
        j < 64 ==> (((flags >> j) & 1 == 1) <==> flags & (1u64 << j) != 0)) by (bit_vector);
}

/// The union of two masks selects what either of them selects.
pub proof fn law_union_takes_either(a: u64, b: u64, tag: ServoEmbedderControlTag)
    ensures
        takes(a | b, tag) <==> takes(a, tag) || takes(b, tag),
{
    assert(forall|j: u32| #![trigger (a | b) >> j]
        j < 64 ==> ((((a | b) >> j) & 1 == 1) <==> ((a >> j) & 1 == 1) || ((b >> j) & 1 == 1)))
        by (bit_vector);
}

/// The empty mask selects nothing.
pub proof fn law_none_takes_nothing(tag: ServoEmbedderControlTag)
    ensures
        !takes(SERVO_EMBEDDER_CONTROL_NONE, tag),
{
    assert(forall|j: u32| #![trigger 0u64 >> j] j < 64 ==> (0u64 >> j) & 1 != 1) by (bit_vector);
}

/// The full mask selects every kind of control, and holds every one of its low 32 bits, so that
/// it selects the numbers up to 32 that are not assigned yet as well.
pub proof fn law_all_takes_every_tag(tag: ServoEmbedderControlTag, bit: u32)
    ensures
        takes(SERVO_EMBEDDER_CONTROL_ALL, tag),
        bit < 32 ==> bit_set(SERVO_EMBEDDER_CONTROL_ALL, bit),
{
    assert(forall|j: u32| #![trigger 0xFFFF_FFFFu64 >> j] j < 32 ==> (0xFFFF_FFFFu64 >> j) & 1 == 1)
        by (bit_vector);
}

} // verus!
