//! A control as it is offered to the embedder.

use vstd::prelude::*;
use vstd::utf8::{encode_utf8, is_ascii_chars};

use crate::tag::ServoEmbedderControlTag;

verus! {

/// A control offered to the embedder: a borrowed view that lives only as long as the call that
/// receives it. The embedder copies whatever it needs to retain.
pub struct ServoEmbedderControl<'a> {
    /// The number of a [`ServoEmbedderControlTag`].
    pub tag: u32,
    /// The origin of the document that triggered this control, as an ASCII serialization. May be
    /// empty. It is passed through unchecked so that the embedder can gate on it.
    pub origin: &'a [u8],
    /// Opaque bytes, or `None` for a null payload of length zero. A control that the engine
    /// originates carries none; the bytes are reserved for controls that the embedder originates.
    pub payload: Option<&'a [u8]>,
}

impl<'a> ServoEmbedderControl<'a> {
    /// Whether this is the control that the engine originates for a tag and an origin: the tag's
    /// number, the bytes of the origin, and no payload.
    pub open spec fn describes(self, tag: ServoEmbedderControlTag, origin: Seq<char>) -> bool {
        &&& self.tag == tag.spec_code()
        &&& self.origin@ == encode_utf8(origin)
        &&& self.payload is None
    }

    /// The control that the engine originates for a tag and an origin.
    pub fn new(tag: ServoEmbedderControlTag, origin: &'a str) -> (control: Self)
        ensures
            control.describes(tag, origin@),
            tag is ContextMenu ==> control.tag == 1,
            tag is Select ==> control.tag == 2,
            tag is FilePicker ==> control.tag == 3,
            tag is WasmImport ==> control.tag == 4,
            tag is WebMcpToolCall ==> control.tag == 5,
            control.origin@ == encode_utf8(origin@),
            control.payload is None,
    {
        ServoEmbedderControl { tag: tag.code(), origin: origin.as_bytes(), payload: None }
    }
}

/// The control that the engine originates carries the number of its kind, whatever the origin, the
/// bytes of the origin, whatever the kind, and no payload; and a control that carries these is the
/// one.
pub proof fn law_originated_control_carries_number_origin_and_no_payload(
    control: ServoEmbedderControl,
    tag: ServoEmbedderControlTag,
    origin: Seq<char>,
)
    ensures
        control.describes(tag, origin) <==> {
            &&& tag is ContextMenu ==> control.tag == 1
            &&& tag is Select ==> control.tag == 2
            &&& tag is FilePicker ==> control.tag == 3
            &&& tag is WasmImport ==> control.tag == 4
            &&& tag is WebMcpToolCall ==> control.tag == 5
            &&& control.origin@ == encode_utf8(origin)
            &&& control.payload is None
        },
{
}

/// The number of a control tells its kind: one control is never that of two kinds, whatever the
/// origins.
pub proof fn law_control_tells_its_kind(
    control: ServoEmbedderControl,
    a: ServoEmbedderControlTag,
    b: ServoEmbedderControlTag,
    origin_a: Seq<char>,
    origin_b: Seq<char>,
)
    requires
        control.describes(a, origin_a),
        control.describes(b, origin_b),
    ensures
        a == b,
        origin_a == origin_b,
{
    vstd::utf8::encode_utf8_decode_utf8(origin_a);
    vstd::utf8::encode_utf8_decode_utf8(origin_b);
}

/// An ASCII origin crosses to the embedder byte for character: the length in bytes is the length
/// of the text, and each byte is the number of its character.
pub proof fn law_ascii_origin_is_one_byte_per_character(
    control: ServoEmbedderControl,
    tag: ServoEmbedderControlTag,
    origin: Seq<char>,
)
    requires
        control.describes(tag, origin),
        is_ascii_chars(origin),
    ensures
        control.origin@.len() == origin.len(),
        forall|i: int|
            #![trigger control.origin@[i]]
            0 <= i < origin.len() ==> control.origin@[i] == origin[i] as u8,
{
    vstd::utf8::is_ascii_chars_encode_utf8(origin);
}

} // verus!
