use vstd::prelude::*;

verus! {

/// The byte a Ruby integer stands for when it is put into a byte ring: its
/// lowest eight bits, that is the integer modulo 256.
pub open spec fn byte_of(value: int) -> u8 {
    (value % 256) as u8
}

/// What a byte sender is handed to send.
pub enum ByteInput {
    /// The raw bytes of a string.
    Text(Vec<u8>),
    /// An array of integers, one byte each.
    Integers(Vec<i64>),
    /// Anything else, which cannot be sent.
    Other,
}

/// Why a byte payload could not be made.
#[derive(Clone, Copy, Debug, PartialEq, Eq, Structural)]
pub enum PayloadError {
    /// The input was neither a string nor an array of integers.
    ExpectedStringOrIntegers,
}

/// The bytes that `input` is sent as, or why it cannot be sent.
pub open spec fn payload_of(input: ByteInput) -> Result<Seq<u8>, PayloadError> {
    match input {
        ByteInput::Text(bytes) => Ok(bytes@),
        ByteInput::Integers(values) => Ok(values@.map_values(|v: i64| byte_of(v as int))),
        ByteInput::Other => Err(PayloadError::ExpectedStringOrIntegers),
    }
}

/// A string is sent verbatim: every byte, in order, none added or dropped.
pub proof fn lemma_text_sent_verbatim(text: Vec<u8>)
    ensures
        payload_of(ByteInput::Text(text)) == Ok::<Seq<u8>, PayloadError>(text@),
{
}

/// An array of integers is sent as exactly one byte per element, in order,
/// each the element modulo 256.
pub proof fn lemma_integers_one_byte_each(values: Vec<i64>)
    ensures
        payload_of(ByteInput::Integers(values)) is Ok,
        payload_of(ByteInput::Integers(values))->Ok_0.len() == values@.len(),
        forall|i: int|
            0 <= i < values@.len() ==> #[trigger] payload_of(ByteInput::Integers(values))->Ok_0[i] as int
                == values@[i] as int % 256,
{
    let bytes = payload_of(ByteInput::Integers(values))->Ok_0;
    assert forall|i: int| 0 <= i < values@.len() implies #[trigger] bytes[i] as int == values@[i] as int % 256 by {
        lemma_byte_of_is_remainder(values@[i] as int);
    }
}

/// Any other input is refused, and only that.
pub proof fn lemma_only_other_refused(input: ByteInput)
    ensures
        payload_of(input) is Err <==> input is Other,
{
}

/// The byte an integer is sent as is the integer's remainder modulo 256.
pub proof fn lemma_byte_of_is_remainder(value: int)
    ensures
        byte_of(value) as int == value % 256,
        0 <= byte_of(value) < 256,
{
}

/// The byte that an integer is sent as: the integer modulo 256, so that
/// 256 becomes 0 and -1 becomes 255.
pub fn byte_from_int(value: i64) -> (byte: u8)
    ensures
        byte == byte_of(value as int),
        byte == value as u8,
        byte as int == value as int % 256,
{
    let r: i64 = value % 256;
    let m: i64 = if r < 0 { r + 256 } else { r };
    proof { lemma_byte_of_is_truncation(value); }
    m as u8
}

/// Taking an integer modulo 256 gives the same byte as the truncating cast.
pub proof fn lemma_byte_of_is_truncation(value: i64)
    ensures
        byte_of(value as int) == value as u8,
{
    assert((value % 256) as u8 == value as u8) by (bit_vector);
}

/// An integer that already fits in a byte is sent as itself.
pub proof fn lemma_byte_sized_int_kept(value: int)
    requires
        0 <= value < 256,
    ensures
        byte_of(value) == value,
{
}

/// The bytes that an array of integers is sent as, one per integer, in order.
pub fn bytes_from_ints(values: &[i64]) -> (bytes: Vec<u8>)
    ensures
        bytes@ == values@.map_values(|v: i64| byte_of(v as int)),
        bytes@.len() == values@.len(),
        forall|i: int|
            0 <= i < values@.len() ==> #[trigger] bytes@[i] as int == values@[i] as int % 256,
{
    let mut bytes: Vec<u8> = Vec::new();
    let mut i: usize = 0;
    while i < values.len()
        invariant
            i <= values@.len(),
            bytes@ == values@.subrange(0, i as int).map_values(|v: i64| byte_of(v as int)),
        decreases values@.len() - i,
    {
        let b = byte_from_int(values[i]);
        proof {
            assert(values@.subrange(0, i + 1) =~= values@.subrange(0, i as int).push(values@[i as int]));
        }
        bytes.push(b);
        i = i + 1;
        proof {
            assert(bytes@ =~= values@.subrange(0, i as int).map_values(|v: i64| byte_of(v as int)));
        }
    }
    proof {
        assert(values@.subrange(0, values@.len() as int) =~= values@);
    }
    bytes
}

/// The bytes a byte sender puts into the ring for `input`: a string's bytes as
/// they are, an array's integers each modulo 256; any other input is refused.
pub fn byte_payload(input: ByteInput) -> (result: Result<Vec<u8>, PayloadError>)
    ensures
        match (result, payload_of(input)) {
            (Ok(bytes), Ok(expected)) => bytes@ == expected,
            (Err(e), Err(expected)) => e == expected,
            _ => false,
        },
        match input {
            ByteInput::Text(text) => result matches Ok(bytes) && bytes@ == text@,
            ByteInput::Integers(values) => result matches Ok(bytes) && bytes@.len() == values@.len()
                && forall|i: int|
                0 <= i < values@.len() ==> #[trigger] bytes@[i] as int == values@[i] as int % 256,
            ByteInput::Other => result == Err::<Vec<u8>, PayloadError>(
                PayloadError::ExpectedStringOrIntegers,
            ),
        },
{
    match input {
        ByteInput::Text(bytes) => Ok(bytes),
        ByteInput::Integers(values) => Ok(bytes_from_ints(values.as_slice())),
        ByteInput::Other => Err(PayloadError::ExpectedStringOrIntegers),
    }
}

} // verus!
