use vstd::prelude::*;

verus! {

/// The two bytes of `value` in network (big-endian) order.
pub open spec fn be_bytes(value: u16) -> Seq<u8> {
    seq![(value / 256) as u8, (value % 256) as u8]
}

/// The number that two bytes spell in network (big-endian) order.
pub open spec fn be_value(high: u8, low: u8) -> u16 {
    (high as int * 256 + low as int) as u16
}

/// The header that a sequence of 16-bit fields is sent as: each field's two
/// big-endian bytes, one field after the other.
pub open spec fn header_bytes(values: Seq<u16>) -> Seq<u8>
    decreases values.len(),
{
    if values.len() == 0 {
        Seq::empty()
    } else {
        header_bytes(values.drop_last()) + be_bytes(values.last())
    }
}

/// Reading back the two bytes that a field is written as gives the field.
pub proof fn lemma_be_roundtrip(value: u16)
    ensures
        be_value(be_bytes(value)[0], be_bytes(value)[1]) == value,
{
}

/// The header of `n` fields is `2 * n` bytes long, and field `i` stands at
/// bytes `2 * i` and `2 * i + 1`.
pub proof fn lemma_header_layout(values: Seq<u16>)
    ensures
        header_bytes(values).len() == 2 * values.len(),
        forall|i: int|
            0 <= i < values.len() ==> {
                &&& #[trigger] header_bytes(values)[2 * i] == be_bytes(values[i])[0]
                &&& header_bytes(values)[2 * i + 1] == be_bytes(values[i])[1]
            },
    decreases values.len(),
{
    if values.len() > 0 {
        let prefix = values.drop_last();
        lemma_header_layout(prefix);
        let n = values.len() - 1;
        assert forall|i: int| 0 <= i < values.len() implies {
            &&& #[trigger] header_bytes(values)[2 * i] == be_bytes(values[i])[0]
            &&& header_bytes(values)[2 * i + 1] == be_bytes(values[i])[1]
        } by {
            if i < n {
                assert(prefix[i] == values[i]);
                assert(header_bytes(prefix)[2 * i] == be_bytes(prefix[i])[0]);
            }
        }
    }
}

/// Reading field `i` back out of a header, as two big-endian bytes at
/// `2 * i`, gives the field that was written there.
pub proof fn lemma_header_readback(values: Seq<u16>, i: int)
    requires
        0 <= i < values.len(),
    ensures
        2 * i + 1 < header_bytes(values).len(),
        be_value(header_bytes(values)[2 * i], header_bytes(values)[2 * i + 1]) == values[i],
{
    lemma_header_layout(values);
    lemma_be_roundtrip(values[i]);
}

/// Writes `values` as a header: the big-endian bytes of each field, in order.
pub fn parse_header(values: &Vec<u16>) -> (header: Vec<u8>)
    ensures
        header@ == header_bytes(values@),
        header@.len() == 2 * values@.len(),
        forall|i: int|
            0 <= i < values@.len() ==> {
                &&& #[trigger] header@[2 * i] == (values@[i] / 256) as u8
                &&& header@[2 * i + 1] == (values@[i] % 256) as u8
            },
{
    let mut header: Vec<u8> = Vec::new();
    let mut i: usize = 0;
    while i < values.len()
        invariant
            i <= values.len(),
            header@ == header_bytes(values@.subrange(0, i as int)),
        decreases values.len() - i,
    {
        let value: u16 = values[i];
        header.push((value / 256) as u8);
        header.push((value % 256) as u8);
        proof {
            assert(values@.subrange(0, i + 1).drop_last() =~= values@.subrange(0, i as int));
        }
        i = i + 1;
    }
    proof {
        assert(values@.subrange(0, values@.len() as int) =~= values@);
        lemma_header_layout(values@);
    }
    header
}

} // verus!
