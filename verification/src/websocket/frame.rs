use vstd::prelude::*;

use byteorder::ByteOrder;

use crate::error::SocketError;
use crate::websocket::error_code::{SUCCESS, SYSTEM_ERROR};
use crate::websocket::header_parser::{be_bytes, be_value, header_bytes, parse_header};

verus! {

/// The growable byte buffer that requests and replies travel in.
#[verifier::external_type_specification]
#[verifier::external_body]
pub struct ExBytesMut(bytes::BytesMut);

/// The bytes that a buffer holds, in order.
pub uninterp spec fn buffer_contents(buffer: bytes::BytesMut) -> Seq<u8>;

/// `BytesMut::from(&[u8])`: a fresh buffer that holds a copy of `bytes`.
#[verifier::external_body]
fn buffer_from_slice(bytes: &[u8]) -> (buffer: bytes::BytesMut)
    ensures
        buffer_contents(buffer) == bytes@,
{
    bytes::BytesMut::from(bytes)
}

/// `BytesMut::extend_from_slice`: appends a copy of `bytes` at the end of
/// the buffer (it grows the buffer first, which panics only when the new
/// length overflows; `requires` keeps the length within what can be allocated).
#[verifier::external_body]
fn buffer_extend(buffer: &mut bytes::BytesMut, bytes: &[u8])
    requires
        buffer_contents(*old(buffer)).len() + bytes@.len() <= isize::MAX,
    ensures
        buffer_contents(*final(buffer)) == buffer_contents(*old(buffer)) + bytes@,
{
    buffer.extend_from_slice(bytes)
}

/// `BytesMut`'s `Deref` to `[u8]`: the buffer's bytes as a slice.
#[verifier::external_body]
fn buffer_as_slice(buffer: &bytes::BytesMut) -> (bytes: &[u8])
    ensures
        bytes@ == buffer_contents(*buffer),
{
    &buffer[..]
}

/// `BytesMut::len`: how many bytes the buffer holds.
#[verifier::external_body]
fn buffer_len(buffer: &bytes::BytesMut) -> (len: usize)
    ensures
        len == buffer_contents(*buffer).len(),
{
    buffer.len()
}

/// `BigEndian::read_u16` of the byteorder crate: the number that the first
/// two bytes of `buf` spell in big-endian order (it panics on fewer than two
/// bytes, which `requires` rules out).
#[verifier::external_body]
fn read_be_u16(buf: &[u8]) -> (value: u16)
    requires
        buf@.len() >= 2,
    ensures
        value == be_value(buf@[0], buf@[1]),
{
    byteorder::BigEndian::read_u16(buf)
}

/// What a client's binary request is made of: a command number in the first
/// two bytes (big-endian) and the payload after them; `None` when the frame
/// is too short to hold a command.
pub open spec fn request_parts(data: Seq<u8>) -> Option<(u16, Seq<u8>)> {
    if data.len() < 2 {
        None
    } else {
        Some((be_value(data[0], data[1]), data.subrange(2, data.len() as int)))
    }
}

/// The bytes of the reply frame for `(error_code, cmd, response_data)`: the
/// two fields as a big-endian header, then the data, if any.
pub open spec fn reply_bytes(error_code: u16, cmd: u16, data: Option<Seq<u8>>) -> Seq<u8> {
    header_bytes(seq![error_code, cmd]) + match data {
        Some(d) => d,
        None => Seq::empty(),
    }
}

/// Splits a binary request into its command and a buffer with its payload.
/// A frame of fewer than two bytes has no command and gives `None`.
pub fn decode_request(data: &[u8]) -> (request: Option<(u16, bytes::BytesMut)>)
    ensures
        request is None <==> request_parts(data@) is None,
        request matches Some((cmd, payload)) ==> request_parts(data@) == Some(
            (cmd, buffer_contents(payload)),
        ),
{
    if data.len() >= 2 {
        let cmd = read_be_u16(data);
        let payload = buffer_from_slice(&data[2..data.len()]);
        Some((cmd, payload))
    } else {
        None
    }
}

/// Whether a reply's data is small enough to be framed: the four header
/// bytes and the data together must stay within what can be allocated.
pub fn reply_fits(response_data: &Option<bytes::BytesMut>) -> (fits: bool)
    ensures
        fits == (*response_data matches Some(d) ==> buffer_contents(d).len() + 4 <= isize::MAX),
{
    match response_data {
        Some(d) => buffer_len(d) <= (isize::MAX as usize) - 4,
        None => true,
    }
}

/// Builds the frame that answers a request: the header of `error_code` and
/// `cmd`, followed by the response data when there is any.
pub fn encode_response(error_code: u16, cmd: u16, response_data: Option<bytes::BytesMut>) -> (frame:
    bytes::BytesMut)
    requires
        response_data matches Some(d) ==> buffer_contents(d).len() + 4 <= isize::MAX,
    ensures
        buffer_contents(frame) == reply_bytes(
            error_code,
            cmd,
            match response_data {
                Some(d) => Some(buffer_contents(d)),
                None => None,
            },
        ),
        buffer_contents(frame).len() == 4 + match response_data {
            Some(d) => buffer_contents(d).len(),
            None => 0,
        },
        buffer_contents(frame)[0] == (error_code / 256) as u8,
        buffer_contents(frame)[1] == (error_code % 256) as u8,
        buffer_contents(frame)[2] == (cmd / 256) as u8,
        buffer_contents(frame)[3] == (cmd % 256) as u8,
        buffer_contents(frame).subrange(4, buffer_contents(frame).len() as int) == match response_data {
            Some(d) => buffer_contents(d),
            None => Seq::<u8>::empty(),
        },
{
    let ghost data_bytes: Option<Seq<u8>> = match &response_data {
        Some(d) => Some(buffer_contents(*d)),
        None => None,
    };
    proof {
        lemma_reply_layout(error_code, cmd, data_bytes);
    }
    let mut fields: Vec<u16> = Vec::new();
    fields.push(error_code);
    fields.push(cmd);
    assert(fields@ =~= seq![error_code, cmd]);
    let header = parse_header(&fields);
    proof {
        lemma_two_field_header(error_code, cmd);
    }
    let mut message = buffer_from_slice(header.as_slice());
    match response_data {
        Some(data) => {
            buffer_extend(&mut message, buffer_as_slice(&data));
        },
        None => {
            assert(buffer_contents(message) =~= buffer_contents(message) + Seq::<u8>::empty());
        },
    }
    message
}

/// Every reply frame, whatever its error code, command and data, is the
/// error code's high and low byte, the command's high and low byte, and then
/// exactly the data (nothing when there is none).
pub proof fn lemma_reply_layout(error_code: u16, cmd: u16, data: Option<Seq<u8>>)
    ensures
        reply_bytes(error_code, cmd, data).len() == 4 + match data {
            Some(d) => d.len(),
            None => 0,
        },
        reply_bytes(error_code, cmd, data)[0] == (error_code / 256) as u8,
        reply_bytes(error_code, cmd, data)[1] == (error_code % 256) as u8,
        reply_bytes(error_code, cmd, data)[2] == (cmd / 256) as u8,
        reply_bytes(error_code, cmd, data)[3] == (cmd % 256) as u8,
        reply_bytes(error_code, cmd, data).subrange(4, reply_bytes(error_code, cmd, data).len() as int)
            == match data {
            Some(d) => d,
            None => Seq::<u8>::empty(),
        },
{
    lemma_two_field_header(error_code, cmd);
    let body = match data {
        Some(d) => d,
        None => Seq::<u8>::empty(),
    };
    let frame = reply_bytes(error_code, cmd, data);
    assert(frame =~= be_bytes(error_code) + be_bytes(cmd) + body);
    assert(frame.subrange(4, frame.len() as int) =~= body);
}

/// The header of two fields is four bytes long.
proof fn lemma_two_field_header(first: u16, second: u16)
    ensures
        header_bytes(seq![first, second]) == be_bytes(first) + be_bytes(second),
{
    let fields = seq![first, second];
    assert(fields.drop_last() =~= seq![first]);
    assert(seq![first].drop_last() =~= Seq::<u16>::empty());
    assert(header_bytes(Seq::<u16>::empty()) =~= Seq::<u8>::empty());
    assert(header_bytes(seq![first]) == header_bytes(Seq::<u16>::empty()) + be_bytes(first));
    assert(header_bytes(seq![first]) =~= be_bytes(first));
}

/// What a request's handling turns into for the sender task: success with the
/// handler's data, or the system error code with no data; both carry the
/// request's command.
pub fn response_for(cmd: u16, result: core::result::Result<bytes::BytesMut, SocketError>) -> (reply: (
    u16,
    u16,
    Option<bytes::BytesMut>,
))
    ensures
        reply.1 == cmd,
        result is Ok ==> reply.0 == SUCCESS && reply.2 == Some(result->Ok_0),
        result is Err ==> reply.0 == SYSTEM_ERROR && reply.2 is None,
{
    match result {
        Ok(response_data) => (SUCCESS, cmd, Some(response_data)),
        Err(_) => (SYSTEM_ERROR, cmd, None),
    }
}

/// The reply to a served request is the success code and the command as
/// big-endian bytes, then the handler's data; the reply to a failed request
/// is the system error code and the command, with nothing after them.
pub proof fn lemma_reply_frames(cmd: u16, data: Seq<u8>)
    ensures
        reply_bytes(SUCCESS, cmd, Some(data)) == seq![0u8, 0u8] + be_bytes(cmd) + data,
        reply_bytes(SYSTEM_ERROR, cmd, None) == seq![0u8, 1u8] + be_bytes(cmd),
{
    lemma_two_field_header(SUCCESS, cmd);
    lemma_two_field_header(SYSTEM_ERROR, cmd);
    assert(be_bytes(SUCCESS) =~= seq![0u8, 0u8]);
    assert(be_bytes(SYSTEM_ERROR) =~= seq![0u8, 1u8]);
    assert(reply_bytes(SYSTEM_ERROR, cmd, None) =~= seq![0u8, 1u8] + be_bytes(cmd));
}

/// A request frame is its command's two bytes followed by its payload, so
/// decoding the concatenation gives the two parts back.
pub proof fn lemma_request_roundtrip(cmd: u16, payload: Seq<u8>)
    ensures
        request_parts(be_bytes(cmd) + payload) == Some((cmd, payload)),
{
    let data = be_bytes(cmd) + payload;
    assert(data.subrange(2, data.len() as int) =~= payload);
}

/// Every frame of two bytes or more is its command's bytes followed by its
/// payload: decoding loses nothing.
pub proof fn lemma_request_split(data: Seq<u8>)
    requires
        data.len() >= 2,
    ensures
        request_parts(data) matches Some((cmd, payload)) && be_bytes(cmd) + payload == data,
{
    let cmd = be_value(data[0], data[1]);
    assert((data[0] as int * 256 + data[1] as int) / 256 == data[0] as int);
    assert((data[0] as int * 256 + data[1] as int) % 256 == data[1] as int);
    assert(be_bytes(cmd) + data.subrange(2, data.len() as int) =~= data);
}

} // verus!
