//! How chunks of bytes travel over the connection between client and daemon.

use vstd::prelude::*;

use tokio_codec::BytesCodec;

verus! {

/// The codec of the `tokio-codec` crate that ships bytes around.
#[verifier::external_type_specification]
#[verifier::external_body]
pub struct ExBytesCodec(tokio_codec::BytesCodec);

/// The error of the standard library's I/O.
#[verifier::external_type_specification]
#[verifier::external_body]
pub struct ExIoError(std::io::Error);

/// Why bytes could not be encoded or decoded.
#[derive(Debug)]
pub enum CodecError {
    /// The underlying codec failed.
    Io(std::io::Error),
}

/// A codec that is just like [`BytesCodec`], but whose error type is this
/// library's.
#[derive(Debug)]
pub struct FailureBytesCodec {
    codec: BytesCodec,
}

/// What a codec finds in a buffer: all that it holds, if it holds anything.
pub open spec fn decoded(buffer: Seq<u8>) -> Option<Seq<u8>> {
    if buffer.len() > 0 {
        Some(buffer)
    } else {
        None
    }
}

/// What a buffer holds once a codec has looked into it: nothing is kept back.
pub open spec fn left_after_decoding(buffer: Seq<u8>) -> Seq<u8> {
    Seq::empty()
}

/// What a buffer holds once a codec has put `item` into it.
pub open spec fn encoded(buffer: Seq<u8>, item: Seq<u8>) -> Seq<u8> {
    buffer + item
}

/// `BytesCodec::new` may be called. Nothing is believed of the codec itself:
/// what it does is stated where it is used.
pub assume_specification[ tokio_codec::BytesCodec::new ]() -> BytesCodec;

/// Calls `tokio_codec::Decoder::decode` of `BytesCodec` on a buffer that holds
/// `src`. Believed of it: it never fails; it takes out all that the buffer
/// holds, and there is an item only if the buffer held something.
#[verifier::external_body]
fn bytes_codec_decode(codec: &mut BytesCodec, src: &mut Vec<u8>) -> (r: Result<
    Option<Vec<u8>>,
    std::io::Error,
>)
    ensures
        r matches Ok(item) && (match item {
            Some(bytes) => decoded(old(src)@) == Some(bytes@),
            None => decoded(old(src)@) is None,
        }),
        final(src)@ == left_after_decoding(old(src)@),
{
    let mut buffer = bytes::BytesMut::from(src.as_slice());
    let item = tokio_codec::Decoder::decode(codec, &mut buffer);
    *src = buffer.to_vec();
    Ok(item?.map(|bytes| bytes.to_vec()))
}

/// Calls `tokio_codec::Encoder::encode` of `BytesCodec` on a buffer that holds
/// `dst`. Believed of it: it never fails, and puts `item` behind what the
/// buffer holds. A buffer, like any `Vec`, cannot hold more than `isize::MAX`
/// bytes.
#[verifier::external_body]
fn bytes_codec_encode(codec: &mut BytesCodec, item: Vec<u8>, dst: &mut Vec<u8>) -> (r: Result<
    (),
    std::io::Error,
>)
    requires
        old(dst)@.len() > 0 ==> old(dst)@.len() + item@.len() <= isize::MAX,
    ensures
        r is Ok,
        final(dst)@ == encoded(old(dst)@, item@),
{
    let mut buffer = bytes::BytesMut::from(dst.as_slice());
    let outcome = tokio_codec::Encoder::encode(codec, bytes::Bytes::from(item), &mut buffer);
    *dst = buffer.to_vec();
    outcome
}

impl FailureBytesCodec {
    /// Obtain a new `FailureBytesCodec`. A codec keeps nothing from one call to
    /// the next, so what `decode` and `encode` promise holds of every one.
    pub fn new() -> FailureBytesCodec {
        FailureBytesCodec { codec: BytesCodec::new() }
    }

    /// Take the bytes that have come in out of `src`. There is an item if and
    /// only if some have.
    pub fn decode(&mut self, src: &mut Vec<u8>) -> (r: Result<Option<Vec<u8>>, CodecError>)
        ensures
            r matches Ok(item) && (match item {
                Some(bytes) => decoded(old(src)@) == Some(bytes@),
                None => decoded(old(src)@) is None,
            }),
            final(src)@ == left_after_decoding(old(src)@),
    {
        match bytes_codec_decode(&mut self.codec, src) {
            Ok(item) => Ok(item),
            Err(e) => Err(CodecError::Io(e)),
        }
    }

    /// Put the bytes of `item` behind those that wait in `dst`.
    pub fn encode(&mut self, item: Vec<u8>, dst: &mut Vec<u8>) -> (r: Result<(), CodecError>)
        requires
            old(dst)@.len() > 0 ==> old(dst)@.len() + item@.len() <= isize::MAX,
        ensures
            r is Ok,
            final(dst)@ == encoded(old(dst)@, item@),
    {
        match bytes_codec_encode(&mut self.codec, item, dst) {
            Ok(_) => Ok(()),
            Err(e) => Err(CodecError::Io(e)),
        }
    }
}

/// What was encoded is decoded again, behind what was waiting before it: no
/// bytes are added, dropped or kept back. After that there is nothing more to
/// decode.
pub proof fn law_decode_gives_back_what_was_encoded(buffer: Seq<u8>, item: Seq<u8>)
    requires
        buffer.len() + item.len() > 0,
    ensures
        decoded(encoded(buffer, item)) == Some(buffer + item),
        buffer.len() == 0 ==> decoded(encoded(buffer, item)) == Some(item),
        decoded(left_after_decoding(encoded(buffer, item))) is None,
{
    if buffer.len() == 0 {
        assert(buffer + item =~= item);
    }
}

/// Items that were encoded one behind the other are decoded as one, in order.
pub proof fn law_items_keep_their_order(buffer: Seq<u8>, first: Seq<u8>, second: Seq<u8>)
    requires
        buffer.len() + first.len() + second.len() > 0,
    ensures
        decoded(encoded(encoded(buffer, first), second)) == Some(buffer + first + second),
{
}

} // verus!
