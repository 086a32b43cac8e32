use vstd::prelude::*;

use vstd::utf8::{decode_utf8, valid_utf8};

use crate::error::RewriteError;

verus! {

#[verifier::external_type_specification]
#[verifier::external_body]
pub struct ExDecoder(encoding_rs::Decoder);

// The bytes that a decoder made by `encoding_rs::UTF_8.new_decoder()` has
// taken in since it was made, in order; `None` for any other decoder.
pub uninterp spec fn utf8_decoder_input(d: encoding_rs::Decoder) -> Option<Seq<u8>>;

// What `Decoder::max_utf8_buffer_length` gives for `byte_length` more bytes
// on such a decoder once it has taken in `input`.
pub uninterp spec fn utf8_output_bound(input: Seq<u8>, byte_length: nat) -> Option<usize>;

// All the text that such a decoder has written once it has taken in exactly
// `input`, through decode calls that do not end the stream: the UTF-8
// decoding of `input` after BOM sniffing, with malformed sequences replaced
// by U+FFFD and an incomplete sequence at the end held back.
pub uninterp spec fn utf8_stream_text(input: Seq<u8>) -> Seq<char>;

/// Whether `bytes` begins with the UTF-8 byte-order mark, which BOM sniffing
/// removes.
pub open spec fn starts_with_utf8_bom(bytes: Seq<u8>) -> bool {
    bytes.len() >= 3 && bytes[0] == 0xEF && bytes[1] == 0xBB && bytes[2] == 0xBF
}

/// Trusted: calls `encoding_rs::Encoding::new_decoder` on `encoding_rs::UTF_8`,
/// which makes a fresh streaming UTF-8 decoder with BOM sniffing. The
/// contract claims that it has taken in no bytes and so has written no text.
#[verifier::external_body]
fn new_utf8_decoder() -> (d: encoding_rs::Decoder)
    ensures
        utf8_decoder_input(d) == Some(Seq::<u8>::empty()),
        utf8_stream_text(utf8_decoder_input(d)->0) == Seq::<char>::empty(),
{
    encoding_rs::UTF_8.new_decoder()
}

/// Trusted: calls `encoding_rs::Decoder::max_utf8_buffer_length`, the output
/// size that, by its documentation, keeps a decode of `byte_length` more
/// bytes from running out of room. The contract names that value for a
/// UTF-8 decoder and claims, from the source (`lib.rs`, `utf_8.rs`,
/// `utf_16.rs`: at most three output bytes per input byte plus a small
/// constant, in every state such a decoder can reach), that it is there
/// whenever `byte_length` is at most an eighth of `usize::MAX`.
#[verifier::external_body]
fn max_utf8_buffer_length(decoder: &encoding_rs::Decoder, byte_length: usize) -> (n: Option<usize>)
    ensures
        utf8_decoder_input(*decoder) matches Some(input) ==> n == utf8_output_bound(
            input,
            byte_length as nat,
        ) && (byte_length <= usize::MAX / 8 ==> n is Some),
{
    decoder.max_utf8_buffer_length(byte_length)
}

/// Trusted: calls `encoding_rs::Decoder::decode_to_utf8` on the whole of
/// `dst` with `last` set to false. By its documentation, an output buffer of
/// at least `max_utf8_buffer_length` (and at least four) bytes means it
/// takes in all of `src`; what it writes is valid UTF-8 made of complete
/// characters. The contract claims that, that the text written extends the
/// stream's text by the decoding of `src`, and that a stream of valid UTF-8
/// without a leading byte-order mark decodes to exactly its characters.
#[verifier::external_body]
fn decode_to_utf8(decoder: &mut encoding_rs::Decoder, src: &[u8], dst: &mut Vec<u8>) -> (written:
    usize)
    requires
        utf8_decoder_input(*old(decoder)) is Some,
        old(dst)@.len() >= 4,
        utf8_output_bound(utf8_decoder_input(*old(decoder))->0, src@.len()) matches Some(bound)
            && old(dst)@.len() >= bound,
    ensures
        final(dst)@.len() == old(dst)@.len(),
        written <= final(dst)@.len(),
        valid_utf8(final(dst)@.subrange(0, written as int)),
        utf8_decoder_input(*final(decoder)) == Some(utf8_decoder_input(*old(decoder))->0 + src@),
        utf8_stream_text(utf8_decoder_input(*final(decoder))->0) == utf8_stream_text(
            utf8_decoder_input(*old(decoder))->0,
        ) + decode_utf8(final(dst)@.subrange(0, written as int)),
        valid_utf8(utf8_decoder_input(*final(decoder))->0) && !starts_with_utf8_bom(
            utf8_decoder_input(*final(decoder))->0,
        ) ==> utf8_stream_text(utf8_decoder_input(*final(decoder))->0) == decode_utf8(
            utf8_decoder_input(*final(decoder))->0,
        ),
{
    let (_result, _read, written, _replaced) = decoder.decode_to_utf8(src, dst.as_mut_slice(), false);
    written
}

/// Trusted: calls `String::from_utf8`, which by its documentation succeeds
/// exactly on valid UTF-8 and then holds the characters the bytes encode.
#[verifier::external_body]
fn string_from_utf8(bytes: Vec<u8>) -> (s: Option<String>)
    ensures
        s is Some <==> valid_utf8(bytes@),
        s matches Some(text) ==> text@ == decode_utf8(bytes@),
{
    String::from_utf8(bytes).ok()
}

/// Turns the bytes of generated tokens into text, keeping incomplete UTF-8
/// sequences for the next token. Beside the decoder it records, as ghost
/// state, every byte the decoder has taken in.
pub struct PieceDecoder {
    decoder: encoding_rs::Decoder,
    fed: Ghost<Seq<u8>>,
}

/// What a piece decoder has been through: the bytes its decoder took in, in
/// order. The text it has handed out is `utf8_stream_text` of them.
pub struct PieceDecoderView {
    pub fed: Seq<u8>,
}

impl View for PieceDecoder {
    type V = PieceDecoderView;

    closed spec fn view(&self) -> PieceDecoderView {
        PieceDecoderView { fed: self.fed@ }
    }
}

impl PieceDecoder {
    /// The ghost record is the decoder's own input.
    pub closed spec fn wf(&self) -> bool {
        utf8_decoder_input(self.decoder) == Some(self.fed@)
    }

    /// A decoder that has taken in no bytes and handed out no text.
    pub fn new() -> (d: PieceDecoder)
        ensures
            d.wf(),
            d@.fed == Seq::<u8>::empty(),
            utf8_stream_text(d@.fed) == Seq::<char>::empty(),
    {
        PieceDecoder { decoder: new_utf8_decoder(), fed: Ghost(Seq::empty()) }
    }

    /// Decodes the bytes of one generated token, with room for the
    /// worst-case output. Every byte goes into the decoder, and the text it
    /// writes is handed out: the stream's text so far grows by exactly that
    /// text, which is `None` when the bytes write nothing yet (an incomplete
    /// UTF-8 sequence waits for the next token). A stream of valid UTF-8
    /// without a leading byte-order mark comes out as exactly its characters.
    /// Fails, changing nothing, only when the decoder gives no output bound,
    /// which cannot happen for a piece of at most an eighth of `usize::MAX`
    /// bytes.
    pub fn decode(&mut self, bytes: &[u8]) -> (r: Result<Option<String>, RewriteError>)
        requires
            old(self).wf(),
        ensures
            final(self).wf(),
            r is Ok <==> utf8_output_bound(old(self)@.fed, bytes@.len()) is Some,
            bytes@.len() <= usize::MAX / 8 ==> r is Ok,
            r matches Err(e) ==> e == RewriteError::PieceNotDecoded && final(self)@ == old(self)@,
            r is Ok ==> final(self)@.fed == old(self)@.fed + bytes@,
            r matches Ok(Some(text)) ==> text@.len() > 0 && utf8_stream_text(final(self)@.fed)
                == utf8_stream_text(old(self)@.fed) + text@,
            r matches Ok(None) ==> utf8_stream_text(final(self)@.fed) == utf8_stream_text(
                old(self)@.fed,
            ),
            r is Ok && valid_utf8(final(self)@.fed) && !starts_with_utf8_bom(final(self)@.fed)
                ==> utf8_stream_text(final(self)@.fed) == decode_utf8(final(self)@.fed),
    {
        let bound = match max_utf8_buffer_length(&self.decoder, bytes.len()) {
            Some(n) => n,
            None => {
                return Err(RewriteError::PieceNotDecoded);
            },
        };
        let size = if bound < 4 {
            4
        } else {
            bound
        };
        let mut buffer: Vec<u8> = vec![0u8; size];
        let written = decode_to_utf8(&mut self.decoder, bytes, &mut buffer);
        proof {
            self.fed@ = self.fed@ + bytes@;
        }
        buffer.truncate(written);
        let text = match string_from_utf8(buffer) {
            Some(text) => text,
            None => {
                proof {
                    assert(false);
                }
                return Err(RewriteError::PieceNotDecoded);
            },
        };
        if text.as_str().is_empty() {
            proof {
                assert(text@ =~= Seq::<char>::empty());
                assert(utf8_stream_text(self.fed@) =~= utf8_stream_text(old(self).fed@));
            }
            Ok(None)
        } else {
            Ok(Some(text))
        }
    }
}

} // verus!
