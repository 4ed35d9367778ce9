//! The bytes exchanged with the detection engine process: the binary encoding
//! of a chunk written to its input, and the text line read from its output.

use vstd::prelude::*;
use vstd::utf8::{decode_utf8, valid_utf8};

verus! {

/// The byte that ends a response line.
pub const NEWLINE: u8 = 0x0a;

/// A sample as an unsigned 16-bit word in two's complement.
pub open spec fn sample_word(sample: i16) -> int {
    if sample >= 0 {
        sample as int
    } else {
        sample + 0x1_0000
    }
}

/// The two bytes of a sample on the wire, low byte first.
pub open spec fn sample_bytes(sample: i16) -> Seq<u8> {
    seq![(sample_word(sample) % 256) as u8, (sample_word(sample) / 256) as u8]
}

/// The encoding of a chunk: the bytes of its samples one after the other, with
/// no length in front and no delimiter behind.
pub open spec fn payload_of(samples: Seq<i16>) -> Seq<u8> {
    Seq::new(2 * samples.len(), |i: int| sample_bytes(samples[i / 2])[i % 2])
}

/// Adding a sample to a chunk adds its two bytes to the encoding.
pub proof fn lemma_payload_push(samples: Seq<i16>, sample: i16)
    ensures
        payload_of(samples.push(sample)) == payload_of(samples) + sample_bytes(sample),
{
    assert(payload_of(samples.push(sample)) =~= payload_of(samples) + sample_bytes(sample));
}

/// `bincode::serialize` on one `i16`. With the options that this function
/// uses (fixed-width integers, little endian, no size limit) the call cannot
/// fail and yields the two bytes of the sample's 16-bit word, low byte first.
#[verifier::external_body]
fn serialize_sample(sample: i16) -> (bytes: Option<Vec<u8>>)
    ensures
        bytes is Some,
        bytes matches Some(encoded) ==> encoded@ == sample_bytes(sample),
{
    bincode::serialize(&sample).ok()
}

/// Encodes a chunk for the engine's input stream.
pub fn encode_chunk(samples: &[i16]) -> (payload: Vec<u8>)
    ensures
        payload@ == payload_of(samples@),
{
    let mut payload: Vec<u8> = Vec::new();
    let mut i: usize = 0;
    proof {
        assert(payload@ =~= payload_of(samples@.take(0)));
    }
    while i < samples.len()
        invariant
            i <= samples.len(),
            payload@ == payload_of(samples@.take(i as int)),
        decreases samples.len() - i,
    {
        let sample = samples[i];
        proof {
            lemma_payload_push(samples@.take(i as int), sample);
            assert(samples@.take(i as int).push(sample) =~= samples@.take(i + 1));
        }
        match serialize_sample(sample) {
            Some(encoded) => {
                payload.push(encoded[0]);
                payload.push(encoded[1]);
                assert(payload@ =~= payload_of(samples@.take(i as int)) + sample_bytes(sample));
            },
            None => {
                assert(false);
            },
        }
        i = i + 1;
    }
    proof {
        assert(samples@.take(samples.len() as int) =~= samples@);
    }
    payload
}

/// Whether the bytes read from the engine's output end a line: there is at
/// least one byte and the last one is a newline.
pub open spec fn is_line(bytes: Seq<u8>) -> bool {
    bytes.len() > 0 && bytes.last() == NEWLINE
}

/// A line without the newline that ends it.
pub open spec fn line_body(bytes: Seq<u8>) -> Seq<u8> {
    bytes.drop_last()
}

/// Whether the body of a line is one line of text: it holds no further
/// newline and is valid UTF-8.
pub open spec fn is_text(body: Seq<u8>) -> bool {
    !body.contains(NEWLINE) && valid_utf8(body)
}

/// How a read from the engine's output went wrong.
#[derive(Clone, Copy, Debug, PartialEq, Eq)]
pub enum LineError {
    /// The stream ended before a whole line had arrived.
    Incomplete,
    /// A whole line arrived, but it is not one line of UTF-8 text.
    Malformed,
}

/// What the bytes read from the engine's output say: the text of the one line
/// they hold, or why they are not one line of text.
pub open spec fn line_text(bytes: Seq<u8>) -> Result<Seq<char>, LineError> {
    if !is_line(bytes) {
        Err(LineError::Incomplete)
    } else if !is_text(line_body(bytes)) {
        Err(LineError::Malformed)
    } else {
        Ok(decode_utf8(line_body(bytes)))
    }
}

/// `String::from_utf8`: the string that the bytes encode, when and only when
/// they are valid UTF-8.
#[verifier::external_body]
fn utf8_string(bytes: Vec<u8>) -> (text: Option<String>)
    ensures
        text is Some <==> valid_utf8(bytes@),
        text matches Some(s) ==> s@ == decode_utf8(bytes@),
{
    String::from_utf8(bytes).ok()
}

/// Whether a byte occurs in a slice.
fn has_byte(bytes: &Vec<u8>, byte: u8) -> (found: bool)
    ensures
        found == bytes@.contains(byte),
{
    let mut i: usize = 0;
    while i < bytes.len()
        invariant
            i <= bytes.len(),
            !bytes@.take(i as int).contains(byte),
        decreases bytes.len() - i,
    {
        if bytes[i] == byte {
            return true;
        }
        proof {
            let seen = bytes@.take(i as int);
            let next = bytes@.take(i + 1);
            assert forall|j: int| 0 <= j < next.len() implies next[j] != byte by {
                if j < i {
                    assert(seen[j] == next[j]);
                    assert(seen.contains(seen[j]));
                }
            }
        }
        i = i + 1;
    }
    proof {
        assert(bytes@.take(bytes.len() as int) =~= bytes@);
    }
    false
}

/// Reads the response line out of the bytes that a read up to the next
/// newline gave.
pub fn parse_line(bytes: Vec<u8>) -> (text: Result<String, LineError>)
    ensures
        match line_text(bytes@) {
            Ok(chars) => text matches Ok(s) && s@ == chars,
            Err(error) => text == Err::<String, LineError>(error),
        },
{
    let mut body = bytes;
    match body.pop() {
        None => Err(LineError::Incomplete),
        Some(last) => {
            assert(body@ =~= line_body(bytes@));
            if last != NEWLINE {
                Err(LineError::Incomplete)
            } else if has_byte(&body, NEWLINE) {
                Err(LineError::Malformed)
            } else {
                match utf8_string(body) {
                    Some(s) => Ok(s),
                    None => Err(LineError::Malformed),
                }
            }
        },
    }
}

} // verus!
