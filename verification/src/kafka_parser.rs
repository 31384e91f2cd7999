use vstd::prelude::*;
use vstd::utf8::{valid_utf8, decode_utf8, encode_utf8, encode_utf8_valid_utf8, encode_utf8_decode_utf8, decode_utf8_encode_utf8};
use crate::kafka_source::KafkaMessage;
use crate::message::TxMessage;
use crate::status::Status;

verus! {

/// The error `serde_json` reports for text that is not a status document.
#[verifier::external_type_specification]
#[verifier::external_body]
pub struct ExSerdeJsonError(serde_json::Error);

/// Why a Kafka record could not be read as a status.
#[derive(Debug)]
pub enum ParseError {
    Utf8Err(Utf8Failure),
    SerdeErr(serde_json::Error),
}

/// Why bytes are not UTF-8, as `String::from_utf8` reports it: the bytes
/// themselves, the length of their longest prefix that is valid UTF-8, and
/// the length of the invalid sequence that follows that prefix (none when the
/// bytes end in the middle of a character).
#[derive(Debug, PartialEq, Eq)]
pub struct Utf8Failure {
    pub bytes: Vec<u8>,
    pub valid_up_to: usize,
    pub error_len: Option<usize>,
}

/// The mathematical value of a [`Utf8Failure`].
pub struct Utf8FailureView {
    pub bytes: Seq<u8>,
    pub valid_up_to: int,
    pub error_len: Option<usize>,
}

impl View for Utf8Failure {
    type V = Utf8FailureView;

    open spec fn view(&self) -> Utf8FailureView {
        Utf8FailureView {
            bytes: self.bytes@,
            valid_up_to: self.valid_up_to as int,
            error_len: self.error_len,
        }
    }
}

/// `k` is the length of the longest prefix of `bytes` that is valid UTF-8.
pub open spec fn is_longest_valid_prefix(bytes: Seq<u8>, k: int) -> bool {
    &&& 0 <= k <= bytes.len()
    &&& valid_utf8(bytes.take(k))
    &&& forall|j: int| k < j <= bytes.len() ==> !valid_utf8(#[trigger] bytes.take(j))
}

/// The length of the longest prefix of `bytes` that is valid UTF-8.
pub open spec fn longest_valid_prefix(bytes: Seq<u8>) -> int {
    choose|k: int| is_longest_valid_prefix(bytes, k)
}

/// The length std reports (`Utf8Error::error_len`) of the invalid sequence
/// that follows the longest valid prefix of bytes that are not UTF-8.
pub uninterp spec fn utf8_error_len(bytes: Seq<u8>) -> Option<usize>;

/// What reading `bytes` as UTF-8 gives: the text, or why it fails.
pub open spec fn decode_body(bytes: Seq<u8>) -> Result<Seq<char>, Utf8FailureView> {
    if valid_utf8(bytes) {
        Ok(decode_utf8(bytes))
    } else {
        Err(
            Utf8FailureView {
                bytes,
                valid_up_to: longest_valid_prefix(bytes),
                error_len: utf8_error_len(bytes),
            },
        )
    }
}

/// There is only one longest valid prefix.
proof fn lemma_longest_valid_prefix_unique(bytes: Seq<u8>, k: int)
    requires
        is_longest_valid_prefix(bytes, k),
    ensures
        longest_valid_prefix(bytes) == k,
{
    let c = longest_valid_prefix(bytes);
    assert(is_longest_valid_prefix(bytes, c));
    if c < k {
        assert(!valid_utf8(bytes.take(k)));
    } else if k < c {
        assert(!valid_utf8(bytes.take(c)));
    }
}

/// Decodes `bytes` as UTF-8 text: `String::from_utf8`, with its error taken
/// apart by `FromUtf8Error::utf8_error`, `Utf8Error::valid_up_to`,
/// `Utf8Error::error_len` and `FromUtf8Error::into_bytes`.
///
/// Trusted: std documents that `from_utf8` returns the text the bytes encode
/// when they are valid UTF-8 and an error otherwise; the contract states this
/// with vstd's UTF-8 definitions (no overlong forms, no surrogates, nothing
/// above U+10FFFF). Of the error std documents that `into_bytes` gives back
/// the bytes that were passed in and that `valid_up_to` is the largest index
/// up to which the bytes decode; `error_len` is a function of the bytes and
/// is named, not stated.
#[verifier::external_body]
fn string_from_utf8(bytes: Vec<u8>) -> (text: Result<String, Utf8Failure>)
    ensures
        text is Ok <==> valid_utf8(bytes@),
        text matches Ok(s) ==> s@ == decode_utf8(bytes@),
        text matches Err(f) ==> f.bytes@ == bytes@ && is_longest_valid_prefix(
            bytes@,
            f.valid_up_to as int,
        ) && f.error_len == utf8_error_len(bytes@),
{
    match String::from_utf8(bytes) {
        Ok(text) => Ok(text),
        Err(err) => Err(Utf8Failure {
            valid_up_to: err.utf8_error().valid_up_to(),
            error_len: err.utf8_error().error_len(),
            bytes: err.into_bytes(),
        }),
    }
}

/// Any text, written out as UTF-8, is valid UTF-8 and decodes to itself.
pub proof fn law_utf8_text_round_trips(text: Seq<char>)
    ensures
        valid_utf8(encode_utf8(text)),
        decode_utf8(encode_utf8(text)) == text,
{
    encode_utf8_valid_utf8(text);
    encode_utf8_decode_utf8(text);
}

proof fn lemma_a_longest_valid_prefix_exists(bytes: Seq<u8>, j: int)
    requires
        0 <= j <= bytes.len(),
    ensures
        exists|k: int|
            0 <= k <= j && valid_utf8(#[trigger] bytes.take(k)) && forall|m: int|
                k < m <= j ==> !valid_utf8(#[trigger] bytes.take(m)),
    decreases j,
{
    if valid_utf8(bytes.take(j)) {
        assert(0 <= j <= j && valid_utf8(bytes.take(j)));
    } else if j == 0 {
        assert(bytes.take(0).len() == 0);
    } else {
        lemma_a_longest_valid_prefix_exists(bytes, j - 1);
        let k = choose|k: int|
            0 <= k <= j - 1 && valid_utf8(#[trigger] bytes.take(k)) && forall|m: int|
                k < m <= j - 1 ==> !valid_utf8(#[trigger] bytes.take(m));
        assert(forall|m: int| k < m <= j ==> !valid_utf8(#[trigger] bytes.take(m)));
    }
}

/// Reading a body as UTF-8 loses nothing and invents nothing: it succeeds
/// exactly on valid UTF-8, and then the text, written out as UTF-8 again, is
/// the body byte for byte. A failure hands back the body itself, with the
/// length of its longest valid prefix, which falls short of the whole body.
pub proof fn law_decoding_is_faithful(body: Seq<u8>)
    ensures
        decode_body(body) is Ok <==> valid_utf8(body),
        decode_body(body) matches Ok(text) ==> encode_utf8(text) == body,
        decode_body(body) matches Err(f) ==> {
            &&& f.bytes == body
            &&& 0 <= f.valid_up_to < body.len()
            &&& valid_utf8(body.take(f.valid_up_to))
            &&& forall|j: int| f.valid_up_to < j <= body.len() ==> !valid_utf8(#[trigger] body.take(j))
        },
{
    if valid_utf8(body) {
        decode_utf8_encode_utf8(body);
    } else {
        lemma_a_longest_valid_prefix_exists(body, body.len() as int);
        let k = choose|k: int|
            0 <= k <= body.len() && valid_utf8(#[trigger] body.take(k)) && forall|m: int|
                k < m <= body.len() ==> !valid_utf8(#[trigger] body.take(m));
        assert(is_longest_valid_prefix(body, k));
        lemma_longest_valid_prefix_unique(body, k);
        assert(body.take(body.len() as int) =~= body);
    }
}

/// Reads the bodies of Kafka records as status documents and passes each
/// status on to the `S`s, and each failure to the `E`.
pub struct KafkaParser<S, E> {
    status_recipients: Vec<S>,
    error_recipient: E,
}

impl<S, E> KafkaParser<S, E> {
    pub closed spec fn spec_status_recipients(&self) -> Seq<S> {
        self.status_recipients@
    }

    pub closed spec fn spec_error_recipient(&self) -> E {
        self.error_recipient
    }

    pub fn new(status_recipients: Vec<S>, error_recipient: E) -> (parser: Self)
        ensures
            parser.spec_status_recipients() == status_recipients@,
            parser.spec_error_recipient() == error_recipient,
    {
        Self { status_recipients, error_recipient }
    }

    /// Those who receive every status read.
    pub fn status_recipients(&self) -> (r: &Vec<S>)
        ensures
            r@ == self.spec_status_recipients(),
    {
        &self.status_recipients
    }

    /// The one who receives every failure.
    pub fn error_recipient(&self) -> (r: &E)
        ensures
            *r == self.spec_error_recipient(),
    {
        &self.error_recipient
    }

    /// The first half of reading a record: its body as text, to be parsed as
    /// a status document, or the failure to send to the error recipient,
    /// under the record's transaction id either way.
    pub fn handle(&self, msg: TxMessage<KafkaMessage>) -> (decoded: Result<TxMessage<String>, TxMessage<ParseError>>)
        ensures
            decoded is Ok <==> valid_utf8(msg.msg.body@),
            decoded matches Ok(m) ==> encode_utf8(m.msg@) == msg.msg.body@,
            decoded matches Ok(m) ==> m.id@ == msg.id@ && decode_body(msg.msg.body@) == Ok::<
                Seq<char>,
                Utf8FailureView,
            >(m.msg@),
            decoded matches Err(e) ==> e.id@ == msg.id@ && (e.msg matches ParseError::Utf8Err(f)
                && decode_body(msg.msg.body@) == Err::<Seq<char>, Utf8FailureView>(f@)),
    {
        let TxMessage { msg: record, id } = msg;
        let status_bytes: Vec<u8> = record.body;
        match string_from_utf8(status_bytes) {
            Ok(s) => {
                proof {
                    law_decoding_is_faithful(msg.msg.body@);
                }
                Ok(TxMessage { msg: s, id })
            },
            Err(err) => {
                proof {
                    lemma_longest_valid_prefix_unique(msg.msg.body@, err.valid_up_to as int);
                }
                Err(TxMessage { msg: ParseError::Utf8Err(err), id })
            },
        }
    }

    /// The second half of reading a record: the status parsed from its text,
    /// to be sent to every status recipient, or the parse failure to send to
    /// the error recipient, under the record's transaction id either way.
    pub fn accept_parsed(&self, parsed: TxMessage<Result<Status, serde_json::Error>>) -> (routed: Result<TxMessage<Status>, TxMessage<ParseError>>)
        ensures
            routed is Ok <==> parsed.msg is Ok,
            routed matches Ok(m) ==> m.id@ == parsed.id@ && parsed.msg == Ok::<Status, serde_json::Error>(m.msg),
            routed matches Err(e) ==> e.id@ == parsed.id@ && (parsed.msg matches Err(err) && e.msg == ParseError::SerdeErr(err)),
    {
        let TxMessage { msg: result, id } = parsed;
        match result {
            Ok(status) => Ok(TxMessage { msg: status, id }),
            Err(err) => Err(TxMessage { msg: ParseError::SerdeErr(err), id }),
        }
    }
}

} // verus!
