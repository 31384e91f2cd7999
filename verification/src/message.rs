use vstd::prelude::*;

verus! {

/// A payload travelling through the pipeline together with the transaction id
/// that follows it from the Kafka consumer to every stage downstream.
#[derive(Debug, PartialEq, Eq)]
pub struct TxMessage<T> {
    pub msg: T,
    pub id: String,
}

/// The mathematical value of a [`TxMessage`].
pub struct TxMessageView<V> {
    pub msg: V,
    pub id: Seq<char>,
}

impl<T: View> View for TxMessage<T> {
    type V = TxMessageView<T::V>;

    open spec fn view(&self) -> TxMessageView<T::V> {
        TxMessageView { msg: self.msg@, id: self.id@ }
    }
}

/// A lower-case hexadecimal digit.
pub open spec fn is_lower_hex_digit(c: char) -> bool {
    ('0' <= c && c <= '9') || ('a' <= c && c <= 'f')
}

/// The positions of the four hyphens of a hyphenated UUID.
pub open spec fn is_uuid_hyphen_position(i: int) -> bool {
    i == 8 || i == 13 || i == 18 || i == 23
}

/// `s` is the lower-case hyphenated text of a random (version 4, RFC 4122
/// variant) UUID: `xxxxxxxx-xxxx-4xxx-Vxxx-xxxxxxxxxxxx` with `V` one of
/// `8`, `9`, `a`, `b`.
pub open spec fn is_uuid_v4_text(s: Seq<char>) -> bool {
    &&& s.len() == 36
    &&& forall|i: int| 0 <= i < 36 && is_uuid_hyphen_position(i) ==> s[i] == '-'
    &&& forall|i: int| 0 <= i < 36 && !is_uuid_hyphen_position(i) ==> is_lower_hex_digit(#[trigger] s[i])
    &&& s[14] == '4'
    &&& (s[19] == '8' || s[19] == '9' || s[19] == 'a' || s[19] == 'b')
}

/// Draws a fresh transaction id: `uuid::Uuid::new_v4().to_hyphenated().to_string()`.
///
/// Trusted: uuid 0.8 fills 16 bytes from the operating system's random source,
/// sets the version nibble to 4 and the RFC 4122 variant bits, and prints the
/// hyphenated form with lower-case digits. The contract claims only that shape;
/// which id comes out is chance. The call panics if the operating system
/// cannot supply random bytes, which no argument can rule out.
#[verifier::external_body]
fn fresh_transaction_id() -> (id: String)
    ensures
        is_uuid_v4_text(id@),
{
    uuid::Uuid::new_v4().to_hyphenated().to_string()
}

impl<T> TxMessage<T> {
    /// Wraps `msg` under a freshly drawn transaction id.
    pub fn new(msg: T) -> (m: Self)
        ensures
            m.msg == msg,
            is_uuid_v4_text(m.id@),
    {
        TxMessage { id: fresh_transaction_id(), msg }
    }

    /// Replaces the payload, keeping the transaction id.
    pub fn map<U>(self, other: U) -> (m: TxMessage<U>)
        ensures
            m.msg == other,
            m.id@ == self.id@,
    {
        TxMessage { msg: other, id: self.id }
    }
}

impl<T: Clone> Clone for TxMessage<T> {
    fn clone(&self) -> (copy: Self)
        ensures
            copy.id@ == self.id@,
            cloned(self.msg, copy.msg),
    {
        TxMessage { msg: self.msg.clone(), id: self.id.clone() }
    }
}

} // verus!
