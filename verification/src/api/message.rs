//! Error messages in the form in which they cross the boundary: a byte
//! string that ends in a zero byte and holds no other.
//!
//! A text that itself holds a zero byte cannot cross whole. What crosses is
//! the part that a reader of terminated strings would see of it anyway: the
//! bytes before its first zero byte.

use vstd::prelude::*;
use vstd::slice::slice_subrange;
use vstd::slice::slice_to_vec;
use vstd::utf8::encode_utf8;

verus! {

/// No byte of `bytes` is zero.
pub open spec fn nul_free(bytes: Seq<u8>) -> bool {
    forall|i: int| 0 <= i < bytes.len() ==> bytes[i] != 0
}

/// `bytes` is a terminated string: its last byte is zero, and only that one.
pub open spec fn nul_terminated(bytes: Seq<u8>) -> bool {
    &&& bytes.len() >= 1
    &&& bytes.last() == 0
    &&& nul_free(bytes.drop_last())
}

/// What a terminated string can carry of `text`: its bytes up to the first
/// zero byte, which is all of it where it has none.
pub open spec fn carried(text: Seq<u8>) -> Seq<u8>
    decreases text.len(),
{
    if text.len() == 0 || text[0] == 0 {
        Seq::empty()
    } else {
        seq![text[0]] + carried(text.drop_first())
    }
}

/// `out` is the part of `text` before its first zero byte: a prefix of
/// `text` without a zero byte that ends where `text` ends or at a zero byte.
pub open spec fn is_carried(text: Seq<u8>, out: Seq<u8>) -> bool {
    &&& out.len() <= text.len()
    &&& out == text.subrange(0, out.len() as int)
    &&& nul_free(out)
    &&& out.len() < text.len() ==> text[out.len() as int] == 0
}

/// Only one byte string is the part of `text` before its first zero byte,
/// and `carried` gives it.
pub proof fn lemma_carried_is_unique(text: Seq<u8>, out: Seq<u8>)
    requires
        is_carried(text, out),
    ensures
        out == carried(text),
    decreases text.len(),
{
    if text.len() == 0 || text[0] == 0 {
        if out.len() > 0 {
            assert(out[0] == text.subrange(0, out.len() as int)[0]);
        }
        assert(out =~= Seq::<u8>::empty());
    } else {
        let rest = text.drop_first();
        let tail = out.drop_first();
        assert(out[0] == text.subrange(0, out.len() as int)[0]);
        assert(tail =~= rest.subrange(0, tail.len() as int)) by {
            assert forall|i: int| 0 <= i < tail.len() implies tail[i] == rest[i] by {
                assert(out[i + 1] == text.subrange(0, out.len() as int)[i + 1]);
            }
        }
        assert(nul_free(tail)) by {
            assert forall|i: int| 0 <= i < tail.len() implies tail[i] != 0 by {
                assert(tail[i] == out[i + 1]);
            }
        }
        lemma_carried_is_unique(rest, tail);
        assert(out =~= seq![text[0]] + carried(rest));
    }
}

/// What is carried of a text is its part before the first zero byte, and
/// the whole text where it has no zero byte.
pub proof fn lemma_carried(text: Seq<u8>)
    ensures
        is_carried(text, carried(text)),
        nul_free(text) <==> carried(text) == text,
    decreases text.len(),
{
    if text.len() == 0 || text[0] == 0 {
        assert(carried(text) =~= text.subrange(0, 0));
        if text.len() == 0 {
            assert(carried(text) =~= text);
        }
    } else {
        let rest = text.drop_first();
        lemma_carried(rest);
        let out = carried(text);
        assert(out =~= text.subrange(0, out.len() as int)) by {
            assert forall|i: int| 0 <= i < out.len() implies out[i] == text[i] by {
                if i > 0 {
                    assert(out[i] == carried(rest)[i - 1]);
                    assert(carried(rest)[i - 1] == rest.subrange(0, carried(rest).len() as int)[i - 1]);
                }
            }
        }
        assert(nul_free(out)) by {
            assert forall|i: int| 0 <= i < out.len() implies out[i] != 0 by {
                if i > 0 {
                    assert(out[i] == carried(rest)[i - 1]);
                }
            }
        }
        if out.len() < text.len() {
            assert(text[out.len() as int] == rest[carried(rest).len() as int]);
        }
        if nul_free(text) {
            assert(nul_free(rest)) by {
                assert forall|i: int| 0 <= i < rest.len() implies rest[i] != 0 by {
                    assert(rest[i] == text[i + 1]);
                }
            }
            assert(out =~= text);
        }
    }
}

/// Whether `bytes` holds a zero byte.
pub fn contains_nul(bytes: &[u8]) -> (found: bool)
    ensures
        found <==> !nul_free(bytes@),
{
    let mut i: usize = 0;
    while i < bytes.len()
        invariant
            i <= bytes@.len(),
            forall|j: int| 0 <= j < i ==> bytes@[j] != 0,
        decreases bytes@.len() - i,
    {
        if bytes[i] == 0 {
            return true;
        }
        i = i + 1;
    }
    false
}

/// An error message as the foreign caller reads it: the text's bytes followed
/// by one terminating zero byte, in a buffer of its own.
///
/// The view of a message is its text, without the terminator.
#[derive(Debug, PartialEq, Eq)]
pub struct OwnedMessage {
    bytes: Vec<u8>,
}

impl View for OwnedMessage {
    type V = Seq<u8>;

    closed spec fn view(&self) -> Seq<u8> {
        self.bytes@.drop_last()
    }
}

impl OwnedMessage {
    #[verifier::type_invariant]
    spec fn terminated(&self) -> bool {
        nul_terminated(self.bytes@)
    }

    /// The bytes of the buffer, terminator included.
    pub open spec fn bytes_with_nul(&self) -> Seq<u8> {
        self@.push(0u8)
    }

    /// Builds the message for `text`, which is taken over as the buffer and
    /// extended by the terminator. A text that holds a zero byte cannot be
    /// carried whole and gives `None`.
    pub fn from_bytes(text: Vec<u8>) -> (r: Option<OwnedMessage>)
        ensures
            r is Some <==> nul_free(text@),
            r matches Some(m) ==> m@ == text@,
    {
        if contains_nul(text.as_slice()) {
            None
        } else {
            let mut bytes = text;
            bytes.push(0u8);
            proof {
                assert(bytes@.drop_last() =~= text@);
            }
            Some(OwnedMessage { bytes })
        }
    }

    /// Builds the message for `text` from its UTF-8 encoding. A text that
    /// holds a zero byte cannot be carried whole and gives `None`.
    pub fn new(text: &str) -> (r: Option<OwnedMessage>)
        ensures
            r is Some <==> nul_free(encode_utf8(text@)),
            r matches Some(m) ==> m@ == encode_utf8(text@),
    {
        OwnedMessage::from_bytes(slice_to_vec(text.as_bytes()))
    }

    /// Builds the message that carries `text`: all of it where it is free of
    /// zero bytes, and otherwise its bytes up to the first one.
    pub fn carrying(text: &[u8]) -> (m: OwnedMessage)
        ensures
            m@ == carried(text@),
            nul_free(text@) ==> m@ == text@,
    {
        let mut end: usize = 0;
        while end < text.len() && text[end] != 0
            invariant
                end <= text@.len(),
                forall|j: int| 0 <= j < end ==> text@[j] != 0,
            decreases text@.len() - end,
        {
            end = end + 1;
        }
        let mut bytes = slice_to_vec(slice_subrange(text, 0, end));
        proof {
            lemma_carried_is_unique(text@, bytes@);
            lemma_carried(text@);
        }
        let ghost kept = bytes@;
        bytes.push(0u8);
        proof {
            assert(bytes@.drop_last() =~= kept);
        }
        OwnedMessage { bytes }
    }

    /// The text of the message, without the terminator.
    pub fn as_bytes(&self) -> (text: &[u8])
        ensures
            text@ == self@,
            nul_free(text@),
    {
        proof {
            use_type_invariant(self);
        }
        let text = slice_subrange(self.bytes.as_slice(), 0, self.bytes.len() - 1);
        proof {
            assert(text@ =~= self.bytes@.drop_last());
        }
        text
    }

    /// The whole buffer: the text and its terminator.
    pub fn as_bytes_with_nul(&self) -> (bytes: &[u8])
        ensures
            bytes@ == self.bytes_with_nul(),
            nul_terminated(bytes@),
    {
        proof {
            use_type_invariant(self);
            assert(self.bytes@.drop_last().push(0u8) =~= self.bytes@);
        }
        self.bytes.as_slice()
    }

    /// Gives up the buffer, terminator included.
    pub fn into_bytes_with_nul(self) -> (bytes: Vec<u8>)
        ensures
            bytes@ == self.bytes_with_nul(),
            nul_terminated(bytes@),
    {
        proof {
            use_type_invariant(&self);
            assert(self.bytes@.drop_last().push(0u8) =~= self.bytes@);
        }
        self.bytes
    }

    /// The size of the buffer in bytes, terminator included.
    pub fn len_with_nul(&self) -> (len: usize)
        ensures
            len == self@.len() + 1,
    {
        proof {
            use_type_invariant(self);
        }
        self.bytes.len()
    }
}

} // verus!
