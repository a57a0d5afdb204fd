//! The envelope: the JSON document `{"text":<string literal>}` that carries
//! the caller's text to the endpoint.

use crate::json::{json_string_literal, to_json_literal};
use crate::literal::{stands_for, unquote};
use vstd::prelude::*;
use vstd::utf8::{decode_utf8, encode_utf8, encode_utf8_decode_utf8, encode_utf8_valid_utf8, valid_utf8};

verus! {

/// The wrapper placed around the caller's text before it is sent.
///
/// An envelope lives for one call: it is made from the text, written out as a
/// JSON document, and dropped.
#[derive(Clone, Debug, PartialEq, Eq)]
pub struct Envelope {
    /// The caller's text, unchanged.
    pub text: String,
}

impl View for Envelope {
    type V = Seq<char>;

    /// An envelope is modelled by the text it wraps.
    open spec fn view(&self) -> Seq<char> {
        self.text@
    }
}

/// What every envelope document starts with: `{"text":`.
pub open spec fn envelope_prefix() -> Seq<char> {
    seq!['{', '"', 't', 'e', 'x', 't', '"', ':']
}

/// The envelope document around a string literal.
pub open spec fn envelope_document(literal: Seq<char>) -> Seq<char> {
    envelope_prefix() + literal + seq!['}']
}

/// Whether the string literal `literal` reads back as `text`.
pub open spec fn reads_as(literal: Seq<char>, text: Seq<char>) -> bool {
    unquote(encode_utf8(literal)) == Some(encode_utf8(text))
}

/// The text that an envelope document wraps, or `None` where `document` is
/// not an envelope document that this library reads.
pub open spec fn envelope_text(document: Seq<char>) -> Option<Seq<char>> {
    let start = envelope_prefix().len() as int;
    if document.len() > start && document.subrange(0, start) == envelope_prefix()
        && document.last() == '}' {
        match unquote(encode_utf8(document.subrange(start, document.len() - 1))) {
            Some(bytes) => if valid_utf8(bytes) {
                Some(decode_utf8(bytes))
            } else {
                None
            },
            None => None,
        }
    } else {
        None
    }
}

/// The document around a literal that reads back as `text` wraps `text`.
pub proof fn lemma_document_wraps_text(literal: Seq<char>, text: Seq<char>)
    requires
        reads_as(literal, text),
    ensures
        envelope_text(envelope_document(literal)) == Some(text),
{
    let document = envelope_document(literal);
    let start = envelope_prefix().len() as int;
    assert(document.subrange(0, start) =~= envelope_prefix());
    assert(document.subrange(start, document.len() - 1) =~= literal);
    encode_utf8_valid_utf8(text);
    encode_utf8_decode_utf8(text);
}

impl Envelope {
    /// Wraps `text`.
    pub fn new(text: &str) -> (envelope: Envelope)
        ensures
            envelope@ == text@,
    {
        Envelope { text: String::from_str(text) }
    }

    /// Whether `literal` is a string literal that reads back as this
    /// envelope's text.
    pub fn accepts(&self, literal: &str) -> (ok: bool)
        ensures
            ok == reads_as(literal@, self@),
    {
        stands_for(literal.as_bytes(), self.text.as_str().as_bytes())
    }

    /// The envelope document for what the serializer returned.
    ///
    /// There is a document exactly when the serializer returned a literal and
    /// that literal reads back as this envelope's text; the document is the
    /// literal, framed. Anything else is a serialization failure.
    pub fn document(&self, written: Result<String, serde_json::Error>) -> (document: Option<String>)
        ensures
            match document {
                Some(d) => written matches Ok(literal) && reads_as(literal@, self@) && d@
                    == envelope_document(literal@),
                None => !(written matches Ok(literal) && reads_as(literal@, self@)),
            },
    {
        match written {
            Ok(literal) => {
                if !self.accepts(literal.as_str()) {
                    return None;
                }
                proof {
                    reveal_strlit("{\"text\":");
                    reveal_strlit("}");
                }
                let mut d = String::from_str("{\"text\":");
                d.append(literal.as_str());
                d.append("}");
                assert(d@ =~= envelope_document(literal@));
                Some(d)
            },
            Err(_) => None,
        }
    }

    /// Serializes the envelope.
    ///
    /// The serializer writes the string literal. There is a document exactly
    /// when it returned a literal that reads back as the text, so a document
    /// always wraps exactly the text of this envelope. `None` is a
    /// serialization failure: an error, or a literal for something else.
    pub fn to_json(&self) -> (document: Option<String>)
        ensures
            match document {
                Some(d) => serialized(self@) == Some(d@) && envelope_text(d@) == Some(self@),
                None => serialized(self@) is None,
            },
    {
        let document = self.document(to_json_literal(self.text.as_str()));
        proof {
            if document is Some {
                lemma_document_wraps_text(json_string_literal(self@)->0, self@);
            }
        }
        document
    }
}

/// The document that serializing the envelope around `text` gives: the
/// envelope document around the literal that the serializer returns for
/// `text`, where it returns one and the literal reads back as `text`; `None`
/// in every other case.
pub open spec fn serialized(text: Seq<char>) -> Option<Seq<char>> {
    match json_string_literal(text) {
        Some(literal) => if reads_as(literal, text) {
            Some(envelope_document(literal))
        } else {
            None
        },
        None => None,
    }
}

} // verus!
