//! The vault metadata document: the one durable record of the KDF salt and
//! the wrapped data-encryption key. It is persisted as a small JSON object
//! `{"salts":["<base64url>"],"wrap":"<base64url>"}`; this module defines the
//! in-memory form, the field decoders with their corruption checks, and an
//! exact serializer/parser pair for the document text.
//!
//! Only the canonical serialization is valid on disk: the fixed key order,
//! no insignificant whitespace, and unescaped string fields (base64url text
//! never needs escaping). Every file this library writes is canonical; a
//! rendering of the same object in any other JSON style reads as corrupted.

use vstd::prelude::*;
use vstd::string::StrSliceExecFns;
use vstd::string::StringExecFns;
use crate::base64url::b64_decode;
use crate::base64url::b64_decoded;
use crate::error::DataStorageError;

verus! {

/// The durable record of {KEK salt, wrapped DEK}: both fields are held as
/// the base64url text that the document file carries.
pub struct Metadata {
    salts: [String; 1],
    wrap: String,
}

/// The exact document text that a metadata value with the given field texts
/// serializes to.
pub open spec fn json_doc(salt: Seq<char>, wrap: Seq<char>) -> Seq<char> {
    "{\"salts\":[\""@ + salt + "\"],\"wrap\":\""@ + wrap + "\"}"@
}

/// True when the text contains no double quote, so that it can stand
/// unescaped between the quotes of the document. Base64url text always
/// qualifies.
pub open spec fn quote_free(s: Seq<char>) -> bool {
    forall|i: int| 0 <= i < s.len() ==> s[i] != '"'
}

impl Metadata {
    /// The base64url text of the KDF salt.
    pub closed spec fn salt_text(&self) -> Seq<char> {
        self.salts@[0]@
    }

    /// The base64url text of the wrapped DEK.
    pub closed spec fn wrap_text(&self) -> Seq<char> {
        self.wrap@
    }

    /// The wrapped-DEK bytes the metadata carries: present exactly when the
    /// `wrap` field decodes to the 40 bytes a wrapped 32-byte key must be.
    pub open spec fn wrap_bytes(&self) -> Option<Seq<u8>> {
        match b64_decoded(self.wrap_text()) {
            Some(bytes) => if bytes.len() == 40 {
                Some(bytes)
            } else {
                None
            },
            None => None,
        }
    }

    pub fn new(wrap: String, salts: [String; 1]) -> (md: Self)
        ensures
            md.wrap_text() == wrap@,
            md.salt_text() == salts@[0]@,
    {
        Self { wrap, salts }
    }

    /// Decodes the wrapped-DEK field, failing closed as corrupted when the
    /// text is not base64url or does not decode to exactly 40 bytes — the
    /// length a wrapped 32-byte key must have.
    pub fn wrap(&self) -> (r: Result<Vec<u8>, DataStorageError>)
        ensures
            match r {
                Ok(bytes) => self.wrap_bytes() == Some(bytes@) && bytes@.len() == 40,
                Err(e) => self.wrap_bytes() is None && e is MetadataCorrupted,
            },
    {
        match b64_decode(self.wrap.as_str()) {
            Ok(bytes) => {
                if bytes.len() == 40 {
                    Ok(bytes)
                } else {
                    Err(DataStorageError::MetadataCorrupted {
                        cause: "data value is tampered.".to_owned(),
                    })
                }
            },
            Err(()) => Err(DataStorageError::MetadataCorrupted {
                cause: "data value is tampered.".to_owned(),
            }),
        }
    }

    /// Decodes the KDF salt field, failing closed as corrupted when the text
    /// is not base64url.
    pub fn kek_salt(&self) -> (r: Result<Vec<u8>, DataStorageError>)
        ensures
            match r {
                Ok(salt) => b64_decoded(self.salt_text()) == Some(salt@),
                Err(e) => b64_decoded(self.salt_text()) is None && e is MetadataCorrupted,
            },
    {
        match b64_decode(self.salts[0].as_str()) {
            Ok(salt) => Ok(salt),
            Err(()) => Err(DataStorageError::MetadataCorrupted {
                cause: "data value is tampered.".to_owned(),
            }),
        }
    }

    /// Serializes to the exact document text that [`Metadata::from_json`]
    /// parses back. Fields go out unescaped, so the round trip holds for
    /// quote-free fields — which covers every base64url field the library
    /// produces; a hand-built value holding a quote would not survive it.
    pub fn to_json(&self) -> (text: String)
        ensures
            text@ == json_doc(self.salt_text(), self.wrap_text()),
    {
        let mut out: String = "{\"salts\":[\"".to_owned();
        out.append(self.salts[0].as_str());
        out.append("\"],\"wrap\":\"");
        out.append(self.wrap.as_str());
        out.append("\"}");
        proof {
            assert(out@ =~= json_doc(self.salt_text(), self.wrap_text()));
        }
        out
    }

    /// Parses a document text. Accepts exactly the texts that serialization
    /// produces from quote-free fields; everything else — non-JSON content,
    /// a reordered or extended object, an escaped string — is corrupted.
    pub fn from_json(text: &str) -> (r: Result<Self, DataStorageError>)
        ensures
            match r {
                Ok(md) => {
                    &&& text@ == json_doc(md.salt_text(), md.wrap_text())
                    &&& quote_free(md.salt_text())
                    &&& quote_free(md.wrap_text())
                },
                Err(e) => {
                    &&& e is MetadataCorrupted
                    &&& forall|s: Seq<char>, w: Seq<char>|
                        quote_free(s) && quote_free(w) ==> text@ != json_doc(s, w)
                },
            },
    {
        match parse_doc(text) {
            Some((salt, wrap)) => Ok(Self { salts: [salt], wrap }),
            None => Err(DataStorageError::MetadataCorrupted {
                cause: "file is not a propper json object metadata.".to_owned(),
            }),
        }
    }
}

/// True when the text's characters from `at` onward begin with `pat`.
fn match_at(text: &str, at: usize, pat: &str) -> (r: bool)
    requires
        at + pat@.len() <= text@.len(),
    ensures
        r <==> text@.subrange(at as int, at + pat@.len()) == pat@,
{
    let n = text.unicode_len();
    let m = pat.unicode_len();
    let mut i: usize = 0;
    while i < m
        invariant
            i <= m,
            m == pat@.len(),
            n == text@.len(),
            at + m <= n,
            forall|j: int| 0 <= j < i ==> text@[at + j] == pat@[j],
        decreases m - i,
    {
        if text.get_char(at + i) != pat.get_char(i) {
            proof {
                assert(text@.subrange(at as int, at + pat@.len())[i as int] != pat@[i as int]);
            }
            return false;
        }
        i += 1;
    }
    proof {
        assert(text@.subrange(at as int, at + pat@.len()) =~= pat@);
    }
    true
}

/// Finds the first double quote at or after `from`.
fn find_quote(text: &str, from: usize) -> (r: Option<usize>)
    requires
        from <= text@.len(),
    ensures
        match r {
            Some(i) => {
                &&& from <= i < text@.len()
                &&& text@[i as int] == '"'
                &&& forall|j: int| from <= j < i ==> text@[j] != '"'
            },
            None => forall|j: int| from <= j < text@.len() ==> text@[j] != '"',
        },
{
    let n = text.unicode_len();
    let mut i: usize = from;
    while i < n
        invariant
            from <= i <= n,
            n == text@.len(),
            forall|j: int| from <= j < i ==> text@[j] != '"',
        decreases n - i,
    {
        if text.get_char(i) == '"' {
            return Some(i);
        }
        i += 1;
    }
    None
}

/// The parsing core: recovers the two quote-free field texts from a
/// document, or establishes that no quote-free fields produce this text.
fn parse_doc(text: &str) -> (r: Option<(String, String)>)
    ensures
        match r {
            Some(fields) => {
                &&& text@ == json_doc(fields.0@, fields.1@)
                &&& quote_free(fields.0@)
                &&& quote_free(fields.1@)
            },
            None => forall|s: Seq<char>, w: Seq<char>|
                quote_free(s) && quote_free(w) ==> text@ != json_doc(s, w),
        },
{
    proof {
        reveal_strlit("{\"salts\":[\"");
        reveal_strlit("\"],\"wrap\":\"");
        reveal_strlit("\"}");
    }
    let n = text.unicode_len();

    // The opening object, key and bracket: 11 characters.
    if n < 11 || !match_at(text, 0, "{\"salts\":[\"") {
        proof {
            assert forall|s: Seq<char>, w: Seq<char>|
                quote_free(s) && quote_free(w) implies text@ != json_doc(s, w) by {
                if text@ == json_doc(s, w) {
                    assert(text@.subrange(0, 11) =~= "{\"salts\":[\""@);
                }
            }
        }
        return None;
    }

    // The salt field runs to the next quote.
    let q1 = match find_quote(text, 11) {
        Some(i) => i,
        None => {
            proof {
                assert forall|s: Seq<char>, w: Seq<char>|
                    quote_free(s) && quote_free(w) implies text@ != json_doc(s, w) by {
                    if text@ == json_doc(s, w) {
                        assert(text@[11 + s.len() as int] == '"');
                    }
                }
            }
            return None;
        },
    };
    let salt: String = text.substring_char(11, q1).to_owned();

    // The closing bracket and the wrap key: 11 characters again.
    if n - q1 < 11 || !match_at(text, q1, "\"],\"wrap\":\"") {
        proof {
            assert forall|s: Seq<char>, w: Seq<char>|
                quote_free(s) && quote_free(w) implies text@ != json_doc(s, w) by {
                if text@ == json_doc(s, w) {
                    lemma_first_quote(text@, s, w, 11 + s.len() as int, q1 as int);
                    assert(text@.subrange(q1 as int, q1 + 11) =~= "\"],\"wrap\":\""@);
                }
            }
        }
        return None;
    }

    // The wrap field runs to the next quote.
    let w_start = q1 + 11;
    let q2 = match find_quote(text, w_start) {
        Some(i) => i,
        None => {
            proof {
                assert forall|s: Seq<char>, w: Seq<char>|
                    quote_free(s) && quote_free(w) implies text@ != json_doc(s, w) by {
                    if text@ == json_doc(s, w) {
                        lemma_first_quote(text@, s, w, 11 + s.len() as int, q1 as int);
                        assert(text@[q1 + 11 + w.len() as int] == '"');
                    }
                }
            }
            return None;
        },
    };
    let wrap: String = text.substring_char(w_start, q2).to_owned();

    // The closing quote and brace, and nothing after them.
    if !(n - q2 == 2 && match_at(text, q2, "\"}")) {
        proof {
            assert forall|s: Seq<char>, w: Seq<char>|
                quote_free(s) && quote_free(w) implies text@ != json_doc(s, w) by {
                if text@ == json_doc(s, w) {
                    lemma_first_quote(text@, s, w, 11 + s.len() as int, q1 as int);
                    lemma_second_quote(text@, s, w, q1 as int, q2 as int);
                    assert(text@.subrange(q2 as int, q2 + 2) =~= "\"}"@);
                }
            }
        }
        return None;
    }

    proof {
        assert(text@ =~= json_doc(salt@, wrap@));
    }
    Some((salt, wrap))
}

/// The document round-trip law: serialization loses nothing. Two metadata
/// values with quote-free fields that print to the same document text carry
/// the same fields — so parsing the printed text recovers exactly the value
/// that was saved.
pub proof fn lemma_json_doc_injective(s1: Seq<char>, w1: Seq<char>, s2: Seq<char>, w2: Seq<char>)
    requires
        quote_free(s1),
        quote_free(w1),
        quote_free(s2),
        quote_free(w2),
        json_doc(s1, w1) == json_doc(s2, w2),
    ensures
        s1 == s2,
        w1 == w2,
{
    reveal_strlit("{\"salts\":[\"");
    reveal_strlit("\"],\"wrap\":\"");
    reveal_strlit("\"}");
    let doc = json_doc(s1, w1);
    if s1.len() < s2.len() {
        assert(doc[11 + s1.len() as int] == '"');
        assert(doc[11 + s1.len() as int] == s2[s1.len() as int]);
    }
    if s2.len() < s1.len() {
        assert(doc[11 + s2.len() as int] == '"');
        assert(doc[11 + s2.len() as int] == s1[s2.len() as int]);
    }
    assert forall|i: int| 0 <= i < s1.len() implies s1[i] == s2[i] by {
        assert(doc[11 + i] == s1[i]);
        assert(doc[11 + i] == s2[i]);
    }
    assert(s1 =~= s2);
    assert(doc.len() == 24 + s1.len() + w1.len());
    assert(json_doc(s2, w2).len() == 24 + s2.len() + w2.len());
    assert(w1.len() == w2.len());
    assert forall|i: int| 0 <= i < w1.len() implies w1[i] == w2[i] by {
        assert(doc[22 + s1.len() + i] == w1[i]);
        assert(doc[22 + s2.len() + i] == w2[i]);
    }
    assert(w1 =~= w2);
}

/// In a document with quote-free fields, the first quote at or after the
/// salt's start is exactly the one that closes the salt.
proof fn lemma_first_quote(doc: Seq<char>, s: Seq<char>, w: Seq<char>, end: int, q1: int)
    requires
        doc == json_doc(s, w),
        quote_free(s),
        end == 11 + s.len(),
        11 <= q1 < doc.len(),
        doc[q1] == '"',
        forall|j: int| 11 <= j < q1 ==> doc[j] != '"',
    ensures
        q1 == end,
{
    reveal_strlit("{\"salts\":[\"");
    reveal_strlit("\"],\"wrap\":\"");
    reveal_strlit("\"}");
    if q1 < end {
        assert(doc[q1] == s[q1 - 11]);
    }
    if q1 > end {
        assert(doc[end] == '"');
    }
}

/// Likewise for the quote that closes the wrap field.
proof fn lemma_second_quote(doc: Seq<char>, s: Seq<char>, w: Seq<char>, q1: int, q2: int)
    requires
        doc == json_doc(s, w),
        quote_free(s),
        quote_free(w),
        q1 == 11 + s.len(),
        q1 + 11 <= q2 < doc.len(),
        doc[q2] == '"',
        forall|j: int| q1 + 11 <= j < q2 ==> doc[j] != '"',
    ensures
        q2 == q1 + 11 + w.len(),
{
    reveal_strlit("{\"salts\":[\"");
    reveal_strlit("\"],\"wrap\":\"");
    reveal_strlit("\"}");
    let end = q1 + 11 + w.len() as int;
    if q2 < end {
        assert(doc[q2] == w[q2 - (q1 + 11)]);
    }
    if q2 > end {
        assert(doc[end] == '"');
    }
}

} // verus!
