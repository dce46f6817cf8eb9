//! The export artifact: a CSV document with header `name,username,password,
//! date` and one row per record, the password field decrypted to plaintext.
//! An explicit, operator-triggered plaintext exposure that presupposes an
//! unlocked session. Fields are quoted and their quotes doubled exactly
//! when they contain a delimiter, quote or line break.

use vstd::prelude::*;
use vstd::string::StringSliceAdditionalSpecFns;
use vstd::utf8::encode_utf8;
use crate::envelope::Cipher;
use crate::envelope::fernet_plaintext_of;
use crate::vault::LoginData;

verus! {

pub const COMMA: u8 = 44;

pub const QUOTE: u8 = 34;

pub const LF: u8 = 10;

pub const CR: u8 = 13;

/// A byte that forces its field into quotes.
pub open spec fn is_csv_special(b: u8) -> bool {
    b == COMMA || b == QUOTE || b == LF || b == CR
}

/// True when the raw field text cannot stand unquoted.
pub open spec fn needs_quoting(b: Seq<u8>) -> bool {
    exists|i: int| 0 <= i < b.len() && is_csv_special(#[trigger] b[i])
}

/// The field with every quote doubled, as it stands inside a quoted field.
pub open spec fn doubled(b: Seq<u8>) -> Seq<u8>
    decreases b.len(),
{
    if b.len() == 0 {
        Seq::empty()
    } else {
        (if b[0] == QUOTE {
            seq![b[0], b[0]]
        } else {
            seq![b[0]]
        }) + doubled(b.subrange(1, b.len() as int))
    }
}

/// A field as it appears in the document: raw when harmless, quoted with
/// doubled quotes when it holds a delimiter, quote or line break.
pub open spec fn csv_escaped(b: Seq<u8>) -> Seq<u8> {
    if needs_quoting(b) {
        seq![QUOTE] + doubled(b) + seq![QUOTE]
    } else {
        b
    }
}

/// One record's row: name, username, the decrypted password, and the
/// modification date, comma-separated and newline-terminated.
pub open spec fn csv_row_of(login: LoginData, password: Seq<char>) -> Seq<u8> {
    csv_escaped(encode_utf8(login.name@)) + seq![COMMA]
        + csv_escaped(encode_utf8(login.username@)) + seq![COMMA]
        + csv_escaped(encode_utf8(password)) + seq![COMMA]
        + csv_escaped(encode_utf8(login.date_modified@)) + seq![LF]
}

/// The whole document: the header line, then one row per record in store
/// order, with `passwords` holding the decrypted password texts.
pub open spec fn csv_doc_of(records: Seq<LoginData>, passwords: Seq<Seq<char>>) -> Seq<u8>
    recommends
        records.len() == passwords.len(),
    decreases records.len(),
{
    if records.len() == 0 {
        encode_utf8("name,username,password,date\n"@)
    } else {
        csv_doc_of(records.drop_last(), passwords.drop_last())
            + csv_row_of(records.last(), passwords[records.len() - 1])
    }
}

proof fn lemma_doubled_push(b: Seq<u8>, c: u8)
    ensures
        doubled(b.push(c)) == doubled(b) + (if c == QUOTE {
            seq![c, c]
        } else {
            seq![c]
        }),
    decreases b.len(),
{
    let s = if c == QUOTE {
        seq![c, c]
    } else {
        seq![c]
    };
    if b.len() == 0 {
        reveal_with_fuel(doubled, 3);
        assert(b.push(c)[0] == c);
        assert(b.push(c).subrange(1, 1) =~= Seq::<u8>::empty());
        assert(doubled(b.push(c)) =~= doubled(b) + s);
    } else {
        let h = if b[0] == QUOTE {
            seq![b[0], b[0]]
        } else {
            seq![b[0]]
        };
        let tail = b.subrange(1, b.len() as int);
        assert(b.push(c)[0] == b[0]);
        assert(b.push(c).subrange(1, b.len() as int + 1) =~= tail.push(c));
        assert(doubled(b.push(c)) == h + doubled(tail.push(c)));
        lemma_doubled_push(tail, c);
        assert(h + (doubled(tail) + s) =~= (h + doubled(tail)) + s);
        assert(doubled(b) == h + doubled(tail));
    }
}

/// Appends a byte slice verbatim.
fn append_bytes(out: &mut Vec<u8>, b: &[u8])
    ensures
        final(out)@ == old(out)@ + b@,
{
    let mut j: usize = 0;
    while j < b.len()
        invariant
            j <= b@.len(),
            out@ == old(out)@ + b@.subrange(0, j as int),
        decreases b@.len() - j,
    {
        out.push(b[j]);
        proof {
            assert(b@.subrange(0, j + 1) =~= b@.subrange(0, j as int).push(b@[j as int]));
        }
        j += 1;
    }
    proof {
        assert(b@.subrange(0, b@.len() as int) =~= b@);
    }
}

/// Whether the raw field bytes contain a delimiter, quote or line break.
fn field_needs_quoting(b: &[u8]) -> (r: bool)
    ensures
        r == needs_quoting(b@),
{
    let mut j: usize = 0;
    while j < b.len()
        invariant
            j <= b@.len(),
            forall|i: int| 0 <= i < j ==> !is_csv_special(#[trigger] b@[i]),
        decreases b@.len() - j,
    {
        let c = b[j];
        if c == COMMA || c == QUOTE || c == LF || c == CR {
            return true;
        }
        j += 1;
    }
    false
}

/// Appends one field in its document form.
fn append_escaped(out: &mut Vec<u8>, field: &str)
    ensures
        final(out)@ == old(out)@ + csv_escaped(field.spec_bytes()),
{
    let b = field.as_bytes();
    if !field_needs_quoting(b) {
        append_bytes(out, b);
        return;
    }
    out.push(QUOTE);
    let mut j: usize = 0;
    while j < b.len()
        invariant
            j <= b@.len(),
            out@ == old(out)@ + seq![QUOTE] + doubled(b@.subrange(0, j as int)),
        decreases b@.len() - j,
    {
        let c = b[j];
        out.push(c);
        if c == QUOTE {
            out.push(c);
        }
        proof {
            assert(b@.subrange(0, j + 1) =~= b@.subrange(0, j as int).push(b@[j as int]));
            lemma_doubled_push(b@.subrange(0, j as int), b@[j as int]);
            assert(out@ =~= old(out)@ + seq![QUOTE] + doubled(b@.subrange(0, j + 1)));
        }
        j += 1;
    }
    out.push(QUOTE);
    proof {
        assert(b@.subrange(0, b@.len() as int) =~= b@);
        assert(out@ =~= old(out)@ + csv_escaped(field.spec_bytes()));
    }
}

/// Builds the export document from records and their already-decrypted
/// password texts — the byte-exact CSV form of exactly these rows.
pub fn export_csv(data: &Vec<LoginData>, passwords: &Vec<String>) -> (doc: Vec<u8>)
    requires
        data@.len() == passwords@.len(),
    ensures
        doc@ == csv_doc_of(data@, passwords@.map_values(|p: String| p@)),
{
    let ghost plains = passwords@.map_values(|p: String| p@);
    let mut out: Vec<u8> = Vec::new();
    append_bytes(&mut out, "name,username,password,date\n".as_bytes());
    proof {
        assert(data@.subrange(0, 0) =~= Seq::<LoginData>::empty());
        assert(plains.subrange(0, 0) =~= Seq::<Seq<char>>::empty());
        assert(out@ == csv_doc_of(data@.subrange(0, 0), plains.subrange(0, 0)));
    }
    let mut i: usize = 0;
    while i < data.len()
        invariant
            i <= data@.len(),
            data@.len() == passwords@.len(),
            plains == passwords@.map_values(|p: String| p@),
            out@ == csv_doc_of(data@.subrange(0, i as int), plains.subrange(0, i as int)),
        decreases data@.len() - i,
    {
        let ghost row_start = out@;
        append_escaped(&mut out, data[i].name.as_str());
        out.push(COMMA);
        append_escaped(&mut out, data[i].username.as_str());
        out.push(COMMA);
        append_escaped(&mut out, passwords[i].as_str());
        out.push(COMMA);
        append_escaped(&mut out, data[i].date_modified.as_str());
        out.push(LF);
        proof {
            assert(out@ =~= row_start + csv_row_of(data@[i as int], plains[i as int]));
            assert(data@.subrange(0, i + 1).drop_last() =~= data@.subrange(0, i as int));
            assert(plains.subrange(0, i + 1).drop_last() =~= plains.subrange(0, i as int));
            assert(data@.subrange(0, i + 1).last() == data@[i as int]);
            assert(out@ == csv_doc_of(data@.subrange(0, i + 1), plains.subrange(0, i + 1)));
        }
        i += 1;
    }
    proof {
        assert(data@.subrange(0, data@.len() as int) =~= data@);
        assert(plains.subrange(0, plains.len() as int) =~= plains);
    }
    out
}

/// Decrypts every record's password and renders the export document.
/// Fails — yielding no partial document — as soon as one record's token is
/// rejected or its payload is not text; with no records there is nothing to
/// decrypt, so the bare header document is always produced.
pub fn decrypt_and_export(data: &Vec<LoginData>, cipher: &Cipher) -> (r: Result<Vec<u8>, ()>)
    ensures
        match r {
            Ok(doc) => exists|plains: Seq<Seq<char>>|
                {
                    &&& plains.len() == data@.len()
                    &&& forall|i: int|
                        0 <= i < data@.len()
                            ==> fernet_plaintext_of(cipher.key(), (#[trigger] data@[i]).password@)
                                == Some(encode_utf8(plains[i]))
                    &&& doc@ == csv_doc_of(data@, plains)
                },
            Err(()) => data@.len() > 0,
        },
{
    let mut passwords: Vec<String> = Vec::new();
    let mut i: usize = 0;
    while i < data.len()
        invariant
            i <= data@.len(),
            passwords@.len() == i,
            forall|k: int|
                0 <= k < i
                    ==> fernet_plaintext_of(cipher.key(), (#[trigger] data@[k]).password@)
                        == Some(encode_utf8(passwords@[k]@)),
        decreases data@.len() - i,
    {
        match cipher.reveal_password(data[i].password.as_str()) {
            Ok(password) => passwords.push(password),
            Err(()) => {
                return Err(());
            },
        }
        i += 1;
    }
    let doc = export_csv(data, &passwords);
    proof {
        let plains = passwords@.map_values(|p: String| p@);
        assert(forall|k: int|
            0 <= k < data@.len()
                ==> fernet_plaintext_of(cipher.key(), (#[trigger] data@[k]).password@)
                    == Some(encode_utf8(plains[k])));
    }
    Ok(doc)
}

} // verus!
