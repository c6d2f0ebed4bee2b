//! Lower-case hexadecimal, and the identifier of a transaction.

use vstd::prelude::*;


verus! {

broadcast use vstd::string::group_string_axioms;

/// The character of one hexadecimal digit, in lower case.
pub open spec fn hex_digit(d: nat) -> char {
    if d < 10 {
        (0x30 + d) as char
    } else {
        (0x57 + d) as char
    }
}

/// The lower-case hexadecimal text of a byte string, two digits a byte.
pub open spec fn hex_text(bytes: Seq<u8>) -> Seq<char>
    decreases bytes.len(),
{
    if bytes.len() == 0 {
        seq![]
    } else {
        hex_text(bytes.drop_last()) + seq![
            hex_digit((bytes.last() / 16) as nat),
            hex_digit((bytes.last() % 16) as nat),
        ]
    }
}

/// The hexadecimal text has two characters for each byte.
pub proof fn hex_text_len(bytes: Seq<u8>)
    ensures
        hex_text(bytes).len() == 2 * bytes.len(),
    decreases bytes.len(),
{
    if bytes.len() > 0 {
        hex_text_len(bytes.drop_last());
    }
}

/// Two byte strings with one hexadecimal text are the same byte string.
pub proof fn hex_text_injective(a: Seq<u8>, b: Seq<u8>)
    requires
        hex_text(a) == hex_text(b),
    ensures
        a == b,
    decreases a.len(),
{
    hex_text_len(a);
    hex_text_len(b);
    if a.len() == 0 {
        assert(a =~= b);
    } else {
        let n = 2 * (a.len() - 1);
        hex_text_len(a.drop_last());
        hex_text_len(b.drop_last());
        assert(hex_text(a).take(n) =~= hex_text(a.drop_last()));
        assert(hex_text(b).take(n) =~= hex_text(b.drop_last()));
        hex_text_injective(a.drop_last(), b.drop_last());
        assert(hex_text(a)[n] == hex_digit((a.last() / 16) as nat));
        assert(hex_text(b)[n] == hex_digit((b.last() / 16) as nat));
        assert(hex_text(a)[n + 1] == hex_digit((a.last() % 16) as nat));
        assert(hex_text(b)[n + 1] == hex_digit((b.last() % 16) as nat));
        assert(a.last() == b.last());
        assert(a =~= a.drop_last().push(a.last()));
        assert(b =~= b.drop_last().push(b.last()));
    }
}

/// The character of one hexadecimal digit, in lower case.
pub fn hex_char(d: u8) -> (c: char)
    requires
        d < 16,
    ensures
        c == hex_digit(d as nat),
{
    if d < 10 {
        (0x30u8 + d) as char
    } else {
        (0x57u8 + d) as char
    }
}

/// Lower-hex of raw bytes, for block hashes. Recorded and verified through this
/// same fold, so the byte order is self-consistent whatever the server's convention.
pub fn hex_lower(bytes: &[u8]) -> (r: String)
    ensures
        r@ == hex_text(bytes@),
{
    let mut hex = String::new();
    let mut i: usize = 0;
    assert(bytes@.take(0) =~= seq![]);
    assert(hex@ =~= hex_text(bytes@.take(0)));
    while i < bytes.len()
        invariant
            i <= bytes@.len(),
            hex@ == hex_text(bytes@.take(i as int)),
        decreases bytes@.len() - i,
    {
        let byte: u8 = bytes[i];
        let ghost before = hex@;
        hex.push(hex_char(byte / 16));
        hex.push(hex_char(byte % 16));
        assert(bytes@.take(i + 1).drop_last() =~= bytes@.take(i as int));
        assert(hex@ =~= before + seq![
            hex_digit((byte / 16) as nat),
            hex_digit((byte % 16) as nat),
        ]);
        i = i + 1;
    }
    assert(bytes@.take(bytes@.len() as int) =~= bytes@);
    hex
}

/// The identifier of a transaction: its hash, in the order of the encoding.
#[derive(Debug, Clone, Copy, PartialEq, Eq)]
pub struct TxId {
    pub bytes: [u8; 32],
}

/// `TxId::from_bytes` and `TxId`'s `Display` of `zcash_protocol`: an identifier is
/// shown as the lower-case hexadecimal text of its bytes in reverse order.
#[verifier::external_body]
fn display_txid(bytes: [u8; 32]) -> (r: String)
    ensures
        r@ == hex_text(bytes@.reverse()),
{
    zcash_protocol::TxId::from_bytes(bytes).to_string()
}

impl TxId {
    /// The text under which a transaction is known on the wire.
    pub open spec fn text(self) -> Seq<char> {
        hex_text(self.bytes@.reverse())
    }

    pub fn from_bytes(bytes: [u8; 32]) -> (r: Self)
        ensures
            r.bytes == bytes,
    {
        TxId { bytes }
    }

    /// The text under which a transaction is known on the wire.
    pub fn to_string(&self) -> (r: String)
        ensures
            r@ == self.text(),
    {
        display_txid(self.bytes)
    }
}

/// The text of a transaction identifier tells the transaction: keying by the text
/// is keying by the identifier.
pub proof fn txid_text_injective(a: TxId, b: TxId)
    requires
        a.text() == b.text(),
    ensures
        a.bytes@ == b.bytes@,
{
    hex_text_injective(a.bytes@.reverse(), b.bytes@.reverse());
    assert(a.bytes@ =~= a.bytes@.reverse().reverse());
    assert(b.bytes@ =~= b.bytes@.reverse().reverse());
}

/// Each byte is two characters of the text, the higher half first, each a digit or a letter
/// from `a` to `f` by its value.
pub proof fn each_byte_is_two_digits(bytes: Seq<u8>, i: int)
    requires
        0 <= i < bytes.len(),
    ensures
        ({
            let (high, low) = (hex_text(bytes)[2 * i] as u32, hex_text(bytes)[2 * i + 1] as u32);
            &&& hex_text(bytes).len() == 2 * bytes.len()
            &&& bytes[i] / 16 < 10 ==> high == 0x30 + bytes[i] / 16
            &&& bytes[i] / 16 >= 10 ==> high == 0x61 + (bytes[i] / 16 - 10)
            &&& bytes[i] % 16 < 10 ==> low == 0x30 + bytes[i] % 16
            &&& bytes[i] % 16 >= 10 ==> low == 0x61 + (bytes[i] % 16 - 10)
        }),
    decreases bytes.len(),
{
    hex_text_len(bytes);
    hex_text_len(bytes.drop_last());
    if i < bytes.len() - 1 {
        each_byte_is_two_digits(bytes.drop_last(), i);
        assert(hex_text(bytes)[2 * i] == hex_text(bytes.drop_last())[2 * i]);
        assert(hex_text(bytes)[2 * i + 1] == hex_text(bytes.drop_last())[2 * i + 1]);
    } else {
        assert(hex_text(bytes)[2 * i] == hex_digit((bytes.last() / 16) as nat));
        assert(hex_text(bytes)[2 * i + 1] == hex_digit((bytes.last() % 16) as nat));
    }
}

/// A transaction is shown with its bytes from the last to the first.
pub proof fn a_txid_is_shown_backwards(txid: TxId)
    ensures
        txid.text() == hex_text(txid.bytes@.reverse()),
        txid.text().len() == 64,
{
    hex_text_len(txid.bytes@.reverse());
}

/// Bytes are written so that they can be told from any others, and so is a transaction.
pub proof fn bytes_are_told_from_others(a: &[u8], r: String, b: &[u8], s: String, t: TxId, u: String)
    requires
        call_ensures(hex_lower, (a,), r),
        call_ensures(hex_lower, (b,), s),
        call_ensures(TxId::to_string, (&t,), u),
    ensures
        r@ == s@ <==> a@ == b@,
        r@.len() == 2 * a@.len(),
        u@ == hex_text(t.bytes@.reverse()),
{
    hex_text_len(a@);
    if r@ == s@ {
        hex_text_injective(a@, b@);
    }
}

} // verus!
