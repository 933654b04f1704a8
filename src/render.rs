//! Text renderings of keypairs: the redacted one for ordinary output and the
//! dangerous one that shows the private key.
use vstd::prelude::*;
use vstd::string::StringExecFns;

verus! {

/// The decimal digit `d` as text.
pub open spec fn digit_text(d: u8) -> Seq<char> {
    if d == 0 {
        "0"@
    } else if d == 1 {
        "1"@
    } else if d == 2 {
        "2"@
    } else if d == 3 {
        "3"@
    } else if d == 4 {
        "4"@
    } else if d == 5 {
        "5"@
    } else if d == 6 {
        "6"@
    } else if d == 7 {
        "7"@
    } else if d == 8 {
        "8"@
    } else {
        "9"@
    }
}

/// A byte in decimal, without leading zeros.
pub open spec fn decimal_text(b: u8) -> Seq<char>
    decreases b,
{
    if b < 10 {
        digit_text(b)
    } else {
        decimal_text(b / 10) + digit_text(b % 10)
    }
}

/// The bytes in decimal, separated by `, `.
pub open spec fn list_items_text(bytes: Seq<u8>) -> Seq<char>
    decreases bytes.len(),
{
    if bytes.len() == 0 {
        Seq::empty()
    } else if bytes.len() == 1 {
        decimal_text(bytes[0])
    } else {
        list_items_text(bytes.drop_last()) + ", "@ + decimal_text(bytes.last())
    }
}

/// The `Debug` text of a byte list, as in `[1, 2, 3]`.
pub open spec fn byte_list_text(bytes: Seq<u8>) -> Seq<char> {
    "["@ + list_items_text(bytes) + "]"@
}

/// The redacted rendering of a keypair: a fixed marker stands in for the
/// private key, which takes no part in the text.
pub open spec fn redacted_text_of(pubkey: Seq<u8>) -> Seq<char> {
    "LyreKeyPair { privkey: \"REDACTED\", PUB_KEY: "@ + byte_list_text(pubkey) + " }"@
}

/// The rendering of a keypair that shows both halves in the clear.
pub open spec fn unredacted_text_of(privkey: Seq<u8>, pubkey: Seq<u8>) -> Seq<char> {
    "LyreKeyPair { privkey: "@ + byte_list_text(privkey) + ", pubkey: "@ + byte_list_text(pubkey)
        + " }"@
}

fn push_digit(out: &mut String, d: u8)
    requires
        d < 10,
    ensures
        final(out)@ == old(out)@ + digit_text(d),
{
    match d {
        0 => out.append("0"),
        1 => out.append("1"),
        2 => out.append("2"),
        3 => out.append("3"),
        4 => out.append("4"),
        5 => out.append("5"),
        6 => out.append("6"),
        7 => out.append("7"),
        8 => out.append("8"),
        _ => out.append("9"),
    }
}

fn push_decimal(out: &mut String, b: u8)
    ensures
        final(out)@ == old(out)@ + decimal_text(b),
{
    let ghost start = out@;
    if b >= 100 {
        push_digit(out, b / 100);
        push_digit(out, (b / 10) % 10);
        push_digit(out, b % 10);
        assert(decimal_text(b / 10) == decimal_text(b / 100) + digit_text((b / 10) % 10)) by {
            assert((b / 10) / 10 == b / 100);
        }
        assert(out@ =~= start + decimal_text(b));
    } else if b >= 10 {
        push_digit(out, b / 10);
        push_digit(out, b % 10);
        assert(decimal_text(b / 10) == digit_text(b / 10));
        assert(out@ =~= start + decimal_text(b));
    } else {
        push_digit(out, b);
    }
}

/// Appends the `Debug` text of `bytes` to `out`.
pub fn push_byte_list(out: &mut String, bytes: &[u8])
    ensures
        final(out)@ == old(out)@ + byte_list_text(bytes@),
{
    let ghost start = out@;
    out.append("[");
    let mut i: usize = 0;
    while i < bytes.len()
        invariant
            i <= bytes@.len(),
            out@ == start + "["@ + list_items_text(bytes@.subrange(0, i as int)),
        decreases bytes@.len() - i,
    {
        let ghost before = out@;
        if i > 0 {
            out.append(", ");
        }
        push_decimal(out, bytes[i]);
        proof {
            let next = bytes@.subrange(0, i + 1);
            assert(next.drop_last() =~= bytes@.subrange(0, i as int));
            assert(next.last() == bytes@[i as int]);
            assert(out@ =~= start + "["@ + list_items_text(next));
        }
        i = i + 1;
    }
    assert(bytes@.subrange(0, bytes@.len() as int) =~= bytes@);
    out.append("]");
    assert(out@ =~= start + byte_list_text(bytes@));
}

/// The redacted rendering of a keypair with the given public key.
pub fn redacted_text(pubkey: &[u8]) -> (r: String)
    ensures
        r@ == redacted_text_of(pubkey@),
{
    let mut out = String::from_str("LyreKeyPair { privkey: \"REDACTED\", PUB_KEY: ");
    push_byte_list(&mut out, pubkey);
    out.append(" }");
    assert(out@ =~= redacted_text_of(pubkey@));
    out
}

/// The rendering of a keypair that shows both halves in the clear.
pub fn unredacted_text(privkey: &[u8], pubkey: &[u8]) -> (r: String)
    ensures
        r@ == unredacted_text_of(privkey@, pubkey@),
{
    let mut out = String::from_str("LyreKeyPair { privkey: ");
    push_byte_list(&mut out, privkey);
    out.append(", pubkey: ");
    push_byte_list(&mut out, pubkey);
    out.append(" }");
    assert(out@ =~= unredacted_text_of(privkey@, pubkey@));
    out
}

} // verus!
