//! Literal data on the wire: every introducer byte in it is doubled.

use crate::protocol::IAC;
use vstd::prelude::*;

verus! {

/// `bytes` with every introducer byte doubled and every other byte as it is.
pub open spec fn escaped(bytes: Seq<u8>) -> Seq<u8>
    decreases bytes.len(),
{
    if bytes.len() == 0 {
        Seq::empty()
    } else if bytes[0] == IAC {
        seq![IAC, IAC] + escaped(bytes.skip(1))
    } else {
        seq![bytes[0]] + escaped(bytes.skip(1))
    }
}

/// Whether `wire` keeps the doubling rule: read from the front, every
/// introducer byte is followed by a second one that belongs to it.
pub open spec fn well_escaped(wire: Seq<u8>) -> bool
    decreases wire.len(),
{
    if wire.len() == 0 {
        true
    } else if wire[0] == IAC {
        wire.len() >= 2 && wire[1] == IAC && well_escaped(wire.skip(2))
    } else {
        well_escaped(wire.skip(1))
    }
}

/// The literal data that `wire` stands for: each doubled introducer byte
/// counts once. It has a meaning only where `well_escaped(wire)`.
pub open spec fn unescaped(wire: Seq<u8>) -> Seq<u8>
    decreases wire.len(),
{
    if wire.len() == 0 {
        Seq::empty()
    } else if wire[0] == IAC && wire.len() >= 2 {
        seq![IAC] + unescaped(wire.skip(2))
    } else {
        seq![wire[0]] + unescaped(wire.skip(1))
    }
}

/// Escaping goes piece by piece: a text may be cut anywhere and its pieces
/// escaped one after the other.
pub proof fn lemma_escaped_concat(front: Seq<u8>, back: Seq<u8>)
    ensures
        escaped(front + back) == escaped(front) + escaped(back),
    decreases front.len(),
{
    if front.len() == 0 {
        assert(front + back =~= back);
        assert(escaped(front) + escaped(back) =~= escaped(back));
    } else {
        lemma_escaped_concat(front.skip(1), back);
        assert((front + back).skip(1) =~= front.skip(1) + back);
        assert((front + back)[0] == front[0]);
        if front[0] == IAC {
            assert(escaped(front + back) =~= (seq![IAC, IAC] + escaped(front.skip(1)))
                + escaped(back));
        } else {
            assert(escaped(front + back) =~= (seq![front[0]] + escaped(front.skip(1)))
                + escaped(back));
        }
    }
}

/// What was escaped keeps the doubling rule, and reading it back gives the
/// bytes that went in, whatever they are.
pub proof fn lemma_escape_round_trip(bytes: Seq<u8>)
    ensures
        well_escaped(escaped(bytes)),
        unescaped(escaped(bytes)) == bytes,
    decreases bytes.len(),
{
    if bytes.len() > 0 {
        let rest = escaped(bytes.skip(1));
        lemma_escape_round_trip(bytes.skip(1));
        if bytes[0] == IAC {
            let out = seq![IAC, IAC] + rest;
            assert(out.skip(2) =~= rest);
            assert(out[0] == IAC && out[1] == IAC);
            assert(unescaped(out) =~= seq![IAC] + bytes.skip(1));
        } else {
            let out = seq![bytes[0]] + rest;
            assert(out.skip(1) =~= rest);
            assert(out[0] == bytes[0]);
            assert(unescaped(out) =~= seq![bytes[0]] + bytes.skip(1));
        }
        assert(seq![bytes[0]] + bytes.skip(1) =~= bytes);
    } else {
        assert(bytes =~= Seq::<u8>::empty());
    }
}

/// Escaping never shortens, and it lengthens exactly the texts that hold an
/// introducer byte.
pub proof fn lemma_escaped_len(bytes: Seq<u8>)
    ensures
        bytes.len() <= escaped(bytes).len() <= 2 * bytes.len(),
        escaped(bytes).len() == bytes.len() <==> !bytes.contains(IAC),
    decreases bytes.len(),
{
    if bytes.len() > 0 {
        lemma_escaped_len(bytes.skip(1));
        let rest = bytes.skip(1);
        if bytes[0] == IAC {
            assert(bytes.contains(IAC));
        } else {
            if rest.contains(IAC) {
                let i = choose|i: int| 0 <= i < rest.len() && rest[i] == IAC;
                assert(bytes[i + 1] == IAC);
            }
            if bytes.contains(IAC) {
                let i = choose|i: int| 0 <= i < bytes.len() && bytes[i] == IAC;
                assert(rest[i - 1] == IAC);
            }
        }
    }
}

/// A payload that goes out as it is reads back as itself under the doubling
/// rule if and only if it holds no introducer byte. Exactly those payloads
/// come out of the escaping unchanged.
pub proof fn lemma_plain_payload(payload: Seq<u8>)
    ensures
        (well_escaped(payload) && unescaped(payload) == payload) <==> !payload.contains(IAC),
        escaped(payload) == payload <==> !payload.contains(IAC),
{
    lemma_escaped_len(payload);
    lemma_unescaped_len(payload);
    if !payload.contains(IAC) {
        lemma_without_introducer(payload);
    }
}

/// Reading back never lengthens, and it shortens every well escaped wire text
/// that holds an introducer byte.
pub proof fn lemma_unescaped_len(wire: Seq<u8>)
    ensures
        unescaped(wire).len() <= wire.len(),
        well_escaped(wire) && wire.contains(IAC) ==> unescaped(wire).len() < wire.len(),
    decreases wire.len(),
{
    if wire.len() > 0 {
        if wire[0] == IAC && wire.len() >= 2 {
            lemma_unescaped_len(wire.skip(2));
        } else {
            let rest = wire.skip(1);
            lemma_unescaped_len(rest);
            if well_escaped(wire) && wire.contains(IAC) {
                let i = choose|i: int| 0 <= i < wire.len() && wire[i] == IAC;
                assert(rest[i - 1] == IAC);
            }
        }
    }
}

/// A text without an introducer byte is its own escaped form and its own
/// reading.
pub proof fn lemma_without_introducer(bytes: Seq<u8>)
    requires
        !bytes.contains(IAC),
    ensures
        escaped(bytes) == bytes,
        well_escaped(bytes),
        unescaped(bytes) == bytes,
    decreases bytes.len(),
{
    if bytes.len() > 0 {
        let rest = bytes.skip(1);
        assert(bytes[0] != IAC);
        assert forall|i: int| 0 <= i < rest.len() implies rest[i] != IAC by {
            assert(rest[i] == bytes[i + 1]);
        }
        lemma_without_introducer(rest);
        assert(seq![bytes[0]] + rest =~= bytes);
    } else {
        assert(bytes =~= Seq::<u8>::empty());
    }
}

/// Doubles every introducer byte of `data`.
pub fn escape_iacs(data: &[u8]) -> (out: Vec<u8>)
    ensures
        out@ == escaped(data@),
{
    let mut out: Vec<u8> = Vec::new();
    let mut i: usize = 0;
    while i < data.len()
        invariant
            i <= data.len(),
            out@ == escaped(data@.take(i as int)),
        decreases data.len() - i,
    {
        let byte: u8 = data[i];
        proof {
            let seen = data@.take(i as int);
            lemma_escaped_concat(seen, seq![byte]);
            reveal_with_fuel(escaped, 2);
            assert(seq![byte].skip(1) =~= Seq::<u8>::empty());
            assert(escaped(seq![byte]) =~= if byte == IAC {
                seq![IAC, IAC]
            } else {
                seq![byte]
            });
            assert(data@.take(i + 1) =~= seen + seq![byte]);
        }
        if byte == IAC {
            out.push(IAC);
        }
        out.push(byte);
        i = i + 1;
    }
    assert(data@.take(data.len() as int) =~= data@);
    out
}

} // verus!
