//! The atom: a 16-bit identifier.
//!
//! On the wire an atom is three bytes: the tag, then the identifier with its
//! high byte first.

use crate::codec::{FromBadcat, IntoBadcat};
use crate::stream::{zero_padded, ByteSink, ByteSource};
use vstd::prelude::*;
use vstd::std_specs::convert::FromSpec;

verus! {

/// The tag byte of an atom.
pub const ATOM_TYPE: u8 = 0x0A;

/// The identifier that the payload bytes `hi`, `lo` spell, high byte first.
pub open spec fn be_u16(hi: u8, lo: u8) -> u16 {
    (hi as int * 256 + lo as int) as u16
}

/// An identifier; every 16-bit number is one.
#[derive(Debug, PartialEq, Eq, Structural, Clone, Copy)]
pub struct Atom(u16);

impl View for Atom {
    type V = u16;

    /// The atom's identifier.
    closed spec fn view(&self) -> u16 {
        self.0
    }
}

impl From<u16> for Atom {
    /// The atom with identifier `id`.
    #[inline]
    fn from(id: u16) -> (a: Atom)
        ensures
            a@ == id,
    {
        Atom(id)
    }
}

impl vstd::std_specs::convert::FromSpecImpl<u16> for Atom {
    open spec fn obeys_from_spec() -> bool {
        true
    }

    closed spec fn from_spec(id: u16) -> Atom {
        Atom(id)
    }
}

impl Atom {
    /// The atom's three bytes.
    pub fn encode(&self) -> (frame: [u8; 3])
        ensures
            frame@ == self.wire(),
    {
        let hi: u8 = (self.0 / 256) as u8;
        let lo: u8 = (self.0 % 256) as u8;
        let frame: [u8; 3] = [ATOM_TYPE, hi, lo];
        assert(frame@ =~= self.wire());
        frame
    }

    /// The atom that three bytes stand for: none unless the first is the tag.
    pub fn decode(frame: &[u8; 3]) -> (r: Result<Atom, ()>)
        ensures
            r == Atom::parse(frame@),
    {
        if frame[0] == ATOM_TYPE {
            let hi: u16 = frame[1] as u16;
            let lo: u16 = frame[2] as u16;
            Ok(Atom::from(hi * 256 + lo))
        } else {
            Err(())
        }
    }
}

impl IntoBadcat for Atom {
    /// The tag, then the identifier's high byte, then its low byte.
    open spec fn wire(&self) -> Seq<u8> {
        seq![ATOM_TYPE, (self@ / 256) as u8, (self@ % 256) as u8]
    }

    open spec fn units(&self) -> usize {
        3
    }

    /// Writes the tag and the identifier, high byte first, in one write.
    fn into_badcat<W: ByteSink>(&self, writer: &mut W) -> (r: Result<usize, ()>) {
        let frame: [u8; 3] = self.encode();
        match writer.write(frame.as_slice()) {
            Ok(_) => Ok(3),
            Err(_) => Err(()),
        }
    }
}

impl FromBadcat for Atom {
    open spec fn frame_len() -> nat {
        3
    }

    /// A frame stands for an atom exactly when it is three bytes long and
    /// starts with the tag; the other two bytes are then its identifier.
    open spec fn parse(frame: Seq<u8>) -> Result<Atom, ()> {
        if frame.len() == 3 && frame[0] == ATOM_TYPE {
            Ok(Atom::from_spec(be_u16(frame[1], frame[2])))
        } else {
            Err(())
        }
    }

    /// Reads up to three bytes into a zeroed frame and decodes the frame.
    fn from_badcat<R: ByteSource>(reader: &mut R) -> (r: Result<Atom, ()>) {
        match reader.read(3) {
            Ok(got) => {
                let frame: [u8; 3] = [
                    byte_or_zero(&got, 0),
                    byte_or_zero(&got, 1),
                    byte_or_zero(&got, 2),
                ];
                assert(frame@ =~= zero_padded(old(reader).pending(), 3));
                Atom::decode(&frame)
            },
            Err(_) => Err(()),
        }
    }
}

/// The atom made from `n` has `n` as its view.
pub proof fn lemma_atom_of_id(n: u16)
    ensures
        Atom::from_spec(n)@ == n,
{
}

/// An atom is its identifier: it is the atom made from its view, so two
/// atoms with one view are one atom.
pub proof fn lemma_atom_by_id(a: Atom, b: Atom)
    ensures
        a == Atom::from_spec(a@),
        a@ == b@ <==> a == b,
{
}

/// Round trip: the bytes that encoding the atom of `n` writes decode to that
/// atom again.
pub proof fn lemma_round_trip(n: u16)
    ensures
        Atom::parse(zero_padded(Atom::from_spec(n).wire(), Atom::frame_len())) == Ok::<Atom, ()>(
            Atom::from_spec(n),
        ),
{
    lemma_round_trip_in_stream(Atom::from_spec(n), Seq::empty());
    assert(Atom::from_spec(n).wire() + Seq::<u8>::empty() =~= Atom::from_spec(n).wire());
}

/// Round trip in a longer stream: whatever follows an atom's bytes in a
/// source, reading one atom off its front gives that atom.
pub proof fn lemma_round_trip_in_stream(a: Atom, rest: Seq<u8>)
    ensures
        Atom::parse(zero_padded(a.wire() + rest, Atom::frame_len())) == Ok::<Atom, ()>(a),
        (a.wire() + rest).skip(Atom::frame_len() as int) == rest,
{
    let frame = zero_padded(a.wire() + rest, 3);
    assert(frame =~= a.wire());
    assert(be_u16((a@ / 256) as u8, (a@ % 256) as u8) == a@);
    assert((a.wire() + rest).skip(3) =~= rest);
}

/// Fixed framing: an atom's wire form is three bytes, the first of them the
/// tag, and three is the size an encode reports.
pub proof fn lemma_fixed_framing(a: Atom)
    ensures
        a.wire().len() == 3,
        a.wire()[0] == ATOM_TYPE,
        a.units() == 3,
{
}

/// Big-endian payload: the second byte of the wire form is the identifier's
/// high byte and the third its low byte.
pub proof fn lemma_payload_big_endian(a: Atom)
    ensures
        a.wire()[1] as int * 256 + a.wire()[2] as int == a@,
        be_u16(a.wire()[1], a.wire()[2]) == a@,
{
}

/// Tag rejection: three bytes that do not start with the tag decode to
/// nothing, whatever the other two are; three that do, decode to an atom.
pub proof fn lemma_tag_decides(frame: Seq<u8>)
    requires
        frame.len() == 3,
    ensures
        frame[0] != ATOM_TYPE ==> Atom::parse(frame) is Err,
        frame[0] == ATOM_TYPE ==> Atom::parse(frame) == Ok::<Atom, ()>(
            Atom::from_spec(be_u16(frame[1], frame[2])),
        ),
{
}

/// The byte of `bytes` at `i`, or zero past its end.
fn byte_or_zero(bytes: &Vec<u8>, i: usize) -> (b: u8)
    ensures
        b == zero_padded(bytes@, (i + 1) as nat)[i as int],
{
    if i < bytes.len() {
        bytes[i]
    } else {
        0
    }
}

} // verus!
