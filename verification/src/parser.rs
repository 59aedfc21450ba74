use vstd::prelude::*;

verus! {

/// Whether a byte is ASCII whitespace or punctuation: the sanitizing stream
/// drops these.
pub open spec fn is_blank_byte(b: u8) -> bool {
    b == 9 || b == 10 || b == 12 || b == 13 || b == 32 || (33 <= b <= 47) || (58 <= b <= 64) || (
    91 <= b <= 96) || (123 <= b <= 126)
}

/// Whether a byte is an uppercase ASCII letter.
pub open spec fn is_upper_byte(b: u8) -> bool {
    65 <= b <= 90
}

/// Whether a byte is a lowercase ASCII letter.
pub open spec fn is_lower_byte(b: u8) -> bool {
    97 <= b <= 122
}

/// The bytes the sanitizing stream accepts: whitespace and punctuation to
/// drop, letters of either case to pass on.  Anything else — digits, control
/// bytes, non-ASCII — has no letter to map to.
pub open spec fn acceptable_byte(b: u8) -> bool {
    is_blank_byte(b) || is_upper_byte(b) || is_lower_byte(b)
}

/// A letter byte folded to its uppercase form.
pub open spec fn to_upper(b: u8) -> u8 {
    if is_lower_byte(b) {
        (b - 32) as u8
    } else {
        b
    }
}

/// What a raw byte stream looks like after sanitizing: whitespace and
/// punctuation dropped, letters case-folded to uppercase.
pub open spec fn sanitize(s: Seq<u8>) -> Seq<u8>
    decreases s.len(),
{
    if s.len() == 0 {
        Seq::empty()
    } else if is_blank_byte(s[0]) {
        sanitize(s.drop_first())
    } else {
        seq![to_upper(s[0])] + sanitize(s.drop_first())
    }
}

/// Classifies one byte of raw input: whitespace and punctuation yield
/// nothing, letters yield their uppercase form.  Bytes of no class are left
/// out of the domain; a caller that may meet them must test first.
pub fn parse_byte(byte: u8) -> (r: Option<u8>)
    requires
        acceptable_byte(byte),
    ensures
        r is Some <==> !is_blank_byte(byte),
        r matches Some(b) ==> b == to_upper(byte) && is_upper_byte(b),
{
    if byte >= 65 && byte <= 90 {
        Some(byte)
    } else if byte >= 97 && byte <= 122 {
        Some(byte - 32)
    } else {
        None
    }
}

/// A sanitizing source stream over an in-memory buffer: yields the uppercase
/// letters of the buffer one at a time, skipping whitespace and punctuation.
#[derive(Debug)]
pub struct BufferParser {
    pub bytes: Vec<u8>,
    pub pos: usize,
}

impl BufferParser {
    /// The bytes not yet consumed.
    pub open spec fn remaining(self) -> Seq<u8> {
        self.bytes@.subrange(self.pos as int, self.bytes@.len() as int)
    }

    /// The position never runs past the buffer.
    pub open spec fn wf(self) -> bool {
        self.pos <= self.bytes@.len()
    }

    /// Every byte of `s` is one the stream can classify.
    pub open spec fn all_acceptable(s: Seq<u8>) -> bool {
        forall|i: int| 0 <= i < s.len() ==> acceptable_byte(#[trigger] s[i])
    }

    /// Wraps a buffer, consuming nothing yet.
    pub fn new(bytes: Vec<u8>) -> (p: BufferParser)
        ensures
            p.wf(),
            p.bytes@ == bytes@,
            p.pos == 0,
            p.remaining() == bytes@,
    {
        let p = BufferParser { bytes, pos: 0 };
        proof {
            assert(p.remaining() =~= p.bytes@);
        }
        p
    }

    /// Yields the next letter: the head of the sanitized remainder, or
    /// nothing when only whitespace and punctuation are left.
    pub fn next(&mut self) -> (r: Option<u8>)
        requires
            old(self).wf(),
            Self::all_acceptable(old(self).remaining()),
        ensures
            final(self).wf(),
            final(self).bytes@ == old(self).bytes@,
            Self::all_acceptable(final(self).remaining()),
            r matches Some(b) ==> is_upper_byte(b) && sanitize(old(self).remaining()) == seq![b]
                + sanitize(final(self).remaining()) && final(self).pos > old(self).pos,
            r is None ==> sanitize(old(self).remaining()) == Seq::<u8>::empty() && final(
                self).pos == final(self).bytes@.len(),
    {
        while self.pos < self.bytes.len()
            invariant
                self.wf(),
                self.bytes@ == old(self).bytes@,
                old(self).pos <= self.pos,
                Self::all_acceptable(self.remaining()),
                sanitize(old(self).remaining()) == sanitize(self.remaining()),
            decreases self.bytes@.len() - self.pos,
        {
            let b = self.bytes[self.pos];
            proof {
                assert(self.remaining()[0] == b);
                assert(self.remaining().drop_first() =~= self.bytes@.subrange(
                    self.pos + 1, self.bytes@.len() as int));
            }
            if b >= 65 && b <= 90 {
                self.pos = self.pos + 1;
                return Some(b);
            } else if b >= 97 && b <= 122 {
                self.pos = self.pos + 1;
                return Some(b - 32);
            } else {
                self.pos = self.pos + 1;
            }
        }
        proof {
            assert(self.remaining() =~= Seq::<u8>::empty());
        }
        None
    }

    /// Sanitizes the whole remainder at once, leaving the stream exhausted.
    pub fn collect_letters(&mut self) -> (r: Vec<u8>)
        requires
            old(self).wf(),
            Self::all_acceptable(old(self).remaining()),
        ensures
            final(self).wf(),
            final(self).bytes@ == old(self).bytes@,
            r@ == sanitize(old(self).remaining()),
            sanitize(final(self).remaining()) == Seq::<u8>::empty(),
            forall|k: int| 0 <= k < r@.len() ==> is_upper_byte(#[trigger] r@[k]),
    {
        let mut out: Vec<u8> = Vec::new();
        loop
            invariant
                self.wf(),
                self.bytes@ == old(self).bytes@,
                Self::all_acceptable(self.remaining()),
                sanitize(old(self).remaining()) == out@ + sanitize(self.remaining()),
                forall|k: int| 0 <= k < out@.len() ==> is_upper_byte(#[trigger] out@[k]),
            ensures
                sanitize(self.remaining()) == Seq::<u8>::empty(),
                self.bytes@ == old(self).bytes@,
                self.wf(),
            decreases self.bytes@.len() - self.pos,
        {
            proof {
                assert(out@ + sanitize(self.remaining()) =~= sanitize(old(self).remaining()));
            }
            match self.next() {
                Some(b) => {
                    proof {
                        assert((out@ + seq![b]) + sanitize(self.remaining()) =~= out@ + (seq![b]
                            + sanitize(self.remaining())));
                    }
                    out.push(b);
                },
                None => {
                    break ;
                },
            }
        }
        proof {
            assert(out@ + sanitize(self.remaining()) =~= out@);
        }
        out
    }
}

} // verus!
