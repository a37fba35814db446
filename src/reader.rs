use vstd::prelude::*;
use vstd::utf8::{decode_utf8, valid_utf8};

verus! {

/// Errors raised while decoding a song, instrument, scale or theme file.
#[derive(PartialEq, Eq, Structural, Debug, Clone, Copy)]
pub enum ParseError {
    /// The buffer is shorter than the layout of its version needs.
    TooShort,
    /// The text field starting at this offset is not valid UTF-8.
    InvalidUtf8(usize),
    /// An instrument slot starts with a type byte that names no instrument.
    UnknownInstrumentKind(u8),
}

/// Index of the first NUL or 0xFF byte at or after `k`, or 0 when there is none.
pub open spec fn text_end_from(b: Seq<u8>, k: int) -> int
    decreases b.len() - k,
{
    if k >= b.len() || k < 0 {
        0
    } else if b[k] == 0 || b[k] == 0xFF {
        k
    } else {
        text_end_from(b, k + 1)
    }
}

/// The bytes of a fixed-width text field up to its terminator. A field with
/// no terminator holds no text.
pub open spec fn text_bytes(field: Seq<u8>) -> Seq<u8> {
    field.subrange(0, text_end_from(field, 0))
}

/// The field of `n` bytes at `p` holds valid text.
pub open spec fn text_valid_at(b: Seq<u8>, p: int, n: int) -> bool {
    valid_utf8(text_bytes(b.subrange(p, p + n)))
}

/// The text of the field of `n` bytes at `p`.
pub open spec fn text_at(b: Seq<u8>, p: int, n: int) -> Seq<char> {
    decode_utf8(text_bytes(b.subrange(p, p + n)))
}

/// Relies on std's `String::from_utf8`: it succeeds exactly when the bytes are
/// valid UTF-8, and the string then holds the decoded characters.
#[verifier::external_body]
fn string_from_utf8(b: Vec<u8>) -> (r: Option<String>)
    ensures
        r is Some <==> valid_utf8(b@),
        r matches Some(s) ==> s@ == decode_utf8(b@),
{
    String::from_utf8(b).ok()
}

/// A cursor over an owned byte buffer.
pub struct Reader {
    pub buffer: Vec<u8>,
    pub position: usize,
}

impl Reader {
    pub fn new(buffer: Vec<u8>) -> (r: Self)
        ensures
            r.buffer@ == buffer@,
            r.position == 0,
    {
        Reader { buffer, position: 0 }
    }

    /// Reads one byte.
    pub fn read(&mut self) -> (r: u8)
        requires
            old(self).position < old(self).buffer@.len(),
        ensures
            r == old(self).buffer@[old(self).position as int],
            final(self).position == old(self).position + 1,
            final(self).buffer@ == old(self).buffer@,
    {
        let b = self.buffer[self.position];
        let len = self.buffer.len();
        self.position = self.position + 1;
        b
    }

    /// Reads `n` bytes.
    pub fn read_bytes(&mut self, n: usize) -> (r: Vec<u8>)
        requires
            old(self).position + n <= old(self).buffer@.len(),
        ensures
            r@ == old(self).buffer@.subrange(
                old(self).position as int,
                old(self).position + n,
            ),
            final(self).position == old(self).position + n,
            final(self).buffer@ == old(self).buffer@,
    {
        let start = self.position;
        let len = self.buffer.len();
        let mut r: Vec<u8> = Vec::new();
        let mut i: usize = 0;
        while i < n
            invariant
                self.buffer@ == old(self).buffer@,
                start == old(self).position,
                start + n <= self.buffer@.len(),
                len == self.buffer@.len(),
                i <= n,
                r@ == self.buffer@.subrange(start as int, start + i),
            decreases n - i,
        {
            r.push(self.buffer[start + i]);
            i += 1;
            assert(r@ =~= self.buffer@.subrange(start as int, start + i));
        }
        self.position = start + n;
        r
    }

    /// Moves past `n` bytes.
    pub fn skip(&mut self, n: usize)
        requires
            old(self).position + n <= old(self).buffer@.len(),
        ensures
            final(self).position == old(self).position + n,
            final(self).buffer@ == old(self).buffer@,
    {
        let len = self.buffer.len();
        self.position = self.position + n;
    }

    /// Reads a byte as a flag: set when it is 1.
    pub fn read_bool(&mut self) -> (r: bool)
        requires
            old(self).position < old(self).buffer@.len(),
        ensures
            r == (old(self).buffer@[old(self).position as int] == 1),
            final(self).position == old(self).position + 1,
            final(self).buffer@ == old(self).buffer@,
    {
        self.read() == 1
    }

    /// Reads a text field of `n` bytes, cut at its first NUL or 0xFF byte.
    pub fn read_string(&mut self, n: usize) -> (r: Result<String, ParseError>)
        requires
            old(self).position + n <= old(self).buffer@.len(),
        ensures
            r is Ok <==> text_valid_at(old(self).buffer@, old(self).position as int, n as int),
            r matches Ok(s) ==> s@ == text_at(
                old(self).buffer@,
                old(self).position as int,
                n as int,
            ),
            r is Err ==> r == Err::<String, ParseError>(
                ParseError::InvalidUtf8(old(self).position),
            ),
            final(self).position == old(self).position + n,
            final(self).buffer@ == old(self).buffer@,
    {
        let start = self.position;
        let field = self.read_bytes(n);
        let mut k: usize = 0;
        while k < n && field[k] != 0 && field[k] != 0xFF
            invariant
                field@.len() == n,
                k <= n,
                text_end_from(field@, k as int) == text_end_from(field@, 0),
                forall|j: int| 0 <= j < k ==> field@[j] != 0 && field@[j] != 0xFF,
            decreases n - k,
        {
            k += 1;
        }
        let end: usize = if k < n { k } else { 0 };
        assert(end as int == text_end_from(field@, 0));
        let mut text: Vec<u8> = Vec::new();
        let mut i: usize = 0;
        while i < end
            invariant
                end <= field@.len(),
                i <= end,
                text@ == field@.subrange(0, i as int),
            decreases end - i,
        {
            text.push(field[i]);
            i += 1;
            assert(text@ =~= field@.subrange(0, i as int));
        }
        assert(text@ == text_bytes(field@));
        match string_from_utf8(text) {
            Some(s) => Ok(s),
            None => Err(ParseError::InvalidUtf8(start)),
        }
    }

    pub fn pos(&self) -> (r: usize)
        ensures
            r == self.position,
    {
        self.position
    }

    /// Moves to an absolute offset.
    pub fn set_pos(&mut self, n: usize)
        requires
            n <= old(self).buffer@.len(),
        ensures
            final(self).position == n,
            final(self).buffer@ == old(self).buffer@,
    {
        self.position = n;
    }
}

} // verus!
