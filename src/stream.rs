use vstd::prelude::*;

use crate::error::GraphicError;

verus! {

/// What a token of the compressed stream does with its run length.
#[derive(Debug, Clone, Copy, PartialEq, Eq, Structural)]
pub enum TokenKind {
    /// Upper nibble 0x0-0x2: copy the next `length` bytes verbatim.
    Literal,
    /// Upper nibble 0x8-0xA: repeat one explicit fill byte `length` times.
    Fill,
    /// Upper nibble 0xC-0xE: emit `length` zero bytes.
    Zero,
}

/// The kind of token that a control byte opens; `None` for an invalid nibble.
pub open spec fn token_kind(control: u8) -> Option<TokenKind> {
    let nibble = control / 16;
    if nibble <= 2 {
        Some(TokenKind::Literal)
    } else if 8 <= nibble <= 10 {
        Some(TokenKind::Fill)
    } else if 12 <= nibble <= 14 {
        Some(TokenKind::Zero)
    } else {
        None
    }
}

/// How many length-extension bytes follow the control byte (0, 1 or 2): the
/// upper nibble modulo 4 gives the class for every valid nibble.
pub open spec fn length_class(control: u8) -> int {
    (control / 16) as int % 4
}

/// The bytes a token occupies before its payload: control byte, length
/// extension, and the fill byte of a `Fill` token.
pub open spec fn header_size(control: u8) -> int {
    1 + length_class(control) + if token_kind(control) == Some(TokenKind::Fill) {
        1int
    } else {
        0int
    }
}

/// The run length of the token that starts `s`: the low four bits of the
/// control byte, followed by the extension bytes, most significant first.
pub open spec fn run_length(s: Seq<u8>) -> int {
    let low = (s[0] % 16) as int;
    if length_class(s[0]) == 0 {
        low
    } else if length_class(s[0]) == 1 {
        low * 0x100 + s[1] as int
    } else {
        low * 0x1_0000 + s[1] as int * 0x100 + s[2] as int
    }
}

/// The number of input bytes that the token starting `s` occupies.
pub open spec fn token_size(s: Seq<u8>) -> int {
    header_size(s[0]) + if token_kind(s[0]) == Some(TokenKind::Literal) {
        run_length(s)
    } else {
        0int
    }
}

/// The bytes that the token starting `s` expands to.
pub open spec fn token_output(s: Seq<u8>) -> Seq<u8> {
    let h = header_size(s[0]);
    let n = run_length(s);
    if token_kind(s[0]) == Some(TokenKind::Literal) {
        s.subrange(h, h + n)
    } else if token_kind(s[0]) == Some(TokenKind::Fill) {
        Seq::new(n as nat, |_i: int| s[h - 1])
    } else {
        Seq::new(n as nat, |_i: int| 0u8)
    }
}

/// `r` with `prefix` put in front of its successful output.
pub open spec fn prepend(prefix: Seq<u8>, r: Result<Seq<u8>, GraphicError>) -> Result<
    Seq<u8>,
    GraphicError,
> {
    match r {
        Ok(rest) => Ok(prefix + rest),
        Err(e) => Err(e),
    }
}

/// What the compressed stream `s` decodes to: its tokens expanded in order, or
/// the error met at the first bad token.
pub open spec fn decode_stream(s: Seq<u8>) -> Result<Seq<u8>, GraphicError>
    decreases s.len(),
{
    if s.len() == 0 {
        Ok(Seq::empty())
    } else if token_kind(s[0]) is None {
        Err(GraphicError::CorruptStream)
    } else if s.len() < header_size(s[0]) || s.len() < token_size(s) {
        Err(GraphicError::TruncatedStream)
    } else {
        prepend(token_output(s), decode_stream(s.skip(token_size(s))))
    }
}

/// The copy token that carries `payload` verbatim, in the smallest length
/// class that can hold its size.
pub open spec fn literal_token(payload: Seq<u8>) -> Seq<u8> {
    let n = payload.len();
    if n < 0x10 {
        seq![n as u8] + payload
    } else if n < 0x1000 {
        seq![(0x10 + n / 0x100) as u8, (n % 0x100) as u8] + payload
    } else {
        seq![(0x20 + n / 0x1_0000) as u8, (n / 0x100 % 0x100) as u8, (n % 0x100) as u8] + payload
    }
}

/// Encoding any payload of fewer than 2^20 bytes as one copy token and
/// decoding the result gives back exactly that payload.
pub proof fn lemma_literal_round_trip(payload: Seq<u8>)
    requires
        payload.len() < 0x10_0000,
    ensures
        decode_stream(literal_token(payload)) == Ok::<Seq<u8>, GraphicError>(payload),
{
    let s = literal_token(payload);
    let n = payload.len();
    let used = token_size(s);
    assert(token_kind(s[0]) == Some(TokenKind::Literal));
    assert(run_length(s) == n);
    assert(used == s.len());
    assert(token_output(s) =~= payload);
    assert(s.skip(used) =~= Seq::<u8>::empty());
    assert(decode_stream(s.skip(used)) == Ok::<Seq<u8>, GraphicError>(Seq::empty()));
    assert(s.len() >= header_size(s[0]));
    assert(payload + Seq::<u8>::empty() =~= payload);
}

/// A stream whose first control byte has an upper nibble of 0x3-0x7, 0xB or
/// 0xF fails as corrupt, whatever bytes follow it.
pub proof fn lemma_invalid_nibble_corrupt(s: Seq<u8>)
    requires
        s.len() > 0,
        3 <= s[0] / 16 <= 7 || s[0] / 16 == 0xB || s[0] / 16 == 0xF,
    ensures
        decode_stream(s) == Err::<Seq<u8>, GraphicError>(GraphicError::CorruptStream),
{
}

/// The owned bytes of a payload, compressed or already expanded.
#[derive(Debug)]
pub struct GraphicData(pub Vec<u8>);

impl View for GraphicData {
    type V = Seq<u8>;

    open spec fn view(&self) -> Seq<u8> {
        self.0@
    }
}

/// `r` seen as the bytes it holds.
pub open spec fn data_result(r: Result<GraphicData, GraphicError>) -> Result<Seq<u8>, GraphicError> {
    match r {
        Ok(d) => Ok(d@),
        Err(e) => Err(e),
    }
}

proof fn lemma_prepend_concat(a: Seq<u8>, b: Seq<u8>, r: Result<Seq<u8>, GraphicError>)
    ensures
        prepend(a, prepend(b, r)) == prepend(a + b, r),
{
    if let Ok(rest) = r {
        assert(a + (b + rest) =~= (a + b) + rest);
    }
}

/// Appends `n` copies of `value` to `out`.
fn push_run(out: &mut Vec<u8>, value: u8, n: usize)
    ensures
        final(out)@ == old(out)@ + Seq::new(n as nat, |_i: int| value),
{
    let mut i: usize = 0;
    while i < n
        invariant
            i <= n,
            out@ == old(out)@ + Seq::new(i as nat, |_j: int| value),
        decreases n - i,
    {
        out.push(value);
        i += 1;
        assert(out@ =~= old(out)@ + Seq::new(i as nat, |_j: int| value));
    }
}

/// Appends `src[start..start + n]` to `out`.
pub(crate) fn push_copy(out: &mut Vec<u8>, src: &Vec<u8>, start: usize, n: usize)
    requires
        start + n <= src@.len(),
    ensures
        final(out)@ == old(out)@ + src@.subrange(start as int, start + n),
{
    let total = src.len();
    let mut i: usize = 0;
    while i < n
        invariant
            i <= n,
            total == src@.len(),
            start + n <= src@.len(),
            out@ == old(out)@ + src@.subrange(start as int, start + i),
        decreases n - i,
    {
        out.push(src[start + i]);
        i += 1;
        assert(out@ =~= old(out)@ + src@.subrange(start as int, start + i));
    }
}

impl GraphicData {
    /// Expands the run-length stream into a new buffer of palette indices.
    pub fn decode(&self) -> (r: Result<GraphicData, GraphicError>)
        ensures
            data_result(r) == decode_stream(self@),
    {
        let bytes = &self.0;
        let len = bytes.len();
        let mut out: Vec<u8> = Vec::new();
        let mut pos: usize = 0;
        assert(bytes@.skip(0) =~= bytes@);
        while pos < len
            invariant
                len == bytes@.len(),
                bytes@ == self@,
                pos <= len,
                decode_stream(bytes@) == prepend(out@, decode_stream(bytes@.skip(pos as int))),
            decreases len - pos,
        {
            let ghost rest = bytes@.skip(pos as int);
            let ghost prev = out@;
            let control = bytes[pos];
            assert(rest.len() > 0 && rest[0] == control);
            let nibble = control / 16;
            let kind = if nibble <= 2 {
                TokenKind::Literal
            } else if 8 <= nibble && nibble <= 10 {
                TokenKind::Fill
            } else if 12 <= nibble && nibble <= 14 {
                TokenKind::Zero
            } else {
                assert(decode_stream(rest) == Err::<Seq<u8>, GraphicError>(GraphicError::CorruptStream));
                return Err(GraphicError::CorruptStream);
            };
            assert(token_kind(rest[0]) == Some(kind));
            let class = (nibble % 4) as usize;
            let header: usize = 1 + class + if kind == TokenKind::Fill {
                1usize
            } else {
                0usize
            };
            assert(header == header_size(control));
            if len - pos < header {
                assert(decode_stream(rest) == Err::<Seq<u8>, GraphicError>(GraphicError::TruncatedStream));
                return Err(GraphicError::TruncatedStream);
            }
            let low = (control % 16) as u32;
            let n: u32 = if class == 0 {
                low
            } else if class == 1 {
                low * 0x100 + bytes[pos + 1] as u32
            } else {
                low * 0x1_0000 + bytes[pos + 1] as u32 * 0x100 + bytes[pos + 2] as u32
            };
            assert(n == run_length(rest));
            let n = n as usize;
            match kind {
                TokenKind::Literal => {
                    if len - pos - header < n {
                        assert(decode_stream(rest) == Err::<Seq<u8>, GraphicError>(GraphicError::TruncatedStream));
                        return Err(GraphicError::TruncatedStream);
                    }
                    push_copy(&mut out, bytes, pos + header, n);
                    assert(bytes@.subrange(pos + header, pos + header + n) =~= token_output(rest));
                    pos = pos + header + n;
                },
                TokenKind::Fill => {
                    let value = bytes[pos + header - 1];
                    push_run(&mut out, value, n);
                    assert(Seq::new(n as nat, |_i: int| value) =~= token_output(rest));
                    pos = pos + header;
                },
                TokenKind::Zero => {
                    push_run(&mut out, 0u8, n);
                    assert(Seq::new(n as nat, |_i: int| 0u8) =~= token_output(rest));
                    pos = pos + header;
                },
            }
            proof {
                assert(rest.skip(token_size(rest)) =~= bytes@.skip(pos as int));
                lemma_prepend_concat(prev, token_output(rest), decode_stream(bytes@.skip(pos as int)));
            }
        }
        assert(out@ + Seq::<u8>::empty() =~= out@);
        Ok(GraphicData(out))
    }
}

} // verus!
