//! The verbose tap: an optional wrapper around a transport whose reads and
//! writes are logged with the bytes escaped into printable ASCII.
//!
//! The log lines are built here; writing them out and the I/O itself are left
//! to the caller.
use vstd::prelude::*;
use vstd::string::StringSliceAdditionalSpecFns;
use crate::bytes::append_bytes;

verus! {

/// Lowercase hexadecimal digit of `n < 16`.
pub open spec fn hex_digit(n: nat) -> u8 {
    if n < 10 {
        (48 + n) as u8
    } else {
        (87 + n) as u8
    }
}

/// The rendering of one byte inside a byte-string literal: `\n`, `\r`, `\t`,
/// `\\`, `\"` and `\0` as escapes, other printable ASCII as itself, anything
/// else as `\xHH`.
pub open spec fn escape_byte(c: u8) -> Seq<u8> {
    if c == 10 {
        "\\n".spec_bytes()
    } else if c == 13 {
        "\\r".spec_bytes()
    } else if c == 9 {
        "\\t".spec_bytes()
    } else if c == 92 || c == 34 {
        seq![92u8, c]
    } else if c == 0 {
        "\\0".spec_bytes()
    } else if 0x20 <= c < 0x7f {
        seq![c]
    } else {
        "\\x".spec_bytes() + seq![hex_digit(c as nat / 16), hex_digit(c as nat % 16)]
    }
}

/// The escapes of every byte of `s`, in order.
pub open spec fn escape_body(s: Seq<u8>) -> Seq<u8>
    decreases s.len(),
{
    if s.len() == 0 {
        Seq::empty()
    } else {
        escape_body(s.drop_last()) + escape_byte(s.last())
    }
}

/// `s` written as a byte-string literal: `b"`, the escapes, `"`.
pub open spec fn escaped(s: Seq<u8>) -> Seq<u8> {
    "b\"".spec_bytes() + escape_body(s) + "\"".spec_bytes()
}

fn append_hex_digit(out: &mut Vec<u8>, n: u8)
    requires
        n < 16,
    ensures
        final(out)@ == old(out)@.push(hex_digit(n as nat)),
{
    if n < 10 {
        out.push(48 + n);
    } else {
        out.push(87 + n);
    }
}

fn append_escaped_byte(out: &mut Vec<u8>, c: u8)
    ensures
        final(out)@ == old(out)@ + escape_byte(c),
{
    if c == 10 {
        append_bytes(out, "\\n".as_bytes());
    } else if c == 13 {
        append_bytes(out, "\\r".as_bytes());
    } else if c == 9 {
        append_bytes(out, "\\t".as_bytes());
    } else if c == 92 || c == 34 {
        out.push(92);
        out.push(c);
        assert(final(out)@ =~= old(out)@ + escape_byte(c));
    } else if c == 0 {
        append_bytes(out, "\\0".as_bytes());
    } else if 0x20 <= c && c < 0x7f {
        out.push(c);
        assert(final(out)@ =~= old(out)@ + escape_byte(c));
    } else {
        append_bytes(out, "\\x".as_bytes());
        append_hex_digit(out, c / 16);
        append_hex_digit(out, c % 16);
        assert(final(out)@ =~= old(out)@ + escape_byte(c));
    }
}

/// Appends `s` written as a byte-string literal.
pub fn append_escaped(out: &mut Vec<u8>, s: &[u8])
    ensures
        final(out)@ == old(out)@ + escaped(s@),
{
    append_bytes(out, "b\"".as_bytes());
    let ghost start = out@;
    let mut i: usize = 0;
    while i < s.len()
        invariant
            i <= s@.len(),
            out@ == start + escape_body(s@.subrange(0, i as int)),
        decreases s@.len() - i,
    {
        append_escaped_byte(out, s[i]);
        proof {
            assert(s@.subrange(0, i + 1 as int).drop_last() =~= s@.subrange(0, i as int));
            assert(out@ =~= start + escape_body(s@.subrange(0, i + 1 as int)));
        }
        i = i + 1;
    }
    assert(s@.subrange(0, i as int) =~= s@);
    append_bytes(out, "\"".as_bytes());
    assert(final(out)@ =~= old(out)@ + escaped(s@));
}

/// `s` written as a byte-string literal.
pub fn escape(s: &[u8]) -> (r: Vec<u8>)
    ensures
        r@ == escaped(s@),
{
    let mut out: Vec<u8> = Vec::new();
    append_escaped(&mut out, s);
    assert(out@ =~= escaped(s@));
    out
}

/// The bytes of a vectored write of `written` bytes, buffer by buffer from
/// `bufs[i]` on: each buffer that the count reaches, cut to what remains of the
/// count, as a byte-string literal.
pub open spec fn vectored_from(bufs: Seq<Seq<u8>>, i: int, left: nat) -> Seq<u8>
    decreases bufs.len() - i,
{
    if i < 0 || i >= bufs.len() || left == 0 {
        Seq::empty()
    } else {
        let n = if left < bufs[i].len() {
            left
        } else {
            bufs[i].len()
        };
        escaped(bufs[i].subrange(0, n as int)) + vectored_from(bufs, i + 1, (left - n) as nat)
    }
}

pub open spec fn views(bufs: Seq<Vec<u8>>) -> Seq<Seq<u8>> {
    bufs.map_values(|b: Vec<u8>| b@)
}

/// Appends the rendering of a vectored write that wrote `written` bytes of `bufs`.
pub fn append_vectored(out: &mut Vec<u8>, bufs: &Vec<Vec<u8>>, written: usize)
    ensures
        final(out)@ == old(out)@ + vectored_from(views(bufs@), 0, written as nat),
{
    let ghost vs = views(bufs@);
    let mut left = written;
    let mut i: usize = 0;
    while i < bufs.len()
        invariant
            i <= bufs@.len(),
            vs == views(bufs@),
            old(out)@ + vectored_from(vs, 0, written as nat) == out@ + vectored_from(
                vs,
                i as int,
                left as nat,
            ),
        ensures
            i == bufs@.len() || left == 0,
            old(out)@ + vectored_from(vs, 0, written as nat) == out@ + vectored_from(
                vs,
                i as int,
                left as nat,
            ),
        decreases bufs@.len() - i,
    {
        if left == 0 {
            break;
        }
        let buf = &bufs[i];
        let n = if left < buf.len() {
            left
        } else {
            buf.len()
        };
        let ghost before = out@;
        append_escaped(out, buf.as_slice().split_at(n).0);
        proof {
            assert(vs[i as int] == buf@);
            assert(out@ + vectored_from(vs, i + 1, (left - n) as nat) =~= before + vectored_from(
                vs,
                i as int,
                left as nat,
            ));
        }
        left = left - n;
        i = i + 1;
    }
    assert(out@ + vectored_from(vs, i as int, left as nat) =~= out@);
}

/// The low `width` hexadecimal digits of `n`, lowercase, zero-padded on the left.
pub open spec fn hex_fixed(n: nat, width: nat) -> Seq<u8>
    decreases width,
{
    if width == 0 {
        Seq::empty()
    } else {
        hex_fixed(n / 16, (width - 1) as nat).push(hex_digit(n % 16))
    }
}

/// Appends `n` as `width` lowercase hexadecimal digits.
fn append_hex_fixed(out: &mut Vec<u8>, n: u32, width: u32)
    ensures
        final(out)@ == old(out)@ + hex_fixed(n as nat, width as nat),
    decreases width,
{
    if width > 0 {
        append_hex_fixed(out, n / 16, width - 1);
        append_hex_digit(out, (n % 16) as u8);
        assert(final(out)@ =~= old(out)@ + hex_fixed(n as nat, width as nat));
    } else {
        assert(final(out)@ =~= old(out)@ + hex_fixed(n as nat, width as nat));
    }
}

/// The log line of a read of `data` on the connection tagged `id`:
/// `id` as 8 hexadecimal digits, then ` read: ` and the bytes.
pub fn read_line(id: u32, data: &[u8]) -> (r: Vec<u8>)
    ensures
        r@ == hex_fixed(id as nat, 8) + " read: ".spec_bytes() + escaped(data@),
{
    let mut out: Vec<u8> = Vec::new();
    append_hex_fixed(&mut out, id, 8);
    append_bytes(&mut out, " read: ".as_bytes());
    append_escaped(&mut out, data);
    assert(out@ =~= hex_fixed(id as nat, 8) + " read: ".spec_bytes() + escaped(data@));
    out
}

/// The log line of a write on the connection tagged `id` of which `written`
/// bytes of `data` went out; only those are shown.
pub fn write_line(id: u32, data: &[u8], written: usize) -> (r: Vec<u8>)
    requires
        written <= data@.len(),
    ensures
        r@ == hex_fixed(id as nat, 8) + " write: ".spec_bytes() + escaped(
            data@.subrange(0, written as int),
        ),
{
    let mut out: Vec<u8> = Vec::new();
    append_hex_fixed(&mut out, id, 8);
    append_bytes(&mut out, " write: ".as_bytes());
    append_escaped(&mut out, data.split_at(written).0);
    assert(out@ =~= hex_fixed(id as nat, 8) + " write: ".spec_bytes() + escaped(
        data@.subrange(0, written as int),
    ));
    out
}

/// The log line of a vectored write on the connection tagged `id` that wrote
/// `written` bytes of `bufs`, walking the buffers in order.
pub fn write_vectored_line(id: u32, bufs: &Vec<Vec<u8>>, written: usize) -> (r: Vec<u8>)
    ensures
        r@ == hex_fixed(id as nat, 8) + " write (vectored): ".spec_bytes() + vectored_from(
            views(bufs@),
            0,
            written as nat,
        ),
{
    let mut out: Vec<u8> = Vec::new();
    append_hex_fixed(&mut out, id, 8);
    append_bytes(&mut out, " write (vectored): ".as_bytes());
    append_vectored(&mut out, bufs, written);
    assert(out@ =~= hex_fixed(id as nat, 8) + " write (vectored): ".spec_bytes() + vectored_from(
        views(bufs@),
        0,
        written as nat,
    ));
    out
}

/// Whether connections get the verbose tap.
#[derive(Debug, Clone, Copy, PartialEq, Eq, Structural)]
pub struct Wrapper(pub bool);

/// A transport with its log tag.
#[derive(Debug, Clone, PartialEq, Eq)]
pub struct Verbose<T> {
    pub id: u32,
    pub inner: T,
}

/// A transport as handed on: tapped, or as it was.
#[derive(Debug, Clone, PartialEq, Eq)]
pub enum Tapped<T> {
    Plain(T),
    Verbose(Verbose<T>),
}

impl Wrapper {
    /// Puts the tap around `conn` when it is switched on and trace logging is
    /// enabled (`trace_enabled`); the tag is the low 32 bits of `random`.
    pub fn wrap<T>(&self, conn: T, trace_enabled: bool, random: u64) -> (r: Tapped<T>)
        ensures
            self.0 && trace_enabled ==> r == Tapped::Verbose(
                Verbose { id: random as u32, inner: conn },
            ),
            !(self.0 && trace_enabled) ==> r == Tapped::Plain(conn),
    {
        if self.0 && trace_enabled {
            Tapped::Verbose(Verbose { id: random as u32, inner: conn })
        } else {
            Tapped::Plain(conn)
        }
    }
}

} // verus!
