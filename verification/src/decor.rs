//! Decoration of relayed stderr output, and its inverse.
//!
//! In colour mode each chunk of stderr bytes is wrapped in the red ANSI
//! escape sequences; when the terminal-capability variable marks the
//! terminal as non-capable, a plain per-line marker is used instead.
//! Stripping the decoration recovers the child's bytes exactly.

use vstd::prelude::*;
use vstd::slice::slice_index_get;
use vstd::slice::slice_subrange;
use vstd::slice::slice_to_vec;

verus! {

/// Whether relayed stderr output is colourized or marked per line.
#[derive(Clone, Copy, Debug, PartialEq, Eq, Structural)]
pub enum DecorationMode {
    /// Wrap each chunk in the red ANSI escape sequences.
    Color,
    /// Put a plain marker before each line.
    Plain,
}

/// The ANSI escape bytes written before a red-painted chunk: ESC [ 3 1 m.
pub open spec fn red_prefix() -> Seq<u8> {
    seq![0x1bu8, 0x5bu8, 0x33u8, 0x31u8, 0x6du8]
}

/// The ANSI escape bytes written after a red-painted chunk, resetting all
/// styles: ESC [ 0 m.
pub open spec fn red_suffix() -> Seq<u8> {
    seq![0x1bu8, 0x5bu8, 0x30u8, 0x6du8]
}

/// The plain per-line marker for non-capable terminals: the text
/// "[stderr] ".
pub open spec fn plain_marker() -> Seq<u8> {
    seq![0x5bu8, 0x73u8, 0x74u8, 0x64u8, 0x65u8, 0x72u8, 0x72u8, 0x5du8, 0x20u8]
}

/// The decorated form of one chunk. In colour mode the chunk is wrapped in
/// the escape sequences; in plain mode the chunk is one line and gets the
/// marker put before it.
pub open spec fn decorate_spec(chunk: Seq<u8>, mode: DecorationMode) -> Seq<u8> {
    match mode {
        DecorationMode::Color => red_prefix() + chunk + red_suffix(),
        DecorationMode::Plain => plain_marker() + chunk,
    }
}

/// Whether a byte sequence carries the colour decoration: it starts with
/// the red escape and ends with the reset escape.
pub open spec fn is_color_decorated(d: Seq<u8>) -> bool {
    &&& d.len() >= red_prefix().len() + red_suffix().len()
    &&& d.take(red_prefix().len() as int) == red_prefix()
    &&& d.skip(d.len() - red_suffix().len()) == red_suffix()
}

/// Whether a byte sequence carries the plain per-line marker.
pub open spec fn is_plain_decorated(d: Seq<u8>) -> bool {
    &&& d.len() >= plain_marker().len()
    &&& d.take(plain_marker().len() as int) == plain_marker()
}

/// The bytes with the decoration markers stripped: the inverse of
/// `decorate_spec` on decorated input, the identity elsewhere.
pub open spec fn strip_spec(d: Seq<u8>, mode: DecorationMode) -> Seq<u8> {
    match mode {
        DecorationMode::Color => if is_color_decorated(d) {
            d.subrange(red_prefix().len() as int, d.len() - red_suffix().len())
        } else {
            d
        },
        DecorationMode::Plain => if is_plain_decorated(d) {
            d.skip(plain_marker().len() as int)
        } else {
            d
        },
    }
}

/// Stripping the decoration of a decorated chunk recovers the chunk
/// exactly, in either mode.
pub proof fn lemma_strip_decorate(chunk: Seq<u8>, mode: DecorationMode)
    ensures
        strip_spec(decorate_spec(chunk, mode), mode) == chunk,
{
    let d = decorate_spec(chunk, mode);
    match mode {
        DecorationMode::Color => {
            assert(d.take(red_prefix().len() as int) =~= red_prefix());
            assert(d.skip(d.len() - red_suffix().len()) =~= red_suffix());
            assert(d.subrange(red_prefix().len() as int, d.len() - red_suffix().len())
                =~= chunk);
        },
        DecorationMode::Plain => {
            assert(d.take(plain_marker().len() as int) =~= plain_marker());
            assert(d.skip(plain_marker().len() as int) =~= chunk);
        },
    }
}

/// Relies on ansi_term: painting bytes with `Colour::Red` and writing the
/// painted string emits the red foreground escape, the bytes unchanged,
/// then the style-reset escape. Writing into a `Vec` cannot fail.
#[verifier::external_body]
fn paint_red(chunk: &[u8]) -> (r: Vec<u8>)
    ensures
        r@ == red_prefix() + chunk@ + red_suffix(),
{
    let mut out: Vec<u8> = Vec::new();
    let _ = ansi_term::Colour::Red.paint(chunk).write_to(&mut out);
    out
}

/// The plain per-line marker as bytes.
fn plain_marker_bytes() -> (r: Vec<u8>)
    ensures
        r@ == plain_marker(),
{
    let mut v: Vec<u8> = Vec::new();
    v.push(0x5b);
    v.push(0x73);
    v.push(0x74);
    v.push(0x64);
    v.push(0x65);
    v.push(0x72);
    v.push(0x72);
    v.push(0x5d);
    v.push(0x20);
    proof {
        assert(v@ =~= plain_marker());
    }
    v
}

/// Appends a slice of bytes to a vector.
pub(crate) fn append_bytes(out: &mut Vec<u8>, chunk: &[u8])
    ensures
        final(out)@ == old(out)@ + chunk@,
{
    let mut i: usize = 0;
    while i < chunk.len()
        invariant
            i <= chunk@.len(),
            out@ == old(out)@ + chunk@.take(i as int),
        decreases chunk@.len() - i,
    {
        let b = *slice_index_get(chunk, i);
        out.push(b);
        proof {
            assert(old(out)@ + chunk@.take(i as int) + seq![chunk@[i as int]]
                =~= old(out)@ + chunk@.take(i as int + 1));
        }
        i = i + 1;
    }
    proof {
        assert(chunk@.take(chunk@.len() as int) =~= chunk@);
    }
}

/// Decorates one chunk of the child's stderr output for relaying. In plain
/// mode the chunk is expected to be a single line.
pub fn decorate_chunk(chunk: &Vec<u8>, mode: DecorationMode) -> (r: Vec<u8>)
    ensures
        r@ == decorate_spec(chunk@, mode),
{
    match mode {
        DecorationMode::Color => paint_red(chunk.as_slice()),
        DecorationMode::Plain => {
            let mut out = plain_marker_bytes();
            append_bytes(&mut out, chunk.as_slice());
            out
        },
    }
}

/// Whether `d` begins with the bytes of `p`.
fn starts_with_bytes(d: &Vec<u8>, p: &Vec<u8>) -> (r: bool)
    ensures
        r == (d@.len() >= p@.len() && d@.take(p@.len() as int) == p@),
{
    if d.len() < p.len() {
        return false;
    }
    let mut i: usize = 0;
    while i < p.len()
        invariant
            i <= p@.len(),
            p@.len() <= d@.len(),
            forall|j: int| 0 <= j < i ==> d@[j] == p@[j],
        decreases p@.len() - i,
    {
        if d[i] != p[i] {
            assert(d@.take(p@.len() as int)[i as int] != p@[i as int]);
            return false;
        }
        i = i + 1;
    }
    proof {
        assert(d@.take(p@.len() as int) =~= p@);
    }
    true
}

/// Whether `d` ends with the bytes of `s`.
fn ends_with_bytes(d: &Vec<u8>, s: &Vec<u8>) -> (r: bool)
    ensures
        r == (d@.len() >= s@.len() && d@.skip(d@.len() - s@.len()) == s@),
{
    if d.len() < s.len() {
        return false;
    }
    let start: usize = d.len() - s.len();
    let mut i: usize = 0;
    while i < s.len()
        invariant
            i <= s@.len(),
            s@.len() <= d@.len(),
            d@.len() <= usize::MAX,
            start == d@.len() - s@.len(),
            forall|j: int| 0 <= j < i ==> d@[start + j] == s@[j],
        decreases s@.len() - i,
    {
        assert(start + i < d@.len());
        if d[start + i] != s[i] {
            assert(d@.skip(d@.len() - s@.len())[i as int] != s@[i as int]);
            return false;
        }
        i = i + 1;
    }
    proof {
        assert(d@.skip(d@.len() - s@.len()) =~= s@);
    }
    true
}

/// The red escape prefix as bytes.
fn red_prefix_bytes() -> (r: Vec<u8>)
    ensures
        r@ == red_prefix(),
{
    let mut v: Vec<u8> = Vec::new();
    v.push(0x1b);
    v.push(0x5b);
    v.push(0x33);
    v.push(0x31);
    v.push(0x6d);
    proof {
        assert(v@ =~= red_prefix());
    }
    v
}

/// The style-reset escape suffix as bytes.
fn red_suffix_bytes() -> (r: Vec<u8>)
    ensures
        r@ == red_suffix(),
{
    let mut v: Vec<u8> = Vec::new();
    v.push(0x1b);
    v.push(0x5b);
    v.push(0x30);
    v.push(0x6d);
    proof {
        assert(v@ =~= red_suffix());
    }
    v
}

/// Strips the decoration markers from one relayed chunk, recovering the
/// child's bytes. Input that does not carry the decoration is returned
/// unchanged.
pub fn strip_chunk(d: &Vec<u8>, mode: DecorationMode) -> (r: Vec<u8>)
    ensures
        r@ == strip_spec(d@, mode),
{
    match mode {
        DecorationMode::Color => {
            let p = red_prefix_bytes();
            let s = red_suffix_bytes();
            if starts_with_bytes(d, &p) && ends_with_bytes(d, &s) {
                let inner = slice_subrange(d.as_slice(), p.len(), d.len() - s.len());
                slice_to_vec(inner)
            } else {
                slice_to_vec(d.as_slice())
            }
        },
        DecorationMode::Plain => {
            let m = plain_marker_bytes();
            if starts_with_bytes(d, &m) {
                let inner = slice_subrange(d.as_slice(), m.len(), d.len());
                proof {
                    assert(d@.subrange(plain_marker().len() as int, d@.len() as int)
                        =~= d@.skip(plain_marker().len() as int));
                }
                slice_to_vec(inner)
            } else {
                slice_to_vec(d.as_slice())
            }
        },
    }
}

/// Decides the decoration mode from the recognized terminal-capability
/// variable: colour is suppressed only when the variable is set to the
/// recognized non-capable value "dumb".
pub fn decoration_for_term(term: &Option<String>) -> (mode: DecorationMode)
    ensures
        (mode is Plain) <==> ((*term) matches Some(t) && t@ == "dumb"@),
{
    match term {
        Some(t) => {
            let dumb = String::from_str("dumb");
            if t.eq(&dumb) {
                DecorationMode::Plain
            } else {
                DecorationMode::Color
            }
        },
        None => DecorationMode::Color,
    }
}

} // verus!
