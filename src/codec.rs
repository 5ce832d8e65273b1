//! The connection blob: a session description and its network candidates,
//! written as `{"sdp":"...","candidates":["...",...]}` and carried in base64.
use vstd::prelude::*;
use vstd::utf8::{decode_utf8, encode_utf8, valid_utf8};
use crate::b64::{base64_decode, base64_decoded, base64_encode, base64_of, has_foreign_char, is_base64_char};

verus! {

broadcast use {vstd::utf8::encode_utf8_valid_utf8, vstd::utf8::encode_utf8_decode_utf8};

/// What the blob carries.
#[derive(Clone, Debug)]
pub struct SignalingPackage {
    pub sdp: String,
    pub candidates: Vec<String>,
}

impl SignalingPackage {
    /// The description and the candidates, as character sequences.
    pub open spec fn contents(&self) -> (Seq<char>, Seq<Seq<char>>) {
        (self.sdp@, self.candidates@.map_values(|c: String| c@))
    }
}

/// Why a blob could not be read.
#[derive(Clone, Copy, Debug, PartialEq, Eq, Structural)]
pub enum BlobError {
    /// The text is not base64.
    Transport,
    /// The decoded bytes are not a package in the expected layout.
    Structure,
    /// A string of the package is not UTF-8.
    Text,
}

/// Relies on String::from_utf8: succeeds exactly on valid UTF-8 and keeps the text.
#[verifier::external_body]
fn string_from_utf8(v: &[u8]) -> (r: Option<String>)
    ensures
        r is Some <==> valid_utf8(v@),
        r is Some ==> r->0@ == decode_utf8(v@),
{
    String::from_utf8(v.to_vec()).ok()
}

// ---------------------------------------------------------------------------
// Layout of the decoded bytes
// ---------------------------------------------------------------------------

pub open spec fn hex_digit(d: u8) -> u8
    recommends
        d < 16,
{
    if d < 10 {
        (48 + d) as u8
    } else {
        (87 + d) as u8
    }
}

/// The escaped form of one byte inside a quoted string.
pub open spec fn esc_byte(b: u8) -> Seq<u8> {
    if b == 34 {
        seq![92u8, 34u8]
    } else if b == 92 {
        seq![92u8, 92u8]
    } else if b < 32 {
        seq![92u8, 117u8, 48u8, 48u8, hex_digit(b / 16), hex_digit(b % 16)]
    } else {
        seq![b]
    }
}

/// The escaped form of a byte string.
pub open spec fn esc(s: Seq<u8>) -> Seq<u8>
    decreases s.len(),
{
    if s.len() == 0 {
        Seq::empty()
    } else {
        esc(s.drop_last()) + esc_byte(s.last())
    }
}

pub open spec fn quoted(s: Seq<u8>) -> Seq<u8> {
    seq![34u8] + esc(s) + seq![34u8]
}

/// Quoted strings separated by commas.
pub open spec fn render_items(cs: Seq<Seq<u8>>) -> Seq<u8>
    decreases cs.len(),
{
    if cs.len() == 0 {
        Seq::empty()
    } else if cs.len() == 1 {
        quoted(cs[0])
    } else {
        render_items(cs.drop_last()) + seq![44u8] + quoted(cs.last())
    }
}

/// `{"sdp":"`
pub open spec fn head_lit() -> Seq<u8> {
    seq![123u8, 34u8, 115u8, 100u8, 112u8, 34u8, 58u8, 34u8]
}

/// `,"candidates":`
pub open spec fn mid_lit() -> Seq<u8> {
    seq![44u8, 34u8, 99u8, 97u8, 110u8, 100u8, 105u8, 100u8, 97u8, 116u8, 101u8, 115u8, 34u8, 58u8]
}

/// The bytes of a package whose strings are `sdp` and `cs`.
pub open spec fn render_package(sdp: Seq<u8>, cs: Seq<Seq<u8>>) -> Seq<u8> {
    head_lit() + esc(sdp) + seq![34u8] + mid_lit() + seq![91u8] + render_items(cs) + seq![93u8, 125u8]
}

/// Value of a hexadecimal digit, or 16 for any other byte.
pub open spec fn hex_value(c: u8) -> u8 {
    if 48 <= c <= 57 {
        (c - 48) as u8
    } else if 97 <= c <= 102 {
        (c - 87) as u8
    } else if 65 <= c <= 70 {
        (c - 55) as u8
    } else {
        16
    }
}

/// Number of bytes of the escape sequence that starts at `i`.
pub open spec fn esc_width(b: Seq<u8>, i: int) -> int {
    if i + 1 < b.len() && b[i + 1] == 117 {
        6
    } else {
        2
    }
}

/// The byte that the escape sequence at `i` stands for: `\"`, `\\`, `\/`,
/// `\b`, `\f`, `\n`, `\r`, `\t`, or `\u00XY` below 0x80.
pub open spec fn unesc_at(b: Seq<u8>, i: int) -> Option<u8> {
    if i < 0 || i + 1 >= b.len() {
        None
    } else {
        let c = b[i + 1];
        if c == 34 || c == 92 || c == 47 {
            Some(c)
        } else if c == 98 {
            Some(8u8)
        } else if c == 102 {
            Some(12u8)
        } else if c == 110 {
            Some(10u8)
        } else if c == 114 {
            Some(13u8)
        } else if c == 116 {
            Some(9u8)
        } else if c == 117 && i + 5 < b.len() && b[i + 2] == 48 && b[i + 3] == 48 && hex_value(
            b[i + 4],
        ) < 8 && hex_value(b[i + 5]) < 16 {
            Some((hex_value(b[i + 4]) * 16 + hex_value(b[i + 5])) as u8)
        } else {
            None
        }
    }
}

/// Reads the body of a quoted string starting at `i` (just after the opening
/// quote): its unescaped bytes and the position after the closing quote.
pub open spec fn scan_str(b: Seq<u8>, i: int) -> Option<(Seq<u8>, int)>
    decreases b.len() - i,
{
    if i < 0 || i >= b.len() {
        None
    } else if b[i] == 34 {
        Some((Seq::empty(), i + 1))
    } else if b[i] == 92 {
        match unesc_at(b, i) {
            None => None,
            Some(x) => match scan_str(b, i + esc_width(b, i)) {
                None => None,
                Some((s, e)) => Some((seq![x] + s, e)),
            },
        }
    } else if b[i] < 32 {
        None
    } else {
        match scan_str(b, i + 1) {
            None => None,
            Some((s, e)) => Some((seq![b[i]] + s, e)),
        }
    }
}

/// Reads a non-empty list of quoted strings starting at `i`, up to and
/// including the closing `]`.
pub open spec fn scan_items(b: Seq<u8>, i: int) -> Option<(Seq<Seq<u8>>, int)>
    decreases b.len() - i,
{
    if i < 0 || i >= b.len() || b[i] != 34 {
        None
    } else {
        match scan_str(b, i + 1) {
            None => None,
            Some((s, j)) => if j <= i || j >= b.len() {
                None
            } else if b[j] == 93 {
                Some((seq![s], j + 1))
            } else if b[j] == 44 {
                match scan_items(b, j + 1) {
                    None => None,
                    Some((rest, k)) => Some((seq![s] + rest, k)),
                }
            } else {
                None
            },
        }
    }
}

/// Reads `[...]` starting at `i`.
pub open spec fn scan_list(b: Seq<u8>, i: int) -> Option<(Seq<Seq<u8>>, int)> {
    if 0 <= i && i + 1 < b.len() && b[i] == 91 {
        if b[i + 1] == 93 {
            Some((Seq::empty(), i + 2))
        } else {
            scan_items(b, i + 1)
        }
    } else {
        None
    }
}

pub open spec fn has_at(b: Seq<u8>, i: int, lit: Seq<u8>) -> bool {
    0 <= i && i + lit.len() <= b.len() && b.subrange(i, i + lit.len()) == lit
}

/// The strings of a package, if `b` is one.
pub open spec fn parse_package(b: Seq<u8>) -> Option<(Seq<u8>, Seq<Seq<u8>>)> {
    if !has_at(b, 0, head_lit()) {
        None
    } else {
        match scan_str(b, 8) {
            None => None,
            Some((sdp, j)) => if !has_at(b, j, mid_lit()) {
                None
            } else {
                match scan_list(b, j + 14) {
                    None => None,
                    Some((cs, k)) => if k + 1 == b.len() && b[k] == 125 {
                        Some((sdp, cs))
                    } else {
                        None
                    },
                }
            },
        }
    }
}

pub open spec fn all_utf8(cs: Seq<Seq<u8>>) -> bool {
    forall|k: int| 0 <= k < cs.len() ==> valid_utf8(#[trigger] cs[k])
}

/// The package that the text of a blob holds, if any.
pub open spec fn package_of_text(t: Seq<char>) -> Option<(Seq<char>, Seq<Seq<char>>)> {
    match base64_decoded(t) {
        None => None,
        Some(b) => match parse_package(b) {
            None => None,
            Some((sdp, cs)) => if valid_utf8(sdp) && all_utf8(cs) {
                Some((decode_utf8(sdp), cs.map_values(|c: Seq<u8>| decode_utf8(c))))
            } else {
                None
            },
        },
    }
}

/// The error that decoding `t` ends in, if it fails.
pub open spec fn decode_error_of(t: Seq<char>) -> Option<BlobError> {
    match base64_decoded(t) {
        None => Some(BlobError::Transport),
        Some(b) => match parse_package(b) {
            None => Some(BlobError::Structure),
            Some((sdp, cs)) => if valid_utf8(sdp) && all_utf8(cs) {
                None
            } else {
                Some(BlobError::Text)
            },
        },
    }
}

// ---------------------------------------------------------------------------
// Lemmas
// ---------------------------------------------------------------------------

proof fn lemma_esc_front(s: Seq<u8>)
    requires
        s.len() > 0,
    ensures
        esc(s) == esc_byte(s[0]) + esc(s.drop_first()),
    decreases s.len(),
{
    if s.len() == 1 {
        assert(s.drop_last() =~= Seq::<u8>::empty());
        assert(s.drop_first() =~= Seq::<u8>::empty());
        assert(esc(s) =~= esc_byte(s[0]) + esc(s.drop_first()));
    } else {
        lemma_esc_front(s.drop_last());
        assert(s.drop_first().drop_last() =~= s.drop_last().drop_first());
        assert(s.drop_first().last() == s.last());
        assert(esc(s) =~= esc_byte(s[0]) + esc(s.drop_first()));
    }
}

proof fn lemma_items_front(cs: Seq<Seq<u8>>)
    requires
        cs.len() > 1,
    ensures
        render_items(cs) == quoted(cs[0]) + seq![44u8] + render_items(cs.drop_first()),
    decreases cs.len(),
{
    if cs.len() == 2 {
        assert(cs.drop_last() =~= seq![cs[0]]);
        assert(cs.drop_first() =~= seq![cs[1]]);
        assert(render_items(cs.drop_last()) == quoted(cs[0]));
        assert(render_items(cs.drop_first()) == quoted(cs[1]));
        assert(render_items(cs) == render_items(cs.drop_last()) + seq![44u8] + quoted(cs.last()));
        assert(render_items(cs) =~= quoted(cs[0]) + seq![44u8] + render_items(cs.drop_first()));
    } else {
        let init = cs.drop_last();
        let tail = cs.drop_first();
        lemma_items_front(init);
        assert(init[0] == cs[0]);
        assert(tail.drop_last() =~= init.drop_first());
        assert(tail.last() == cs.last());
        assert(render_items(tail) == render_items(tail.drop_last()) + seq![44u8] + quoted(
            tail.last(),
        ));
        assert(render_items(cs) == render_items(init) + seq![44u8] + quoted(cs.last()));
        assert(render_items(cs) =~= quoted(cs[0]) + seq![44u8] + render_items(tail));
    }
}

proof fn lemma_scan_esc(s: Seq<u8>, b: Seq<u8>, i: int)
    requires
        0 <= i,
        i + esc(s).len() < b.len(),
        b.subrange(i, i + esc(s).len()) == esc(s),
        b[i + esc(s).len()] == 34,
    ensures
        scan_str(b, i) == Some((s, i + esc(s).len() + 1)),
    decreases s.len(),
{
    if s.len() == 0 {
    } else {
        lemma_esc_front(s);
        let x = s[0];
        let e = esc_byte(x);
        let rest = s.drop_first();
        let n = esc(s).len();
        assert(esc(s) == e + esc(rest));
        assert forall|k: int| 0 <= k < e.len() implies b[i + k] == e[k] by {
            assert(b.subrange(i, i + n)[k] == esc(s)[k]);
        }
        assert(b.subrange(i + e.len(), i + e.len() + esc(rest).len()) =~= esc(rest)) by {
            assert forall|k: int| 0 <= k < esc(rest).len() implies b[i + e.len() + k] == esc(
                rest,
            )[k] by {
                assert(b.subrange(i, i + n)[e.len() + k] == esc(s)[e.len() + k]);
            }
        }
        lemma_scan_esc(rest, b, i + e.len());
        if x == 34 || x == 92 {
            assert(esc_width(b, i) == 2);
            assert(unesc_at(b, i) == Some(x));
        } else if x < 32 {
            assert(esc_width(b, i) == 6);
            assert(hex_value(hex_digit(x / 16)) == x / 16);
            assert(hex_value(hex_digit(x % 16)) == x % 16);
            assert(unesc_at(b, i) == Some(x));
        } else {
        }
        assert(seq![x] + rest =~= s);
    }
}

proof fn lemma_scan_items(cs: Seq<Seq<u8>>, b: Seq<u8>, i: int)
    requires
        cs.len() > 0,
        0 <= i,
        i + render_items(cs).len() < b.len(),
        b.subrange(i, i + render_items(cs).len()) == render_items(cs),
        b[i + render_items(cs).len()] == 93,
    ensures
        scan_items(b, i) == Some((cs, i + render_items(cs).len() + 1)),
    decreases cs.len(),
{
    let q = quoted(cs[0]);
    let n = render_items(cs).len();
    let c0 = cs[0];
    if cs.len() > 1 {
        lemma_items_front(cs);
    }
    assert forall|k: int| 0 <= k < q.len() implies b[i + k] == q[k] by {
        assert(b.subrange(i, i + n)[k] == render_items(cs)[k]);
    }
    assert(b.subrange(i + 1, i + 1 + esc(c0).len()) =~= esc(c0)) by {
        assert forall|k: int| 0 <= k < esc(c0).len() implies b[i + 1 + k] == esc(c0)[k] by {
            assert(q[1 + k] == esc(c0)[k]);
        }
    }
    assert(b[i + 1 + esc(c0).len()] == 34) by {
        assert(q[1 + esc(c0).len() as int] == 34);
    }
    lemma_scan_esc(c0, b, i + 1);
    assert(b[i] == 34) by {
        assert(q[0] == 34);
    }
    let j: int = i + q.len();
    assert(scan_str(b, i + 1) == Some((c0, j)));
    if cs.len() == 1 {
        assert(render_items(cs) == q);
        assert(b[j] == 93);
        assert(cs =~= seq![c0]);
    } else {
        let rest = cs.drop_first();
        let rn = render_items(rest).len();
        assert(b[j] == 44) by {
            assert(b.subrange(i, i + n)[q.len() as int] == render_items(cs)[q.len() as int]);
        }
        assert(b.subrange(j + 1, j + 1 + rn) =~= render_items(rest)) by {
            assert forall|k: int| 0 <= k < rn implies b[j + 1 + k] == render_items(rest)[k] by {
                assert(b.subrange(i, i + n)[q.len() + 1 + k] == render_items(cs)[q.len() + 1 + k]);
            }
        }
        lemma_scan_items(rest, b, j + 1);
        assert(seq![c0] + rest =~= cs);
    }
}

/// Reading the bytes of a package gives back the strings it was written from.
pub proof fn lemma_parse_render(sdp: Seq<u8>, cs: Seq<Seq<u8>>)
    ensures
        parse_package(render_package(sdp, cs)) == Some((sdp, cs)),
{
    let b = render_package(sdp, cs);
    let e = esc(sdp);
    let r = render_items(cs);
    assert(b.subrange(0, 8) =~= head_lit());
    assert(b.subrange(8, 8 + e.len() as int) =~= e);
    lemma_scan_esc(sdp, b, 8);
    let j: int = 8 + e.len() as int + 1;
    assert(b.subrange(j, j + 14) =~= mid_lit());
    let l: int = j + 14;
    if cs.len() == 0 {
        assert(b[l + 1] == 93);
    } else {
        assert(b.subrange(l + 1, l + 1 + r.len() as int) =~= r);
        lemma_scan_items(cs, b, l + 1);
    }
    assert(b[b.len() - 1] == 125);
}

/// The bytes of a package value: its strings in UTF-8.
pub open spec fn package_bytes(p: (Seq<char>, Seq<Seq<char>>)) -> Seq<u8> {
    render_package(encode_utf8(p.0), p.1.map_values(|c: Seq<char>| encode_utf8(c)))
}

pub open spec fn with_prefix(o: Seq<u8>, r: Option<(Seq<u8>, int)>) -> Option<(Seq<u8>, int)> {
    match r {
        None => None,
        Some((s, e)) => Some((o + s, e)),
    }
}

pub open spec fn with_items(o: Seq<Seq<u8>>, r: Option<(Seq<Seq<u8>>, int)>) -> Option<
    (Seq<Seq<u8>>, int),
> {
    match r {
        None => None,
        Some((s, e)) => Some((o + s, e)),
    }
}

/// A text that is not base64 is refused as such; decoded bytes that do not
/// open with the `sdp` field are refused as ill-formed.
pub proof fn lemma_garbage_rejected(t: Seq<char>)
    ensures
        base64_decoded(t) is None ==> decode_error_of(t) == Some(BlobError::Transport)
            && package_of_text(t) is None,
        base64_decoded(t) is Some && !has_at(base64_decoded(t)->0, 0, head_lit()) ==> decode_error_of(t)
            == Some(BlobError::Structure) && package_of_text(t) is None,
{
}

// ---------------------------------------------------------------------------
// Writing
// ---------------------------------------------------------------------------

fn hex_digit_of(d: u8) -> (r: u8)
    requires
        d < 16,
    ensures
        r == hex_digit(d),
{
    if d < 10 {
        48 + d
    } else {
        87 + d
    }
}

fn push_all(out: &mut Vec<u8>, lit: &Vec<u8>)
    ensures
        final(out)@ == old(out)@ + lit@,
{
    let ghost start = out@;
    let mut i: usize = 0;
    while i < lit.len()
        invariant
            i <= lit@.len(),
            out@ == start + lit@.take(i as int),
        decreases lit@.len() - i,
    {
        out.push(lit[i]);
        i = i + 1;
        assert(lit@.take(i as int) =~= lit@.take(i - 1) + seq![lit@[i - 1]]);
    }
    assert(lit@.take(i as int) =~= lit@);
}

/// Appends the escaped form of `s`.
fn push_escaped(out: &mut Vec<u8>, s: &[u8])
    ensures
        final(out)@ == old(out)@ + esc(s@),
{
    let ghost start = out@;
    let mut i: usize = 0;
    while i < s.len()
        invariant
            i <= s@.len(),
            out@ == start + esc(s@.take(i as int)),
        decreases s@.len() - i,
    {
        let b = s[i];
        if b == 34 {
            out.push(92);
            out.push(34);
        } else if b == 92 {
            out.push(92);
            out.push(92);
        } else if b < 32 {
            out.push(92);
            out.push(117);
            out.push(48);
            out.push(48);
            out.push(hex_digit_of(b / 16));
            out.push(hex_digit_of(b % 16));
        } else {
            out.push(b);
        }
        proof {
            let t = s@.take(i + 1);
            assert(t.drop_last() =~= s@.take(i as int));
            assert(t.last() == b);
            assert(out@ =~= start + esc(t));
        }
        i = i + 1;
    }
    assert(s@.take(i as int) =~= s@);
}

fn head_bytes() -> (r: Vec<u8>)
    ensures
        r@ == head_lit(),
{
    let r: Vec<u8> = vec![123, 34, 115, 100, 112, 34, 58, 34];
    assert(r@ =~= head_lit());
    r
}

fn mid_bytes() -> (r: Vec<u8>)
    ensures
        r@ == mid_lit(),
{
    let r: Vec<u8> = vec![44, 34, 99, 97, 110, 100, 105, 100, 97, 116, 101, 115, 34, 58];
    assert(r@ =~= mid_lit());
    r
}

/// Writes `p` as a blob. Reading the blob back gives `p` again.
pub fn encode(p: &SignalingPackage) -> (r: String)
    ensures
        r@ == base64_of(package_bytes(p.contents())),
        package_of_text(r@) == Some(p.contents()),
        r@.len() > 0,
        forall|i: int| 0 <= i < r@.len() ==> is_base64_char(#[trigger] r@[i]),
{
    let ghost cb = p.contents().1.map_values(|c: Seq<char>| encode_utf8(c));
    let ghost sb = encode_utf8(p.contents().0);
    let mut out: Vec<u8> = head_bytes();
    push_escaped(&mut out, p.sdp.as_str().as_bytes());
    out.push(34);
    push_all(&mut out, &mid_bytes());
    out.push(91);
    let ghost pre = out@;
    assert(pre == head_lit() + esc(sb) + seq![34u8] + mid_lit() + seq![91u8]);
    let mut k: usize = 0;
    while k < p.candidates.len()
        invariant
            k <= p.candidates@.len(),
            cb.len() == p.candidates@.len(),
            forall|m: int| 0 <= m < cb.len() ==> #[trigger] cb[m] == encode_utf8(p.candidates@[m]@),
            out@ == pre + render_items(cb.take(k as int)),
        decreases p.candidates@.len() - k,
    {
        let ghost before = out@;
        if k > 0 {
            out.push(44);
        }
        out.push(34);
        push_escaped(&mut out, p.candidates[k].as_str().as_bytes());
        out.push(34);
        proof {
            let t = cb.take(k + 1);
            assert(t.drop_last() =~= cb.take(k as int));
            assert(t.last() == cb[k as int]);
            if k == 0 {
                assert(cb.take(0) =~= Seq::<Seq<u8>>::empty());
                assert(out@ =~= pre + render_items(t));
            } else {
                assert(out@ =~= pre + render_items(t));
            }
        }
        k = k + 1;
    }
    assert(cb.take(k as int) =~= cb);
    out.push(93);
    out.push(125);
    assert(out@ =~= render_package(sb, cb));
    let r = base64_encode(&out);
    proof {
        lemma_parse_render(sb, cb);
        assert(all_utf8(cb));
        assert(cb.map_values(|c: Seq<u8>| decode_utf8(c)) =~= p.contents().1);
    }
    r
}

// ---------------------------------------------------------------------------
// Reading
// ---------------------------------------------------------------------------

fn hex_value_of(c: u8) -> (r: u8)
    ensures
        r == hex_value(c),
{
    if 48 <= c && c <= 57 {
        c - 48
    } else if 97 <= c && c <= 102 {
        c - 87
    } else if 65 <= c && c <= 70 {
        c - 55
    } else {
        16
    }
}

/// The escape sequence at `i` (a backslash), with its width.
fn unescape_at(b: &Vec<u8>, i: usize) -> (r: Option<(u8, usize)>)
    requires
        i < b@.len(),
    ensures
        r is None <==> unesc_at(b@, i as int) is None,
        r matches Some((x, w)) ==> unesc_at(b@, i as int) == Some(x) && w == esc_width(
            b@,
            i as int,
        ),
{
    let n = b.len();
    if n - i < 2 {
        return None;
    }
    let c = b[i + 1];
    if c == 34 || c == 92 || c == 47 {
        Some((c, 2))
    } else if c == 98 {
        Some((8, 2))
    } else if c == 102 {
        Some((12, 2))
    } else if c == 110 {
        Some((10, 2))
    } else if c == 114 {
        Some((13, 2))
    } else if c == 116 {
        Some((9, 2))
    } else if c == 117 && n - i > 5 && b[i + 2] == 48 && b[i + 3] == 48 {
        let hi = hex_value_of(b[i + 4]);
        let lo = hex_value_of(b[i + 5]);
        if hi < 8 && lo < 16 {
            Some((hi * 16 + lo, 6))
        } else {
            None
        }
    } else {
        None
    }
}

/// Reads a quoted string's body from `i`.
fn read_str(b: &Vec<u8>, i: usize) -> (r: Option<(Vec<u8>, usize)>)
    ensures
        r is None <==> scan_str(b@, i as int) is None,
        r matches Some((s, e)) ==> scan_str(b@, i as int) == Some((s@, e as int)) && i < e
            <= b@.len(),
{
    let mut out: Vec<u8> = Vec::new();
    let mut j: usize = i;
    loop
        invariant
            i <= j,
            scan_str(b@, i as int) == with_prefix(out@, scan_str(b@, j as int)),
        decreases b@.len() - j,
    {
        if j >= b.len() {
            return None;
        }
        let c = b[j];
        if c == 34 {
            assert(out@ + Seq::<u8>::empty() =~= out@);
            return Some((out, j + 1));
        } else if c == 92 {
            match unescape_at(b, j) {
                None => {
                    return None;
                },
                Some((x, w)) => {
                    proof {
                        match scan_str(b@, j + w) {
                            None => {},
                            Some((s, e)) => {
                                assert(out@ + (seq![x] + s) =~= out@.push(x) + s);
                            },
                        }
                    }
                    out.push(x);
                    j = j + w;
                },
            }
        } else if c < 32 {
            return None;
        } else {
            proof {
                match scan_str(b@, j + 1) {
                    None => {},
                    Some((s, e)) => {
                        assert(out@ + (seq![c] + s) =~= out@.push(c) + s);
                    },
                }
            }
            out.push(c);
            j = j + 1;
        }
    }
}

pub open spec fn views(v: Seq<Vec<u8>>) -> Seq<Seq<u8>> {
    v.map_values(|x: Vec<u8>| x@)
}

/// Reads a non-empty list of quoted strings from `i`, through its `]`.
fn read_items(b: &Vec<u8>, i: usize) -> (r: Option<(Vec<Vec<u8>>, usize)>)
    ensures
        r is None <==> scan_items(b@, i as int) is None,
        r matches Some((cs, e)) ==> scan_items(b@, i as int) == Some((views(cs@), e as int)) && e
            <= b@.len(),
{
    let mut items: Vec<Vec<u8>> = Vec::new();
    let mut j: usize = i;
    loop
        invariant
            i <= j,
            scan_items(b@, i as int) == with_items(views(items@), scan_items(b@, j as int)),
        decreases b@.len() - j,
    {
        if j >= b.len() || b[j] != 34 {
            return None;
        }
        match read_str(b, j + 1) {
            None => {
                return None;
            },
            Some((s, e)) => {
                if e >= b.len() {
                    return None;
                }
                let ghost sv = s@;
                let ghost before = views(items@);
                if b[e] == 93 {
                    items.push(s);
                    assert(views(items@) =~= before + seq![sv]);
                    return Some((items, e + 1));
                } else if b[e] == 44 {
                    items.push(s);
                    proof {
                        assert(views(items@) =~= before.push(sv));
                        match scan_items(b@, e + 1) {
                            None => {},
                            Some((rest, k)) => {
                                assert(before + (seq![sv] + rest) =~= before.push(sv) + rest);
                            },
                        }
                    }
                    j = e + 1;
                } else {
                    return None;
                }
            },
        }
    }
}

fn bytes_at(b: &Vec<u8>, i: usize, lit: &Vec<u8>) -> (r: bool)
    ensures
        r == has_at(b@, i as int, lit@),
{
    let n = b.len();
    if i > n || lit.len() > n - i {
        return false;
    }
    let mut k: usize = 0;
    while k < lit.len()
        invariant
            k <= lit@.len(),
            n == b@.len(),
            i + lit@.len() <= n,
            forall|m: int| 0 <= m < k ==> b@[i + m] == lit@[m],
        decreases lit@.len() - k,
    {
        if b[i + k] != lit[k] {
            assert(b@.subrange(i as int, i + lit@.len())[k as int] != lit@[k as int]);
            return false;
        }
        k = k + 1;
    }
    assert(b@.subrange(i as int, i + lit@.len()) =~= lit@);
    true
}

/// Reads the strings of a package from its bytes.
fn read_package(b: &Vec<u8>) -> (r: Option<(Vec<u8>, Vec<Vec<u8>>)>)
    ensures
        r is None <==> parse_package(b@) is None,
        r matches Some((s, cs)) ==> parse_package(b@) == Some((s@, views(cs@))),
{
    let n = b.len();
    if !bytes_at(b, 0, &head_bytes()) {
        return None;
    }
    let (sdp, j) = match read_str(b, 8) {
        None => {
            return None;
        },
        Some(x) => x,
    };
    if !bytes_at(b, j, &mid_bytes()) {
        return None;
    }
    let l = j + 14;
    if n - l < 2 || b[l] != 91 {
        return None;
    }
    let (cs, k) = if b[l + 1] == 93 {
        let empty: Vec<Vec<u8>> = Vec::new();
        assert(views(empty@) =~= Seq::<Seq<u8>>::empty());
        (empty, l + 2)
    } else {
        match read_items(b, l + 1) {
            None => {
                return None;
            },
            Some(x) => x,
        }
    };
    if k < n && n - k == 1 && b[k] == 125 {
        Some((sdp, cs))
    } else {
        None
    }
}

/// Reads a blob. `Ok` exactly when the text is base64 of a well-formed package
/// whose strings are UTF-8; each error names the first of these that fails.
pub fn decode(text: &str) -> (r: Result<SignalingPackage, BlobError>)
    ensures
        r is Ok <==> package_of_text(text@) is Some,
        r matches Ok(p) ==> package_of_text(text@) == Some(p.contents()),
        r matches Err(e) ==> decode_error_of(text@) == Some(e),
        has_foreign_char(text@) ==> r == Err::<SignalingPackage, BlobError>(BlobError::Transport),
{
    let bytes = match base64_decode(text) {
        Ok(v) => v,
        Err(_) => {
            return Err(BlobError::Transport);
        },
    };
    let (sdp_b, cs_b) = match read_package(&bytes) {
        None => {
            return Err(BlobError::Structure);
        },
        Some(x) => x,
    };
    let sdp = match string_from_utf8(&sdp_b) {
        None => {
            return Err(BlobError::Text);
        },
        Some(s) => s,
    };
    let ghost csv = views(cs_b@);
    let mut candidates: Vec<String> = Vec::new();
    let mut k: usize = 0;
    while k < cs_b.len()
        invariant
            k <= cs_b@.len(),
            csv == views(cs_b@),
            base64_decoded(text@) == Some(bytes@),
            !has_foreign_char(text@),
            parse_package(bytes@) == Some((sdp_b@, csv)),
            valid_utf8(sdp_b@),
            sdp@ == decode_utf8(sdp_b@),
            candidates@.len() == k,
            forall|m: int| 0 <= m < k ==> valid_utf8(#[trigger] csv[m]),
            forall|m: int|
                0 <= m < k ==> #[trigger] candidates@[m]@ == decode_utf8(csv[m]),
        decreases cs_b@.len() - k,
    {
        match string_from_utf8(&cs_b[k]) {
            None => {
                assert(!valid_utf8(csv[k as int]));
                assert(!all_utf8(csv));
                return Err(BlobError::Text);
            },
            Some(s) => {
                candidates.push(s);
            },
        }
        k = k + 1;
    }
    let p = SignalingPackage { sdp, candidates };
    assert(p.contents().1 =~= csv.map_values(|c: Seq<u8>| decode_utf8(c)));
    Ok(p)
}

} // verus!
