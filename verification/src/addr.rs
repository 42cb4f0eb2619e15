//! The server address the API reports about itself.
//!
//! The metadata block of a response may carry the address of the server
//! that answered, as text. The client never interprets the address — it
//! only carries it through to the caller — so the model keeps the text,
//! and admits exactly two forms: a dotted-decimal IPv4 literal (four
//! octets of at most 255, without leading zeros, joined by three dots),
//! or colon-hex text (hex digits and at least one colon, the alphabet of
//! an IPv6 literal; its group structure is not checked further, and a
//! v4-in-v6 suffix is not accepted).

use vstd::prelude::*;

verus! {

/// A decimal digit.
pub open spec fn is_digit(c: char) -> bool {
    '0' <= c && c <= '9'
}

/// The value of a decimal digit.
pub open spec fn digit_val(c: char) -> int {
    c as int - 48
}

/// A hexadecimal digit.
pub open spec fn is_hex_digit(c: char) -> bool {
    is_digit(c) || ('a' <= c && c <= 'f') || ('A' <= c && c <= 'F')
}

/// A decimal octet as an IPv4 literal spells it: one digit, or two or
/// three digits without a leading zero, value at most 255.
pub open spec fn is_dec_octet(s: Seq<char>) -> bool {
    ||| (s.len() == 1 && is_digit(s[0]))
    ||| (s.len() == 2 && is_digit(s[0]) && is_digit(s[1]) && s[0] != '0')
    ||| (s.len() == 3 && is_digit(s[0]) && is_digit(s[1]) && is_digit(s[2]) && s[0] != '0'
        && digit_val(s[0]) * 100 + digit_val(s[1]) * 10 + digit_val(s[2]) <= 255)
}

/// Whether `i`, `j`, `k` are dots of `s` with a decimal octet before,
/// between and after them.
pub open spec fn ipv4_dots_at(s: Seq<char>, i: int, j: int, k: int) -> bool {
    &&& 0 <= i < j < k < s.len()
    &&& s[i] == '.' && s[j] == '.' && s[k] == '.'
    &&& is_dec_octet(s.subrange(0, i))
    &&& is_dec_octet(s.subrange(i + 1, j))
    &&& is_dec_octet(s.subrange(j + 1, k))
    &&& is_dec_octet(s.subrange(k + 1, s.len() as int))
}

/// A dotted-decimal IPv4 literal: four octets joined by three dots.
pub open spec fn spec_is_ipv4(s: Seq<char>) -> bool {
    exists|i: int, j: int, k: int| ipv4_dots_at(s, i, j, k)
}

/// Colon-hex text: non-empty, hex digits and colons only, at least one
/// colon — the alphabet of an IPv6 literal.
pub open spec fn spec_is_colon_hex(s: Seq<char>) -> bool {
    &&& s.len() > 0
    &&& forall|p: int| 0 <= p < s.len() ==> (is_hex_digit(#[trigger] s[p]) || s[p] == ':')
    &&& exists|p: int| 0 <= p < s.len() && (#[trigger] s[p]) == ':'
}

/// What the model accepts as a server address: a dotted-decimal IPv4
/// literal, or colon-hex text.
pub open spec fn spec_addr_text(s: Seq<char>) -> bool {
    spec_is_ipv4(s) || spec_is_colon_hex(s)
}

/// Away from the three dots, an IPv4 literal holds digits.
proof fn lemma_ipv4_digit_at(s: Seq<char>, i: int, j: int, k: int, p: int)
    requires
        ipv4_dots_at(s, i, j, k),
        0 <= p < s.len(),
        p != i && p != j && p != k,
    ensures
        is_digit(s[p]),
{
    if p < i {
        assert(s.subrange(0, i)[p] == s[p]);
    } else if p < j {
        assert(s.subrange(i + 1, j)[p - (i + 1)] == s[p]);
    } else if p < k {
        assert(s.subrange(j + 1, k)[p - (j + 1)] == s[p]);
    } else {
        assert(s.subrange(k + 1, s.len() as int)[p - (k + 1)] == s[p]);
    }
}

/// If `dots` lists exactly the dot positions of an IPv4 literal, in
/// order, then there are three of them and the octets between them
/// check out.
proof fn lemma_dots_are_the_witness(s: Seq<char>, dots: Seq<usize>)
    requires
        spec_is_ipv4(s),
        forall|q: int|
            0 <= q < dots.len() ==> (#[trigger] dots[q]) < s.len() && s[dots[q] as int] == '.',
        forall|x: int| 0 <= x < s.len() && s[x] == '.' ==> dots.contains(x as usize),
        forall|q1: int, q2: int|
            0 <= q1 < q2 < dots.len() ==> #[trigger] dots[q1] < #[trigger] dots[q2],
    ensures
        dots.len() == 3,
        ipv4_dots_at(s, dots[0] as int, dots[1] as int, dots[2] as int),
{
    let (wi, wj, wk): (int, int, int) = choose|wi: int, wj: int, wk: int|
        ipv4_dots_at(s, wi, wj, wk);
    assert forall|q: int|
        0 <= q < dots.len() implies dots[q] as int == wi || dots[q] as int == wj || dots[q] as int
        == wk by {
        if dots[q] as int != wi && dots[q] as int != wj && dots[q] as int != wk {
            lemma_ipv4_digit_at(s, wi, wj, wk, dots[q] as int);
        }
    }
    assert(dots.contains(wi as usize));
    assert(dots.contains(wj as usize));
    assert(dots.contains(wk as usize));
    let qi = choose|q: int| 0 <= q < dots.len() && dots[q] == wi as usize;
    let qj = choose|q: int| 0 <= q < dots.len() && dots[q] == wj as usize;
    let qk = choose|q: int| 0 <= q < dots.len() && dots[q] == wk as usize;
    assert(qi != qj && qj != qk && qi != qk);
    assert(dots.len() >= 3);
    if dots.len() > 3 {
        assert(dots[0] < dots[1]);
        assert(dots[1] < dots[2]);
        assert(dots[2] < dots[3]);
        assert(dots[0] as int == wi || dots[0] as int == wj || dots[0] as int == wk);
        assert(dots[1] as int == wi || dots[1] as int == wj || dots[1] as int == wk);
        assert(dots[2] as int == wi || dots[2] as int == wj || dots[2] as int == wk);
        assert(dots[3] as int == wi || dots[3] as int == wj || dots[3] as int == wk);
        assert(false);
    }
    if qi > qj {
        assert(dots[qj] < dots[qi]);
        assert(false);
    }
    if qj > qk {
        assert(dots[qk] < dots[qj]);
        assert(false);
    }
    assert(qi == 0 && qj == 1 && qk == 2);
}

/// Whether the characters from `from` to `to` spell a decimal octet.
fn check_octet(s: &str, from: usize, to: usize) -> (r: bool)
    requires
        from <= to <= s@.len(),
    ensures
        r == is_dec_octet(s@.subrange(from as int, to as int)),
{
    let ghost t = s@.subrange(from as int, to as int);
    let len: usize = to - from;
    if len == 1 {
        let c0: char = s.get_char(from);
        proof {
            assert(t[0] == s@[from as int]);
        }
        '0' <= c0 && c0 <= '9'
    } else if len == 2 {
        let c0: char = s.get_char(from);
        let c1: char = s.get_char(from + 1);
        proof {
            assert(t[0] == s@[from as int]);
            assert(t[1] == s@[from as int + 1]);
        }
        '0' <= c0 && c0 <= '9' && '0' <= c1 && c1 <= '9' && c0 != '0'
    } else if len == 3 {
        let c0: char = s.get_char(from);
        let c1: char = s.get_char(from + 1);
        let c2: char = s.get_char(from + 2);
        proof {
            assert(t[0] == s@[from as int]);
            assert(t[1] == s@[from as int + 1]);
            assert(t[2] == s@[from as int + 2]);
        }
        if '0' <= c0 && c0 <= '9' && '0' <= c1 && c1 <= '9' && '0' <= c2 && c2 <= '9' && c0 != '0' {
            let value: u32 = (c0 as u32 - 48) * 100 + (c1 as u32 - 48) * 10 + (c2 as u32 - 48);
            value <= 255
        } else {
            false
        }
    } else {
        false
    }
}

/// Whether `s` is a dotted-decimal IPv4 literal: finds the dots, demands
/// exactly three, and checks the four octets between them.
fn check_ipv4(s: &str) -> (r: bool)
    ensures
        r == spec_is_ipv4(s@),
{
    let n: usize = s.unicode_len();
    let mut dots: Vec<usize> = Vec::new();
    let mut p: usize = 0;
    while p < n
        invariant
            0 <= p <= n,
            n == s@.len(),
            forall|q: int|
                0 <= q < dots@.len() ==> (#[trigger] dots@[q]) < p && s@[dots@[q] as int] == '.',
            forall|x: int| 0 <= x < p && s@[x] == '.' ==> dots@.contains(x as usize),
            forall|q1: int, q2: int|
                0 <= q1 < q2 < dots@.len() ==> #[trigger] dots@[q1] < #[trigger] dots@[q2],
        decreases n - p,
    {
        let c: char = s.get_char(p);
        let ghost pre = dots@;
        if c == '.' {
            dots.push(p);
        }
        proof {
            assert forall|x: int| 0 <= x < p + 1 && s@[x] == '.' implies dots@.contains(
                x as usize,
            ) by {
                if x < p {
                    assert(pre.contains(x as usize));
                    let q = choose|q: int| 0 <= q < pre.len() && pre[q] == x as usize;
                    assert(dots@[q] == x as usize);
                } else {
                    assert(dots@[dots@.len() - 1] == x as usize);
                }
            }
        }
        p = p + 1;
    }
    if dots.len() != 3 {
        proof {
            if spec_is_ipv4(s@) {
                lemma_dots_are_the_witness(s@, dots@);
            }
        }
        return false;
    }
    let i: usize = dots[0];
    let j: usize = dots[1];
    let k: usize = dots[2];
    proof {
        assert(dots@[0] < dots@[1]);
        assert(dots@[1] < dots@[2]);
    }
    let ok: bool = check_octet(s, 0, i) && check_octet(s, i + 1, j) && check_octet(s, j + 1, k)
        && check_octet(s, k + 1, n);
    proof {
        if ok {
            assert(ipv4_dots_at(s@, i as int, j as int, k as int));
        } else {
            if spec_is_ipv4(s@) {
                lemma_dots_are_the_witness(s@, dots@);
                assert(false);
            }
        }
    }
    ok
}

/// A server address literal, as the API reported it. Holds text for
/// which `spec_addr_text` holds.
#[derive(Clone, Debug)]
pub struct FyydIpAddr {
    text: String,
}

impl View for FyydIpAddr {
    type V = Seq<char>;

    closed spec fn view(&self) -> Seq<char> {
        self.text@
    }
}

impl DeepView for FyydIpAddr {
    type V = Seq<char>;

    open spec fn deep_view(&self) -> Seq<char> {
        self.view()
    }
}

impl FyydIpAddr {
    /// The invariant of the type: the text is an address literal.
    pub closed spec fn wf(&self) -> bool {
        spec_addr_text(self.text@)
    }

    /// Accepts `s` exactly when it is an address literal, and keeps it.
    pub fn parse(s: &str) -> (r: Option<FyydIpAddr>)
        ensures
            match r {
                Some(a) => a.wf() && a@ == s@ && spec_addr_text(s@),
                None => !spec_addr_text(s@),
            },
    {
        let n: usize = s.unicode_len();
        if n == 0 {
            return None;
        }
        let mut has_colon = false;
        let mut all_colon_hex = true;
        let mut p: usize = 0;
        while p < n
            invariant
                0 <= p <= n,
                n == s@.len(),
                has_colon == exists|q: int| 0 <= q < p && (#[trigger] s@[q]) == ':',
                all_colon_hex == forall|q: int|
                    0 <= q < p ==> (is_hex_digit(#[trigger] s@[q]) || s@[q] == ':'),
            decreases n - p,
        {
            let c: char = s.get_char(p);
            if c == ':' {
                has_colon = true;
            }
            if !(('0' <= c && c <= '9') || ('a' <= c && c <= 'f') || ('A' <= c && c <= 'F') || c
                == ':') {
                all_colon_hex = false;
            }
            p = p + 1;
        }
        if has_colon {
            // A dotted-decimal literal has no colon in it, so only the
            // colon-hex reading remains.
            proof {
                if spec_is_ipv4(s@) {
                    let (wi, wj, wk): (int, int, int) = choose|wi: int, wj: int, wk: int|
                        ipv4_dots_at(s@, wi, wj, wk);
                    let q = choose|q: int| 0 <= q < n && (#[trigger] s@[q]) == ':';
                    if q != wi && q != wj && q != wk {
                        lemma_ipv4_digit_at(s@, wi, wj, wk, q);
                    }
                }
            }
            if all_colon_hex {
                Some(FyydIpAddr { text: s.to_owned() })
            } else {
                None
            }
        } else {
            // Without a colon the text is not colon-hex, so only the
            // dotted-decimal reading remains.
            if check_ipv4(s) {
                Some(FyydIpAddr { text: s.to_owned() })
            } else {
                None
            }
        }
    }

    /// The address text.
    pub fn text(&self) -> (r: &String)
        ensures
            r@ == self@,
    {
        &self.text
    }
}

} // verus!
