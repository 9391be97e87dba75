//! The default gateway, read from the kernel's routing table text
//! (`/proc/net/route`), and the resolver configuration written for a lease.

use crate::mac::{all_hex, hex_digit, hex_value, unsigned_digits};
use crate::text::push_char;
use vstd::string::*;
use vstd::endian::{endianness, Endian};
use vstd::prelude::*;

verus! {

/// The characters that `char::is_whitespace` accepts: Unicode's White_Space.
pub open spec fn is_ws(c: char) -> bool {
    ||| c == ' '
    ||| ('\t' <= c && c <= '\r')
    ||| c == '\u{85}'
    ||| c == '\u{a0}'
    ||| c == '\u{1680}'
    ||| ('\u{2000}' <= c && c <= '\u{200a}')
    ||| c == '\u{2028}'
    ||| c == '\u{2029}'
    ||| c == '\u{202f}'
    ||| c == '\u{205f}'
    ||| c == '\u{3000}'
}

pub(crate) fn is_ws_exec(c: char) -> (r: bool)
    ensures
        r == is_ws(c),
{
    c == ' ' || ('\t' <= c && c <= '\r') || c == '\u{85}' || c == '\u{a0}' || c == '\u{1680}' || (
    '\u{2000}' <= c && c <= '\u{200a}') || c == '\u{2028}' || c == '\u{2029}' || c == '\u{202f}'
        || c == '\u{205f}' || c == '\u{3000}'
}

/// The words of `s`, as `split_whitespace` yields them: the maximal runs of
/// characters that are not whitespace.
pub open spec fn words(s: Seq<char>) -> Seq<Seq<char>>
    decreases s.len(),
{
    if s.len() == 0 {
        Seq::empty()
    } else if is_ws(s.last()) {
        words(s.drop_last())
    } else {
        let w = words(s.drop_last());
        if s.len() >= 2 && !is_ws(s[s.len() - 2]) {
            w.update(w.len() - 1, w.last().push(s.last()))
        } else {
            w.push(seq![s.last()])
        }
    }
}

/// The pieces of `s` between `\n` characters.
pub open spec fn nl_pieces(s: Seq<char>) -> Seq<Seq<char>>
    decreases s.len(),
{
    if s.len() == 0 {
        seq![Seq::<char>::empty()]
    } else if s.last() == '\n' {
        nl_pieces(s.drop_last()).push(Seq::<char>::empty())
    } else {
        let f = nl_pieces(s.drop_last());
        f.update(f.len() - 1, f.last().push(s.last()))
    }
}

/// The lines of `s`, as `str::lines` yields them, up to a trailing `\r`
/// (which is whitespace, and so never part of a word): the pieces between
/// `\n`, without a last piece that is empty.
pub open spec fn lines(s: Seq<char>) -> Seq<Seq<char>> {
    let p = nl_pieces(s);
    if p.last().len() == 0 {
        p.drop_last()
    } else {
        p
    }
}

/// How `u32::from_str_radix(p, 16)` reads `p`.
pub open spec fn parse_hex_u32(p: Seq<char>) -> Option<u32> {
    let d = unsigned_digits(p);
    if d.len() > 0 && all_hex(d) && hex_value(d) <= u32::MAX {
        Some(hex_value(d) as u32)
    } else {
        None
    }
}

/// The gateway field of the first default route among `lines`: a line with
/// fewer than two words ends the search with nothing, as does a default
/// route (destination `00000000`) without a readable third word.
pub open spec fn gateway_in(lines: Seq<Seq<char>>) -> Option<u32>
    decreases lines.len(),
{
    if lines.len() == 0 {
        None
    } else {
        let w = words(lines[0]);
        if w.len() < 2 {
            None
        } else if w[1] == "00000000"@ {
            if w.len() < 3 {
                None
            } else {
                parse_hex_u32(w[2])
            }
        } else {
            gateway_in(lines.drop_first())
        }
    }
}

/// The lines after the first, which is the table's header.
pub open spec fn after_header(ls: Seq<Seq<char>>) -> Seq<Seq<char>> {
    if ls.len() == 0 {
        ls
    } else {
        ls.drop_first()
    }
}

/// The characters of a text.
fn chars_of(s: &str) -> (r: Vec<char>)
    ensures
        r@ == s@,
{
    let n = s.unicode_len();
    let mut r: Vec<char> = Vec::new();
    let mut i: usize = 0;
    while i < n
        invariant
            i <= n == s@.len(),
            r@ == s@.take(i as int),
        decreases n - i,
    {
        r.push(s.get_char(i));
        i = i + 1;
        assert(r@ =~= s@.take(i as int));
    }
    assert(s@.take(n as int) =~= s@);
    r
}

/// The views of a list of character lists.
pub open spec fn char_views(v: Seq<Vec<char>>) -> Seq<Seq<char>> {
    v.map_values(|x: Vec<char>| x@)
}

proof fn lemma_words_end(s: Seq<char>)
    requires
        s.len() > 0,
        !is_ws(s.last()),
    ensures
        words(s).len() > 0,
    decreases s.len(),
{
    if s.len() >= 2 && !is_ws(s[s.len() - 2]) {
        assert(s.drop_last().last() == s[s.len() - 2]);
        lemma_words_end(s.drop_last());
    }
}

fn copy_chars(v: &Vec<char>) -> (r: Vec<char>)
    ensures
        r@ == v@,
{
    let mut r: Vec<char> = Vec::new();
    let mut i: usize = 0;
    while i < v.len()
        invariant
            0 <= i <= v@.len(),
            r@ == v@.take(i as int),
        decreases v@.len() - i,
    {
        r.push(v[i]);
        i = i + 1;
        assert(r@ =~= v@.take(i as int));
    }
    assert(v@.take(v@.len() as int) =~= v@);
    r
}

/// The words of a line.
fn words_of(line: &Vec<char>) -> (r: Vec<Vec<char>>)
    ensures
        char_views(r@) == words(line@),
{
    let mut r: Vec<Vec<char>> = Vec::new();
    let mut i: usize = 0;
    assert(line@.take(0) =~= Seq::<char>::empty());
    while i < line.len()
        invariant
            0 <= i <= line@.len(),
            char_views(r@) == words(line@.take(i as int)),
        decreases line@.len() - i,
    {
        let c = line[i];
        let ghost t = line@.take(i + 1);
        assert(t.drop_last() =~= line@.take(i as int));
        assert(t.last() == c);
        if !is_ws_exec(c) {
            if i > 0 && !is_ws_exec(line[i - 1]) {
                proof {
                    assert(line@.take(i as int).last() == line@[i - 1]);
                    lemma_words_end(line@.take(i as int));
                }
                let last = r.len() - 1;
                let mut w = copy_chars(&r[last]);
                w.push(c);
                r.set(last, w);
                assert(t[t.len() - 2] == line@[i - 1]);
                assert(char_views(r@) =~= words(t));
            } else {
                let mut w: Vec<char> = Vec::new();
                w.push(c);
                assert(w@ =~= seq![c]);
                r.push(w);
                assert(t.len() >= 2 ==> t[t.len() - 2] == line@[i - 1]);
                assert(char_views(r@) =~= words(t));
            }
        }
        i = i + 1;
    }
    assert(line@.take(line.len() as int) =~= line@);
    r
}

/// The pieces of a text between `\n` characters.
fn pieces_of(text: &Vec<char>) -> (r: Vec<Vec<char>>)
    ensures
        char_views(r@) == nl_pieces(text@),
        r@.len() > 0,
{
    let mut r: Vec<Vec<char>> = Vec::new();
    r.push(Vec::new());
    let mut i: usize = 0;
    assert(text@.take(0) =~= Seq::<char>::empty());
    assert(char_views(r@) =~= seq![Seq::<char>::empty()]);
    while i < text.len()
        invariant
            0 <= i <= text@.len(),
            char_views(r@) == nl_pieces(text@.take(i as int)),
            r@.len() > 0,
        decreases text@.len() - i,
    {
        let c = text[i];
        let ghost t = text@.take(i + 1);
        assert(t.drop_last() =~= text@.take(i as int));
        assert(t.last() == c);
        if c == '\n' {
            r.push(Vec::new());
            assert(char_views(r@) =~= nl_pieces(t));
        } else {
            let last = r.len() - 1;
            let mut w = copy_chars(&r[last]);
            w.push(c);
            r.set(last, w);
            assert(char_views(r@) =~= nl_pieces(t));
        }
        i = i + 1;
    }
    assert(text@.take(text.len() as int) =~= text@);
    r
}

/// How `u32::from_str_radix(p, 16)` reads a word.
fn parse_hex_u32_exec(p: &Vec<char>) -> (r: Option<u32>)
    ensures
        r == parse_hex_u32(p@),
{
    let plus = p.len() > 0 && p[0] == '+';
    let start: usize = if plus { 1 } else { 0 };
    let ghost d = unsigned_digits(p@);
    assert(d =~= p@.skip(start as int));
    if p.len() - start == 0 {
        return None;
    }
    let mut value: u64 = 0;
    let mut i = start;
    assert(p@.subrange(start as int, start as int) =~= Seq::<char>::empty());
    while i < p.len()
        invariant
            start <= i <= p@.len(),
            d == p@.skip(start as int),
            d == unsigned_digits(p@),
            all_hex(p@.subrange(start as int, i as int)),
            value == hex_value(p@.subrange(start as int, i as int)),
            value <= u32::MAX,
        decreases p@.len() - i,
    {
        let c = p[i];
        let ghost pre = p@.subrange(start as int, i as int);
        assert(p@.subrange(start as int, i + 1) =~= pre.push(c));
        assert(pre.push(c).drop_last() =~= pre);
        let dv: u64 = if '0' <= c && c <= '9' {
            (c as u64) - ('0' as u64)
        } else if 'a' <= c && c <= 'f' {
            (c as u64) - ('a' as u64) + 10
        } else if 'A' <= c && c <= 'F' {
            (c as u64) - ('A' as u64) + 10
        } else {
            proof {
                assert(d[i - start] == c);
                assert(!(hex_digit(d[i - start]) is Some));
            }
            return None;
        };
        value = value * 16 + dv;
        if value > 0xffff_ffff {
            proof {
                if all_hex(d) {
                    lemma_hex_value_grows(d, (i + 1 - start) as int);
                    assert(d.take((i + 1 - start) as int) =~= pre.push(c));
                }
            }
            return None;
        }
        assert forall|w: int| 0 <= w < pre.push(c).len() implies (#[trigger] hex_digit(pre.push(c)[w])) is Some by {
            if w < pre.len() {
                assert(pre.push(c)[w] == pre[w]);
            }
        }
        i = i + 1;
    }
    assert(p@.subrange(start as int, p@.len() as int) =~= d);
    Some(value as u32)
}

/// A hex number does not get smaller when digits are added.
proof fn lemma_hex_value_grows(d: Seq<char>, k: int)
    requires
        0 <= k <= d.len(),
        all_hex(d),
    ensures
        hex_value(d) >= hex_value(d.take(k)),
    decreases d.len() - k,
{
    if k < d.len() {
        lemma_hex_value_grows(d, k + 1);
        assert(d.take(k + 1).drop_last() =~= d.take(k));
    } else {
        assert(d.take(k) =~= d);
    }
}

/// The gateway of the first default route in the routing table text, as the
/// number that the table writes in hex.
pub fn gateway_field(content: &str) -> (r: Option<u32>)
    ensures
        r == gateway_in(after_header(lines(content@))),
{
    let chars = chars_of(content);
    let mut all = pieces_of(&chars);
    let ghost p = char_views(all@);
    if all[all.len() - 1].len() == 0 {
        all.pop();
    }
    let ghost ls = char_views(all@);
    assert(ls =~= lines(content@));
    if all.len() == 0 {
        return None;
    }
    let mut i: usize = 1;
    assert(ls.skip(1) =~= ls.drop_first());
    while i < all.len()
        invariant
            1 <= i <= all@.len(),
            ls == char_views(all@),
            ls == lines(content@),
            gateway_in(ls.skip(i as int)) == gateway_in(after_header(ls)),
        decreases all@.len() - i,
    {
        assert(ls.skip(i as int)[0] == all@[i as int]@);
        assert(ls.skip(i as int).drop_first() =~= ls.skip(i + 1));
        let w = words_of(&all[i]);
        if w.len() < 2 {
            return None;
        }
        let zeros = vec!['0', '0', '0', '0', '0', '0', '0', '0'];
        proof {
            reveal_strlit("00000000");
        }
        assert(zeros@ =~= "00000000"@);
        if chars_equal(&w[1], &zeros) {
            if w.len() < 3 {
                return None;
            }
            return parse_hex_u32_exec(&w[2]);
        }
        i = i + 1;
    }
    assert(ls.skip(i as int).len() == 0);
    None
}

fn chars_equal(a: &Vec<char>, b: &Vec<char>) -> (r: bool)
    ensures
        r == (a@ == b@),
{
    if a.len() != b.len() {
        return false;
    }
    let mut i: usize = 0;
    while i < a.len()
        invariant
            a@.len() == b@.len(),
            0 <= i <= a@.len(),
            forall|j: int| 0 <= j < i ==> a@[j] == b@[j],
        decreases a@.len() - i,
    {
        if a[i] != b[i] {
            return false;
        }
        i = i + 1;
    }
    assert(a@ =~= b@);
    true
}

/// The number with the bytes of `v` in the reverse order.
pub open spec fn swap_bytes(v: u32) -> u32 {
    ((v % 0x100) * 0x1000000 + ((v / 0x100) % 0x100) * 0x10000 + ((v / 0x10000) % 0x100) * 0x100
        + v / 0x1000000) as u32
}

/// What `u32::from_be` gives on this machine: `v` itself on a big-endian
/// machine, its bytes reversed on a little-endian one.
pub open spec fn from_be_spec(v: u32) -> u32 {
    match endianness() {
        Endian::Big => v,
        Endian::Little => swap_bytes(v),
    }
}

/// `u32::from_be`: `v` itself on a big-endian machine, its bytes reversed
/// on a little-endian one; which of the two is the executing machine's
/// [`endianness`].
#[verifier::external_body]
fn from_be(v: u32) -> (r: u32)
    ensures
        r == v || r == swap_bytes(v),
        r == from_be_spec(v),
{
    u32::from_be(v)
}

/// The default gateway of the routing table text `t`: the table's number
/// read in the machine's byte order.
pub open spec fn table_gateway(t: Seq<char>) -> Option<u32> {
    match gateway_in(after_header(lines(t))) {
        Some(g) => Some(from_be_spec(g)),
        None => None,
    }
}

/// The default gateway in the routing table text, as the `u32` of its
/// octets: the table's number read in the machine's byte order.
pub fn get_gateway_ip(content: &str) -> (r: Option<u32>)
    ensures
        r is Some <==> gateway_in(after_header(lines(content@))) is Some,
        r matches Some(a) ==> ({
            let g = gateway_in(after_header(lines(content@)))->0;
            a == g || a == swap_bytes(g)
        }),
        r == table_gateway(content@),
{
    match gateway_field(content) {
        Some(g) => Some(from_be(g)),
        None => None,
    }
}

/// Every routing table is read in one byte order, the machine's: where one
/// table's gateway field comes out with its bytes kept (or reversed), and
/// reversing its bytes would change it, every other table's field comes out
/// the same way.
pub proof fn law_gateway_one_byte_order(t1: Seq<char>, t2: Seq<char>)
    requires
        gateway_in(after_header(lines(t1))) matches Some(g1) && g1 != swap_bytes(g1),
        gateway_in(after_header(lines(t2))) is Some,
    ensures
        ({
            let g1 = gateway_in(after_header(lines(t1)))->0;
            let g2 = gateway_in(after_header(lines(t2)))->0;
            &&& table_gateway(t1) == Some(g1) ==> table_gateway(t2) == Some(g2)
            &&& table_gateway(t1) == Some(swap_bytes(g1)) ==> table_gateway(t2) == Some(swap_bytes(g2))
            &&& table_gateway(t1) == Some(g1) || table_gateway(t1) == Some(swap_bytes(g1))
        }),
{
}

/// Reading the gateway field as the machine does and then reversing its
/// bytes on a little-endian machine gives back the field: the octets of
/// the gateway address come out in order.
pub proof fn law_gateway_field_round_trip(t: Seq<char>)
    requires
        gateway_in(after_header(lines(t))) is Some,
    ensures
        from_be_spec(table_gateway(t)->0) == gateway_in(after_header(lines(t)))->0,
{
    let g = gateway_in(after_header(lines(t)))->0;
    assert(swap_bytes(swap_bytes(g)) == g) by (bit_vector)
        requires
            g == g,
    ;
}

/// The decimal digits of `n`.
pub open spec fn decimal(n: nat) -> Seq<char>
    decreases n,
{
    if n < 10 {
        seq![((n + 48) as u8) as char]
    } else {
        decimal(n / 10).push((((n % 10) + 48) as u8) as char)
    }
}

/// An IPv4 address in dotted decimal, as `Ipv4Addr`'s `Display` writes it.
pub open spec fn ipv4_text(a: u32) -> Seq<char> {
    decimal(a as nat / 0x1000000) + seq!['.'] + decimal((a as nat / 0x10000) % 0x100) + seq!['.']
        + decimal((a as nat / 0x100) % 0x100) + seq!['.'] + decimal(a as nat % 0x100)
}

/// The resolver configuration for a lease: a `nameserver` line for each DNS
/// server of the lease, then for 8.8.8.8 and 1.1.1.1, joined by newlines.
pub open spec fn resolv_text(dns: Seq<u32>) -> Seq<char>
    decreases dns.len(),
{
    if dns.len() == 0 {
        "nameserver 8.8.8.8\nnameserver 1.1.1.1"@
    } else {
        "nameserver "@ + ipv4_text(dns[0]) + "\n"@ + resolv_text(dns.drop_first())
    }
}

fn push_str(s: &mut String, t: &str)
    ensures
        final(s)@ == old(s)@ + t@,
{
    s.append(t);
}

fn push_decimal(s: &mut String, n: u32)
    requires
        n < 256,
    ensures
        final(s)@ == old(s)@ + decimal(n as nat),
{
    let h = n / 100;
    let t = (n / 10) % 10;
    let o = n % 10;
    if n >= 100 {
        push_char(s, ((h + 48) as u8) as char);
        push_char(s, ((t + 48) as u8) as char);
        push_char(s, ((o + 48) as u8) as char);
        assert(decimal(n as nat / 100) =~= seq![((h + 48) as u8) as char]);
        assert(decimal(n as nat / 10) =~= decimal(n as nat / 100).push(
            ((((n as nat / 10) % 10) + 48) as u8) as char,
        ));
    } else if n >= 10 {
        push_char(s, ((t + 48) as u8) as char);
        push_char(s, ((o + 48) as u8) as char);
        assert(decimal(n as nat / 10) =~= seq![((t + 48) as u8) as char]);
    } else {
        push_char(s, ((o + 48) as u8) as char);
    }
}

/// Writes an address in dotted decimal.
fn push_ipv4(s: &mut String, a: u32)
    ensures
        final(s)@ == old(s)@ + ipv4_text(a),
{
    push_decimal(s, a / 0x1000000);
    push_char(s, '.');
    push_decimal(s, (a / 0x10000) % 0x100);
    push_char(s, '.');
    push_decimal(s, (a / 0x100) % 0x100);
    push_char(s, '.');
    push_decimal(s, a % 0x100);
}

/// The resolver configuration for the DNS servers of a lease.
pub fn resolv_conf(dns: &Vec<u32>) -> (r: String)
    ensures
        r@ == resolv_text(dns@),
{
    let mut s = String::new();
    let mut i: usize = 0;
    assert(dns@.skip(0) =~= dns@);
    while i < dns.len()
        invariant
            0 <= i <= dns@.len(),
            s@ + resolv_text(dns@.skip(i as int)) == resolv_text(dns@),
        decreases dns@.len() - i,
    {
        let ghost before = s@;
        assert(dns@.skip(i as int)[0] == dns@[i as int]);
        assert(dns@.skip(i as int).drop_first() =~= dns@.skip(i + 1));
        push_str(&mut s, "nameserver ");
        push_ipv4(&mut s, dns[i]);
        push_str(&mut s, "\n");
        assert(s@ =~= before + "nameserver "@ + ipv4_text(dns@[i as int]) + "\n"@);
        i = i + 1;
    }
    push_str(&mut s, "nameserver 8.8.8.8\nnameserver 1.1.1.1");
    assert(dns@.skip(i as int) =~= Seq::<u32>::empty());
    s
}

} // verus!
