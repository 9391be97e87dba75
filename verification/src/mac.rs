//! MAC addresses written as `12:34:56:78:90:AB`.

use vstd::prelude::*;

verus! {

/// The value of a hexadecimal digit, if `c` is one.
pub open spec fn hex_digit(c: char) -> Option<nat> {
    if '0' <= c && c <= '9' {
        Some((c as nat - '0' as nat) as nat)
    } else if 'a' <= c && c <= 'f' {
        Some((c as nat - 'a' as nat + 10) as nat)
    } else if 'A' <= c && c <= 'F' {
        Some((c as nat - 'A' as nat + 10) as nat)
    } else {
        None
    }
}

/// Every character of `d` is a hexadecimal digit.
pub open spec fn all_hex(d: Seq<char>) -> bool {
    forall|i: int| 0 <= i < d.len() ==> (#[trigger] hex_digit(d[i])) is Some
}

/// The number that the hexadecimal digits `d` denote (most significant first).
pub open spec fn hex_value(d: Seq<char>) -> nat
    decreases d.len(),
{
    if d.len() == 0 {
        0
    } else {
        hex_value(d.drop_last()) * 16 + match hex_digit(d.last()) {
            Some(v) => v,
            None => 0,
        }
    }
}

/// The digits of a field once an optional leading `+` is removed.
pub open spec fn unsigned_digits(p: Seq<char>) -> Seq<char> {
    if p.len() > 0 && p[0] == '+' {
        p.drop_first()
    } else {
        p
    }
}

/// How `u8::from_str_radix(p, 16)` reads `p`: an optional `+`, then one or
/// more hexadecimal digits whose value fits in a byte.
pub open spec fn parse_hex_byte(p: Seq<char>) -> Option<u8> {
    let d = unsigned_digits(p);
    if d.len() > 0 && all_hex(d) && hex_value(d) <= 255 {
        Some(hex_value(d) as u8)
    } else {
        None
    }
}

/// The fields of `s` between the `:` separators, as `str::split(":")` yields them.
pub open spec fn colon_fields(s: Seq<char>) -> Seq<Seq<char>>
    decreases s.len(),
{
    if s.len() == 0 {
        seq![Seq::<char>::empty()]
    } else if s.last() == ':' {
        colon_fields(s.drop_last()).push(Seq::<char>::empty())
    } else {
        let f = colon_fields(s.drop_last());
        f.update(f.len() - 1, f.last().push(s.last()))
    }
}

/// A MAC text that `mac_to_bytes` accepts: at most six fields, each a byte in hex.
pub open spec fn mac_text_valid(s: Seq<char>) -> bool {
    let f = colon_fields(s);
    &&& f.len() <= 6
    &&& forall|i: int| 0 <= i < f.len() ==> (#[trigger] parse_hex_byte(f[i])) is Some
}

/// The six bytes that a valid MAC text stands for: field `i` gives byte `i`,
/// and bytes past the last field are zero.
pub open spec fn mac_bytes_of(s: Seq<char>) -> Seq<u8> {
    let f = colon_fields(s);
    Seq::new(6, |i: int| if i < f.len() { parse_hex_byte(f[i])->0 } else { 0u8 })
}

proof fn lemma_colon_fields_nonempty(s: Seq<char>)
    ensures
        colon_fields(s).len() >= 1,
    decreases s.len(),
{
    if s.len() > 0 {
        lemma_colon_fields_nonempty(s.drop_last());
    }
}

proof fn lemma_hex_value_push(d: Seq<char>, c: char)
    ensures
        hex_value(d.push(c)) == hex_value(d) * 16 + match hex_digit(c) {
            Some(v) => v,
            None => 0,
        },
{
    assert(d.push(c).drop_last() =~= d);
}

proof fn lemma_unsigned_digits_push(p: Seq<char>, c: char)
    ensures
        unsigned_digits(p.push(c)) == if p.len() == 0 {
            if c == '+' {
                Seq::<char>::empty()
            } else {
                seq![c]
            }
        } else {
            unsigned_digits(p).push(c)
        },
{
    if p.len() == 0 {
        assert(p.push(c) =~= seq![c]);
        if c == '+' {
            assert(seq![c].drop_first() =~= Seq::<char>::empty());
        }
    } else if p[0] == '+' {
        assert(p.push(c).drop_first() =~= p.drop_first().push(c));
    }
}

/// The state of the field being read: its digits are all hex and fit in a byte.
spec fn digits_fit(p: Seq<char>) -> bool {
    all_hex(unsigned_digits(p)) && hex_value(unsigned_digits(p)) <= 255
}

fn hex_digit_value(c: char) -> (r: Option<u32>)
    ensures
        r is Some <==> hex_digit(c) is Some,
        r matches Some(v) ==> v == hex_digit(c)->0 && v < 16,
{
    if '0' <= c && c <= '9' {
        Some((c as u32) - ('0' as u32))
    } else if 'a' <= c && c <= 'f' {
        Some((c as u32) - ('a' as u32) + 10)
    } else if 'A' <= c && c <= 'F' {
        Some((c as u32) - ('A' as u32) + 10)
    } else {
        None
    }
}

/// Reads a MAC text. Gives `None` exactly where `mac_to_bytes` would panic.
pub fn parse_mac(mac: &str) -> (r: Option<[u8; 6]>)
    ensures
        r is Some <==> mac_text_valid(mac@),
        r matches Some(b) ==> b@ == mac_bytes_of(mac@),
{
    let n = mac.unicode_len();
    let mut res = [0u8; 6];
    let mut k: usize = 0;
    let mut fields_ok = true;
    let mut cur_len: usize = 0;
    let mut plus = false;
    let mut fit = true;
    let mut value: u32 = 0;
    let mut i: usize = 0;
    assert(mac@.take(0) =~= Seq::<char>::empty());
    assert(unsigned_digits(Seq::<char>::empty()) =~= Seq::<char>::empty());
    while i < n
        invariant
            n == mac@.len(),
            0 <= i <= n,
            k <= i,
            cur_len <= i,
            unsigned_digits(Seq::<char>::empty()) =~= Seq::<char>::empty(),
            colon_fields(mac@.take(i as int)).len() == k + 1,
            fields_ok == ((forall|j: int|
                0 <= j < k ==> (#[trigger] parse_hex_byte(colon_fields(mac@.take(i as int))[j])) is Some) && k <= 6),
            fields_ok ==> forall|j: int|
                0 <= j < k ==> res@[j] == (#[trigger] parse_hex_byte(colon_fields(mac@.take(i as int))[j]))->0,
            forall|j: int| k <= j < 6 ==> res@[j] == 0u8,
            cur_len == colon_fields(mac@.take(i as int))[k as int].len(),
            plus == (cur_len > 0 && colon_fields(mac@.take(i as int))[k as int][0] == '+'),
            fit == digits_fit(colon_fields(mac@.take(i as int))[k as int]),
            fit ==> value == hex_value(unsigned_digits(colon_fields(mac@.take(i as int))[k as int])) && value <= 255,
        decreases n - i,
    {
        let c = mac.get_char(i);
        let ghost t = mac@.take(i as int);
        let ghost f = colon_fields(t);
        let ghost last = f[k as int];
        assert(mac@.take(i + 1).drop_last() =~= t);
        assert(mac@.take(i + 1).last() == c);
        if c == ':' {
            let ndig = if plus { cur_len - 1 } else { cur_len };
            proof {
                if plus {
                    assert(unsigned_digits(last).len() == cur_len - 1);
                }
            }
            let closes = ndig > 0 && fit;
            proof {
                assert(closes == (parse_hex_byte(last) is Some));
            }
            let ghost was_ok = fields_ok;
            if fields_ok && closes && k < 6 {
                res[k] = value as u8;
            } else {
                fields_ok = false;
            }
            k = k + 1;
            cur_len = 0;
            plus = false;
            fit = true;
            value = 0;
            proof {
                let g = colon_fields(mac@.take(i + 1));
                assert(g =~= f.push(Seq::<char>::empty()));
                assert(all_hex(Seq::<char>::empty()));
                assert forall|j: int| 0 <= j < k - 1 implies g[j] == f[j] by {}
                assert(g[k - 1] == last);
                if !was_ok && k - 1 <= 6 {
                    let w = choose|w: int| 0 <= w < k - 1 && !(parse_hex_byte(f[w]) is Some);
                    assert(g[w] == f[w]);
                    assert(!(parse_hex_byte(g[w]) is Some));
                }
                if !closes {
                    assert(!(parse_hex_byte(g[k - 1]) is Some));
                }
                if fields_ok {
                    assert forall|j: int| 0 <= j < k implies (#[trigger] parse_hex_byte(g[j])) is Some by {
                        if j < k - 1 {
                            assert(g[j] == f[j]);
                        }
                    }
                    assert forall|j: int| 0 <= j < k implies res@[j] == (#[trigger] parse_hex_byte(g[j]))->0 by {
                        if j < k - 1 {
                            assert(g[j] == f[j]);
                        }
                    }
                }
            }
        } else {
            proof {
                lemma_unsigned_digits_push(last, c);
                lemma_hex_value_push(unsigned_digits(last), c);
                let g = colon_fields(mac@.take(i + 1));
                assert(g =~= f.update(k as int, last.push(c)));
                assert forall|j: int| 0 <= j < k implies g[j] == f[j] by {}
            }
            if cur_len == 0 && c == '+' {
                plus = true;
            } else {
                let d = hex_digit_value(c);
                if fit {
                    match d {
                        Some(v) => {
                            value = value * 16 + v;
                            if value > 255 {
                                fit = false;
                            }
                        },
                        None => {
                            fit = false;
                        },
                    }
                }
                proof {
                    let ud = unsigned_digits(last.push(c));
                    if d is None {
                        assert(hex_digit(ud[ud.len() - 1]) is None);
                    }
                    if !digits_fit(last) {
                        if !all_hex(unsigned_digits(last)) {
                            let w = choose|w: int|
                                0 <= w < unsigned_digits(last).len() && !(hex_digit(
                                    unsigned_digits(last)[w],
                                ) is Some);
                            assert(ud[w] == unsigned_digits(last)[w]);
                        }
                    }
                    if fit {
                        assert forall|w: int| 0 <= w < ud.len() implies (#[trigger] hex_digit(
                            ud[w],
                        )) is Some by {
                            if w < ud.len() - 1 {
                                assert(ud[w] == unsigned_digits(last)[w]);
                            }
                        }
                    }
                }
            }
            cur_len = cur_len + 1;
        }
        i = i + 1;
    }
    assert(mac@.take(n as int) =~= mac@);
    let ghost f = colon_fields(mac@);
    let ndig = if plus { cur_len - 1 } else { cur_len };
    proof {
        if plus {
            assert(unsigned_digits(f[k as int]).len() == cur_len - 1);
        }
    }
    if fields_ok && ndig > 0 && fit && k < 6 {
        res[k] = value as u8;
        assert(res@ =~= mac_bytes_of(mac@));
        Some(res)
    } else {
        proof {
            if fields_ok && k < 6 {
                assert(!(parse_hex_byte(f[k as int]) is Some));
            }
        }
        None
    }
}

/// The six bytes of a MAC address written as colon-separated hex fields,
/// such as `12:34:56:78:90:AB`.
pub fn mac_to_bytes(mac: &str) -> (r: [u8; 6])
    requires
        mac_text_valid(mac@),
    ensures
        r@ == mac_bytes_of(mac@),
{
    match parse_mac(mac) {
        Some(b) => b,
        None => [0u8; 6],
    }
}

} // verus!
