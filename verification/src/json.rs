//! The serialized form of the envelope container: a single-line record with
//! the fields in a fixed order, string values unescaped (every value this
//! library writes is base64 or base58 text, which needs no escaping), and
//! the optional public identity either present or omitted entirely.

use vstd::prelude::*;
use vstd::string::{StrSliceExecFns, StringExecFns};

use crate::crypto::{ContainerSpec, EncryptedKeyContainer, wf_container};
use crate::encoding::quote_free;

verus! {

/// The decimal digit character with value `d` (for `d < 10`).
pub open spec fn dec_digit(d: u8) -> char {
    "0123456789"@[d as int]
}

/// Whether `c` is a decimal digit character.
pub open spec fn is_dec_digit(c: char) -> bool {
    48 <= c as u32 <= 57
}

/// The canonical decimal text of a byte value: no sign, no leading zeros.
pub open spec fn u8_dec(v: u8) -> Seq<char> {
    if v < 10 {
        seq![dec_digit(v)]
    } else if v < 100 {
        seq![dec_digit(v / 10), dec_digit(v % 10)]
    } else {
        seq![dec_digit(v / 100), dec_digit((v / 10) % 10), dec_digit(v % 10)]
    }
}

/// The first part of the canonical serialized text: everything up to and
/// excluding the double quote that closes the ciphertext value.
pub open spec fn head_text(v: u8, salt: Seq<char>, nonce: Seq<char>, ct: Seq<char>) -> Seq<char> {
    "{\"version\":"@ + u8_dec(v) + ",\"salt\":\""@ + salt + "\",\"nonce\":\""@ + nonce
        + "\",\"ciphertext\":\""@ + ct
}

/// The canonical serialized text of a container.
pub open spec fn canon_json(c: ContainerSpec) -> Seq<char> {
    head_text(c.version, c.salt, c.nonce, c.ciphertext) + (match c.public_key {
        Some(p) => "\",\"public_key\":\""@ + p + "\"}"@,
        None => "\"}"@,
    })
}

/// The canonical decimal text of a byte value.
pub(crate) fn u8_to_decimal(v: u8) -> (r: String)
    ensures
        r@ == u8_dec(v),
{
    let digits = "0123456789";
    proof {
        reveal_strlit("0123456789");
    }
    let mut s = String::new();
    if v >= 100 {
        let d: usize = (v / 100) as usize;
        s.append(digits.substring_char(d, d + 1));
        proof {
            assert(s@ =~= seq![dec_digit(v / 100)]);
        }
    }
    if v >= 10 {
        let d: usize = ((v / 10) % 10) as usize;
        s.append(digits.substring_char(d, d + 1));
        proof {
            if v < 100 {
                assert(s@ =~= seq![dec_digit(v / 10)]);
            } else {
                assert(s@ =~= seq![dec_digit(v / 100), dec_digit((v / 10) % 10)]);
            }
        }
    }
    let d: usize = (v % 10) as usize;
    s.append(digits.substring_char(d, d + 1));
    proof {
        if v < 10 {
            assert(s@ =~= u8_dec(v));
        } else if v < 100 {
            assert(s@ =~= u8_dec(v));
        } else {
            assert(s@ =~= u8_dec(v));
        }
    }
    s
}

/// Every decimal digit character is `dec_digit` of its value, and those ten
/// characters are the code points 48 through 57.
proof fn lemma_dec_digit_table()
    ensures
        forall|d: u8| d < 10 ==> #[trigger] dec_digit(d) as u32 == 48 + d,
        forall|d: u8| d < 10 ==> is_dec_digit(#[trigger] dec_digit(d)),
{
    reveal_strlit("0123456789");
    assert forall|d: u8| d < 10 implies #[trigger] dec_digit(d) as u32 == 48 + d by {
        if d == 0 {
            assert(dec_digit(0) as u32 == 48);
        } else if d == 1 {
            assert(dec_digit(1) as u32 == 49);
        } else if d == 2 {
            assert(dec_digit(2) as u32 == 50);
        } else if d == 3 {
            assert(dec_digit(3) as u32 == 51);
        } else if d == 4 {
            assert(dec_digit(4) as u32 == 52);
        } else if d == 5 {
            assert(dec_digit(5) as u32 == 53);
        } else if d == 6 {
            assert(dec_digit(6) as u32 == 54);
        } else if d == 7 {
            assert(dec_digit(7) as u32 == 55);
        } else if d == 8 {
            assert(dec_digit(8) as u32 == 56);
        } else {
            assert(dec_digit(9) as u32 == 57);
        }
    }
}

/// Tries to read the exact text `lit` at position `i` of `s`.
fn match_lit(s: &str, i: usize, lit: &str) -> (r: Option<usize>)
    requires
        i <= s@.len(),
    ensures
        r matches Some(j) ==> j == i + lit@.len() && j <= s@.len() && s@.subrange(
            i as int,
            j as int,
        ) == lit@,
        r is None ==> !(i + lit@.len() <= s@.len() && s@.subrange(i as int, i + lit@.len())
            == lit@),
{
    let n = lit.unicode_len();
    let sn = s.unicode_len();
    if n > sn - i {
        return None;
    }
    let mut k: usize = 0;
    while k < n
        invariant
            k <= n,
            i + n <= sn,
            sn == s@.len(),
            n == lit@.len(),
            i <= s@.len(),
            forall|j: int| 0 <= j < k ==> s@[i + j] == lit@[j],
        decreases n - k,
    {
        if s.get_char(i + k) != lit.get_char(k) {
            proof {
                let sub = s@.subrange(i as int, i + n as int);
                assert(sub[k as int] == s@[i + k]);
                assert(sub != lit@);
            }
            return None;
        }
        k += 1;
    }
    proof {
        assert(s@.subrange(i as int, i + n as int) =~= lit@);
    }
    Some(i + n)
}

/// Scans from `i` to the first double quote, which ends a field value.
/// Fails if none follows or if a backslash (the start of an escape, which
/// this format does not use) appears first.
fn scan_field(s: &str, i: usize) -> (r: Option<(String, usize)>)
    requires
        i <= s@.len(),
    ensures
        r matches Some(p) ==> i <= p.1 < s@.len() && s@[p.1 as int] == '"' && (forall|k: int|
            i <= k < p.1 ==> s@[k] != '"' && s@[k] != '\\') && p.0@ == s@.subrange(
            i as int,
            p.1 as int,
        ),
        r is None ==> forall|q: int|
            i <= q < s@.len() && s@[q] == '"' ==> exists|k: int|
                i <= k < q && (s@[k] == '"' || s@[k] == '\\'),
{
    let sn = s.unicode_len();
    let mut j = i;
    while j < sn
        invariant
            i <= j <= sn,
            sn == s@.len(),
            forall|k: int| i <= k < j ==> s@[k] != '"' && s@[k] != '\\',
        decreases sn - j,
    {
        let c = s.get_char(j);
        if c == '"' {
            let v = String::from_str(s.substring_char(i, j));
            return Some((v, j));
        }
        if c == '\\' {
            proof {
                assert forall|q: int| i <= q < s@.len() && s@[q] == '"' implies exists|k: int|
                    i <= k < q && (s@[k] == '"' || s@[k] == '\\') by {
                    assert(s@[j as int] == '\\');
                    assert(q > j);
                    assert(i <= j < q && (s@[j as int] == '"' || s@[j as int] == '\\'));
                }
            }
            return None;
        }
        j += 1;
    }
    None
}

/// The digits of every canonical decimal text, as characters and values.
proof fn lemma_u8_dec_chars(v: u8)
    ensures
        forall|t: int| 0 <= t < u8_dec(v).len() ==> is_dec_digit(#[trigger] u8_dec(v)[t]),
        u8_dec(v).len() == 1 ==> v < 10 && u8_dec(v)[0] as u32 == 48 + v,
        u8_dec(v).len() == 2 ==> 10 <= v < 100 && u8_dec(v)[0] as u32 == 48 + v / 10 && u8_dec(
            v,
        )[1] as u32 == 48 + v % 10,
        u8_dec(v).len() == 3 ==> 100 <= v && u8_dec(v)[0] as u32 == 48 + v / 100 && u8_dec(
            v,
        )[1] as u32 == 48 + (v / 10) % 10 && u8_dec(v)[2] as u32 == 48 + v % 10,
{
    lemma_dec_digit_table();
}

/// The antecedent of the completeness clause of `parse_u8`: the canonical
/// decimal text of `v` stands at position `i` of `s` and ends the digit run.
spec fn dec_at(s: Seq<char>, i: int, v: u8, j: int) -> bool {
    &&& j == i + u8_dec(v).len()
    &&& j <= s.len()
    &&& s.subrange(i, j) == u8_dec(v)
    &&& (j == s.len() || !is_dec_digit(s[j]))
}

/// Reads a canonical decimal byte value at position `i`: one to three
/// digits, no leading zero, at most 255, not followed by another digit.
fn parse_u8(s: &str, i: usize) -> (r: Option<(u8, usize)>)
    requires
        i <= s@.len(),
    ensures
        r matches Some(p) ==> i < p.1 <= s@.len() && s@.subrange(i as int, p.1 as int) == u8_dec(
            p.0,
        ) && (p.1 < s@.len() ==> !is_dec_digit(s@[p.1 as int])),
        forall|v: u8, j: int|
            dec_at(s@, i as int, v, j) ==> (r matches Some(p) && p.0 == v && p.1 == j),
{
    proof {
        lemma_dec_digit_table();
        assert forall|v: u8, j: int| dec_at(s@, i as int, v, j) implies {
            let m = u8_dec(v).len();
            &&& is_dec_digit(s@[i as int])
            &&& (forall|t: int| 0 <= t < m ==> s@[i + t] == u8_dec(v)[t])
        } by {
            lemma_u8_dec_chars(v);
            assert forall|t: int| 0 <= t < u8_dec(v).len() implies s@[i + t] == u8_dec(v)[t] by {
                assert(s@.subrange(i as int, i + u8_dec(v).len())[t] == s@[i + t]);
            }
            assert(s@[i as int] == u8_dec(v)[0]);
        }
    }
    let sn = s.unicode_len();
    if i >= sn {
        return None;
    }
    let c0 = s.get_char(i) as u32;
    if c0 < 48 || c0 > 57 {
        return None;
    }
    let d0 = (c0 - 48) as u8;
    let more1 = i + 1 < sn && is_digit_at(s, i + 1);
    if more1 && d0 == 0 {
        proof {
            assert forall|v: u8, j: int| dec_at(s@, i as int, v, j) implies false by {
                lemma_u8_dec_chars(v);
            }
        }
        return None;
    }
    if !more1 {
        proof {
            assert(s@.subrange(i as int, i + 1) =~= u8_dec(d0));
            assert forall|v: u8, j: int| dec_at(s@, i as int, v, j) implies v == d0 && j == i + 1 by {
                lemma_u8_dec_chars(v);
            }
        }
        return Some((d0, i + 1));
    }
    let d1 = (s.get_char(i + 1) as u32 - 48) as u8;
    let more2 = i + 2 < sn && is_digit_at(s, i + 2);
    let v2 = d0 * 10 + d1;
    if !more2 {
        proof {
            assert(v2 / 10 == d0 && v2 % 10 == d1);
            assert(s@.subrange(i as int, i + 2) =~= u8_dec(v2));
            assert forall|v: u8, j: int| dec_at(s@, i as int, v, j) implies v == v2 && j == i + 2 by {
                lemma_u8_dec_chars(v);
            }
        }
        return Some((v2, i + 2));
    }
    let d2 = (s.get_char(i + 2) as u32 - 48) as u8;
    let longer = i + 3 < sn && is_digit_at(s, i + 3);
    let big: u32 = (d0 as u32) * 100 + (d1 as u32) * 10 + (d2 as u32);
    if longer || big > 255 {
        proof {
            assert forall|v: u8, j: int| dec_at(s@, i as int, v, j) implies false by {
                lemma_u8_dec_chars(v);
                if u8_dec(v).len() == 3 {
                    assert(v == 100 * (v / 100) + 10 * ((v / 10) % 10) + v % 10);
                }
            }
        }
        return None;
    }
    let v3 = big as u8;
    proof {
        assert(v3 / 100 == d0 && (v3 / 10) % 10 == d1 && v3 % 10 == d2);
        assert(s@.subrange(i as int, i + 3) =~= u8_dec(v3));
        assert forall|v: u8, j: int| dec_at(s@, i as int, v, j) implies v == v3 && j == i + 3 by {
            lemma_u8_dec_chars(v);
            if u8_dec(v).len() == 3 {
                assert(v == 100 * (v / 100) + 10 * ((v / 10) % 10) + v % 10);
            }
        }
    }
    Some((v3, i + 3))
}

/// Whether the character at position `i` of `s` is a decimal digit.
fn is_digit_at(s: &str, i: usize) -> (r: bool)
    requires
        i < s@.len(),
    ensures
        r == is_dec_digit(s@[i as int]),
{
    let c = s.get_char(i) as u32;
    48 <= c && c <= 57
}

/// Position just past the version digits in the canonical text of `c`.
spec fn p_ver_end(c: ContainerSpec) -> int {
    11 + u8_dec(c.version).len() as int
}

/// Position of the salt value in the canonical text of `c`.
spec fn p_salt(c: ContainerSpec) -> int {
    p_ver_end(c) + 9
}

/// Position just past the salt value.
spec fn p_salt_end(c: ContainerSpec) -> int {
    p_salt(c) + c.salt.len()
}

/// Position of the nonce value.
spec fn p_nonce(c: ContainerSpec) -> int {
    p_salt_end(c) + 11
}

/// Position just past the nonce value.
spec fn p_nonce_end(c: ContainerSpec) -> int {
    p_nonce(c) + c.nonce.len()
}

/// Position of the ciphertext value.
spec fn p_ct(c: ContainerSpec) -> int {
    p_nonce_end(c) + 16
}

/// Position just past the ciphertext value.
spec fn p_ct_end(c: ContainerSpec) -> int {
    p_ct(c) + c.ciphertext.len()
}

/// A value field is clean: no quote and no backslash inside it.
spec fn clean_range(s: Seq<char>, a: int, b: int) -> bool {
    forall|k: int| a <= k < b ==> s[k] != '"' && s[k] != '\\'
}

/// Where each piece of the canonical text of a well-formed container
/// stands: the literal frame, the digit run, and the three or four quoted
/// values, each ended by the double quote that opens the following literal.
proof fn lemma_canon_parse(s: Seq<char>, c: ContainerSpec)
    requires
        wf_container(c),
        s == canon_json(c),
    ensures
        s.len() == (match c.public_key {
            Some(p) => p_ct_end(c) + 16 + p.len() + 2,
            None => p_ct_end(c) + 2,
        }),
        s.subrange(0, 11) == "{\"version\":"@,
        dec_at(s, 11, c.version, p_ver_end(c)),
        s.subrange(p_ver_end(c), p_salt(c)) == ",\"salt\":\""@,
        s.subrange(p_salt(c), p_salt_end(c)) == c.salt,
        s[p_salt_end(c)] == '"',
        clean_range(s, p_salt(c), p_salt_end(c)),
        s.subrange(p_salt_end(c), p_nonce(c)) == "\",\"nonce\":\""@,
        s.subrange(p_nonce(c), p_nonce_end(c)) == c.nonce,
        s[p_nonce_end(c)] == '"',
        clean_range(s, p_nonce(c), p_nonce_end(c)),
        s.subrange(p_nonce_end(c), p_ct(c)) == "\",\"ciphertext\":\""@,
        s.subrange(p_ct(c), p_ct_end(c)) == c.ciphertext,
        s[p_ct_end(c)] == '"',
        clean_range(s, p_ct(c), p_ct_end(c)),
        c.public_key matches Some(p) ==> s.subrange(p_ct_end(c), p_ct_end(c) + 16)
            == "\",\"public_key\":\""@ && s.subrange(
            p_ct_end(c) + 16,
            p_ct_end(c) + 16 + p.len(),
        ) == p && clean_range(s, p_ct_end(c) + 16, p_ct_end(c) + 16 + p.len()) && s[p_ct_end(c) + 16
            + p.len()] == '"' && s.subrange(p_ct_end(c) + 16 + p.len(), s.len() as int) == "\"}"@,
        c.public_key is None ==> s.subrange(p_ct_end(c), s.len() as int) == "\"}"@,
{
    reveal_strlit("{\"version\":");
    reveal_strlit(",\"salt\":\"");
    reveal_strlit("\",\"nonce\":\"");
    reveal_strlit("\",\"ciphertext\":\"");
    reveal_strlit("\",\"public_key\":\"");
    reveal_strlit("\"}");
    reveal_strlit("0123456789");
    lemma_u8_dec_chars(c.version);
    assert(s.subrange(0, 11) =~= "{\"version\":"@);
    assert(s.subrange(11, p_ver_end(c)) =~= u8_dec(c.version));
    assert(s.subrange(p_ver_end(c), p_salt(c)) =~= ",\"salt\":\""@);
    assert(s[p_ver_end(c)] == ",\"salt\":\""@[0]);
    assert(!is_dec_digit(s[p_ver_end(c)]));
    assert(s.subrange(p_salt(c), p_salt_end(c)) =~= c.salt);
    assert(s.subrange(p_salt_end(c), p_nonce(c)) =~= "\",\"nonce\":\""@);
    assert(s[p_salt_end(c)] == '"');
    assert(s.subrange(p_nonce(c), p_nonce_end(c)) =~= c.nonce);
    assert(s.subrange(p_nonce_end(c), p_ct(c)) =~= "\",\"ciphertext\":\""@);
    assert(s[p_nonce_end(c)] == '"');
    assert(s.subrange(p_ct(c), p_ct_end(c)) =~= c.ciphertext);
    match c.public_key {
        Some(p) => {
            assert(s.subrange(p_ct_end(c), p_ct_end(c) + 16) =~= "\",\"public_key\":\""@);
            assert(s[p_ct_end(c)] == '"');
            assert(s.subrange(p_ct_end(c) + 16, p_ct_end(c) + 16 + p.len()) =~= p);
            assert(s.subrange(p_ct_end(c) + 16 + p.len(), s.len() as int) =~= "\"}"@);
            assert(s[p_ct_end(c) + 16 + p.len()] == '"');
        },
        None => {
            assert(s.subrange(p_ct_end(c), s.len() as int) =~= "\"}"@);
            assert(s[p_ct_end(c)] == '"');
        },
    }
}

/// Two adjacent known pieces of a text make one known prefix.
proof fn lemma_split_prefix(s: Seq<char>, m: int, n: int, x: Seq<char>, y: Seq<char>)
    requires
        0 <= m <= n <= s.len(),
        s.subrange(0, m) == x,
        s.subrange(m, n) == y,
    ensures
        s.subrange(0, n) == x + y,
{
    assert(s.subrange(0, n) =~= x + y);
}

/// Reads the first part of the canonical text: the version number and the
/// salt, nonce and ciphertext values. On success, hands back those four
/// together with the position of the double quote that closes the
/// ciphertext value.
#[verifier::rlimit(100)]
#[verifier::spinoff_prover]
fn parse_head(s: &str) -> (r: Option<(u8, String, String, String, usize)>)
    ensures
        r matches Some(t) ==> t.4 <= s@.len() && s@.subrange(0, t.4 as int) == head_text(
            t.0,
            t.1@,
            t.2@,
            t.3@,
        ) && quote_free(t.1@) && quote_free(t.2@) && quote_free(t.3@),
        forall|c: ContainerSpec|
            wf_container(c) && s@ == canon_json(c) ==> (r matches Some(t) && t.0 == c.version
                && t.1@ == c.salt && t.2@ == c.nonce && t.3@ == c.ciphertext && t.4 == p_ct_end(
                c,
            )),
{
    proof {
        reveal_strlit("{\"version\":");
        reveal_strlit(",\"salt\":\"");
        reveal_strlit("\",\"nonce\":\"");
        reveal_strlit("\",\"ciphertext\":\"");
    }
    let i0 = match match_lit(s, 0, "{\"version\":") {
        Some(j) => j,
        None => {
            proof {
                assert forall|c: ContainerSpec|
                    wf_container(c) && s@ == canon_json(c) implies false by {
                    lemma_canon_parse(s@, c);
                }
            }
            return None;
        },
    };
    let (ver, i1) = match parse_u8(s, i0) {
        Some(p) => p,
        None => {
            proof {
                assert forall|c: ContainerSpec|
                    wf_container(c) && s@ == canon_json(c) implies false by {
                    lemma_canon_parse(s@, c);
                }
            }
            return None;
        },
    };
    proof {
        assert forall|c: ContainerSpec|
            wf_container(c) && s@ == canon_json(c) implies ver == c.version && i1 == p_ver_end(
            c,
        ) by {
            lemma_canon_parse(s@, c);
        }
    }
    let i2 = match match_lit(s, i1, ",\"salt\":\"") {
        Some(j) => j,
        None => {
            proof {
                assert forall|c: ContainerSpec|
                    wf_container(c) && s@ == canon_json(c) implies false by {
                    lemma_canon_parse(s@, c);
                }
            }
            return None;
        },
    };
    let (salt_v, i3) = match scan_field(s, i2) {
        Some(p) => p,
        None => {
            proof {
                assert forall|c: ContainerSpec|
                    wf_container(c) && s@ == canon_json(c) implies false by {
                    lemma_canon_parse(s@, c);
                    let q = p_salt_end(c);
                    assert(i2 == p_salt(c) && i2 <= q < s@.len() && s@[q] == '"');
                    let k = choose|k: int| i2 <= k < q && (s@[k] == '"' || s@[k] == '\\');
                    assert(s@[k] != '"' && s@[k] != '\\');
                }
            }
            return None;
        },
    };
    proof {
        assert forall|c: ContainerSpec|
            wf_container(c) && s@ == canon_json(c) implies i3 == p_salt_end(c) && salt_v@
            == c.salt by {
            lemma_canon_parse(s@, c);
            if i3 < p_salt_end(c) {
                assert(s@[i3 as int] != '"');
            } else if i3 > p_salt_end(c) {
                assert(s@[p_salt_end(c)] != '"');
            }
        }
    }
    let i4 = match match_lit(s, i3, "\",\"nonce\":\"") {
        Some(j) => j,
        None => {
            proof {
                assert forall|c: ContainerSpec|
                    wf_container(c) && s@ == canon_json(c) implies false by {
                    lemma_canon_parse(s@, c);
                }
            }
            return None;
        },
    };
    let (nonce_v, i5) = match scan_field(s, i4) {
        Some(p) => p,
        None => {
            proof {
                assert forall|c: ContainerSpec|
                    wf_container(c) && s@ == canon_json(c) implies false by {
                    lemma_canon_parse(s@, c);
                    let q = p_nonce_end(c);
                    assert(i4 == p_nonce(c) && i4 <= q < s@.len() && s@[q] == '"');
                    let k = choose|k: int| i4 <= k < q && (s@[k] == '"' || s@[k] == '\\');
                    assert(s@[k] != '"' && s@[k] != '\\');
                }
            }
            return None;
        },
    };
    proof {
        assert forall|c: ContainerSpec|
            wf_container(c) && s@ == canon_json(c) implies i5 == p_nonce_end(c) && nonce_v@
            == c.nonce by {
            lemma_canon_parse(s@, c);
            if i5 < p_nonce_end(c) {
                assert(s@[i5 as int] != '"');
            } else if i5 > p_nonce_end(c) {
                assert(s@[p_nonce_end(c)] != '"');
            }
        }
    }
    let i6 = match match_lit(s, i5, "\",\"ciphertext\":\"") {
        Some(j) => j,
        None => {
            proof {
                assert forall|c: ContainerSpec|
                    wf_container(c) && s@ == canon_json(c) implies false by {
                    lemma_canon_parse(s@, c);
                }
            }
            return None;
        },
    };
    let (ct_v, i7) = match scan_field(s, i6) {
        Some(p) => p,
        None => {
            proof {
                assert forall|c: ContainerSpec|
                    wf_container(c) && s@ == canon_json(c) implies false by {
                    lemma_canon_parse(s@, c);
                    let q = p_ct_end(c);
                    assert(i6 == p_ct(c) && i6 <= q < s@.len() && s@[q] == '"');
                    let k = choose|k: int| i6 <= k < q && (s@[k] == '"' || s@[k] == '\\');
                    assert(s@[k] != '"' && s@[k] != '\\');
                }
            }
            return None;
        },
    };
    proof {
        assert forall|c: ContainerSpec|
            wf_container(c) && s@ == canon_json(c) implies i7 == p_ct_end(c) && ct_v@
            == c.ciphertext by {
            lemma_canon_parse(s@, c);
            if i7 < p_ct_end(c) {
                assert(s@[i7 as int] != '"');
            } else if i7 > p_ct_end(c) {
                assert(s@[p_ct_end(c)] != '"');
            }
        }
        lemma_split_prefix(s@, 11, i1 as int, "{\"version\":"@, u8_dec(ver));
        lemma_split_prefix(
            s@,
            i1 as int,
            i2 as int,
            "{\"version\":"@ + u8_dec(ver),
            ",\"salt\":\""@,
        );
        lemma_split_prefix(
            s@,
            i2 as int,
            i3 as int,
            "{\"version\":"@ + u8_dec(ver) + ",\"salt\":\""@,
            salt_v@,
        );
        lemma_split_prefix(
            s@,
            i3 as int,
            i4 as int,
            "{\"version\":"@ + u8_dec(ver) + ",\"salt\":\""@ + salt_v@,
            "\",\"nonce\":\""@,
        );
        lemma_split_prefix(
            s@,
            i4 as int,
            i5 as int,
            "{\"version\":"@ + u8_dec(ver) + ",\"salt\":\""@ + salt_v@ + "\",\"nonce\":\""@,
            nonce_v@,
        );
        lemma_split_prefix(
            s@,
            i5 as int,
            i6 as int,
            "{\"version\":"@ + u8_dec(ver) + ",\"salt\":\""@ + salt_v@ + "\",\"nonce\":\""@
                + nonce_v@,
            "\",\"ciphertext\":\""@,
        );
        lemma_split_prefix(
            s@,
            i6 as int,
            i7 as int,
            "{\"version\":"@ + u8_dec(ver) + ",\"salt\":\""@ + salt_v@ + "\",\"nonce\":\""@
                + nonce_v@ + "\",\"ciphertext\":\""@,
            ct_v@,
        );
        assert(s@.subrange(0, i7 as int) == head_text(ver, salt_v@, nonce_v@, ct_v@));
    }
    Some((ver, salt_v, nonce_v, ct_v, i7))
}

/// Reads a container back from its canonical serialized text. Accepts
/// exactly the texts that `emit_container` writes: any other input is
/// rejected.
#[verifier::rlimit(100)]
#[verifier::spinoff_prover]
pub(crate) fn parse_container(s: &str) -> (r: Option<EncryptedKeyContainer>)
    ensures
        r matches Some(c) ==> s@ == canon_json(c@) && wf_container(c@),
        forall|c: ContainerSpec|
            wf_container(c) && s@ == canon_json(c) ==> (r matches Some(k) && k@ == c),
{
    proof {
        reveal_strlit("\",\"public_key\":\"");
        reveal_strlit("\"}");
    }
    let sn = s.unicode_len();
    let (ver, salt_v, nonce_v, ct_v, i7) = match parse_head(s) {
        Some(t) => t,
        None => {
            return None;
        },
    };
    match match_lit(s, i7, "\",\"public_key\":\"") {
        Some(i8) => {
            let (pk_v, i9) = match scan_field(s, i8) {
                Some(p) => p,
                None => {
                    proof {
                        assert forall|c: ContainerSpec|
                            wf_container(c) && s@ == canon_json(c) implies false by {
                            lemma_canon_parse(s@, c);
                            if c.public_key is Some {
                                let p = c.public_key->0;
                                let q = p_ct_end(c) + 16 + p.len() as int;
                                assert(i8 == p_ct_end(c) + 16 && i8 <= q < s@.len() && s@[q]
                                    == '"');
                                let k = choose|k: int|
                                    i8 <= k < q && (s@[k] == '"' || s@[k] == '\\');
                                assert(s@[k] != '"' && s@[k] != '\\');
                            } else {
                                assert(s@.len() == p_ct_end(c) + 2);
                            }
                        }
                    }
                    return None;
                },
            };
            proof {
                assert forall|c: ContainerSpec|
                    wf_container(c) && s@ == canon_json(c) implies (c.public_key matches Some(p)
                    && pk_v@ == p && i9 == p_ct_end(c) + 16 + p.len()) by {
                    lemma_canon_parse(s@, c);
                    if c.public_key is Some {
                        let p = c.public_key->0;
                        if i9 < p_ct_end(c) + 16 + p.len() as int {
                            assert(s@[i9 as int] != '"');
                        } else if i9 > p_ct_end(c) + 16 + p.len() as int {
                            assert(s@[p_ct_end(c) + 16 + p.len() as int] != '"');
                        }
                    } else {
                        assert(s@.len() == p_ct_end(c) + 2);
                    }
                }
            }
            let i10 = match match_lit(s, i9, "\"}") {
                Some(j) => j,
                None => {
                    proof {
                        assert forall|c: ContainerSpec|
                            wf_container(c) && s@ == canon_json(c) implies false by {
                            lemma_canon_parse(s@, c);
                        }
                    }
                    return None;
                },
            };
            if i10 != sn {
                proof {
                    assert forall|c: ContainerSpec|
                        wf_container(c) && s@ == canon_json(c) implies false by {
                        lemma_canon_parse(s@, c);
                    }
                }
                return None;
            }
            let k = EncryptedKeyContainer {
                version: ver,
                salt: salt_v,
                nonce: nonce_v,
                ciphertext: ct_v,
                public_key: Some(pk_v),
            };
            proof {
                assert(s@.subrange(i7 as int, i10 as int) =~= "\",\"public_key\":\""@ + pk_v@
                    + "\"}"@);
                lemma_split_prefix(
                    s@,
                    i7 as int,
                    i10 as int,
                    head_text(ver, salt_v@, nonce_v@, ct_v@),
                    "\",\"public_key\":\""@ + pk_v@ + "\"}"@,
                );
                assert(s@ =~= s@.subrange(0, sn as int));
                assert(s@ == canon_json(k@));
                assert forall|c: ContainerSpec|
                    wf_container(c) && s@ == canon_json(c) implies k@ == c by {
                    assert(k@ =~= c);
                }
            }
            Some(k)
        },
        None => {
            let i8 = match match_lit(s, i7, "\"}") {
                Some(j) => j,
                None => {
                    proof {
                        assert forall|c: ContainerSpec|
                            wf_container(c) && s@ == canon_json(c) implies false by {
                            lemma_canon_parse(s@, c);
                        }
                    }
                    return None;
                },
            };
            if i8 != sn {
                proof {
                    assert forall|c: ContainerSpec|
                        wf_container(c) && s@ == canon_json(c) implies false by {
                        lemma_canon_parse(s@, c);
                        if c.public_key is Some {
                            assert(s@.subrange(p_ct_end(c), p_ct_end(c) + 16)
                                == "\",\"public_key\":\""@);
                        } else {
                            assert(s@.len() == p_ct_end(c) + 2);
                        }
                    }
                }
                return None;
            }
            let k = EncryptedKeyContainer {
                version: ver,
                salt: salt_v,
                nonce: nonce_v,
                ciphertext: ct_v,
                public_key: None,
            };
            proof {
                lemma_split_prefix(
                    s@,
                    i7 as int,
                    i8 as int,
                    head_text(ver, salt_v@, nonce_v@, ct_v@),
                    "\"}"@,
                );
                assert(s@ =~= s@.subrange(0, sn as int));
                assert(s@ == canon_json(k@));
                assert forall|c: ContainerSpec|
                    wf_container(c) && s@ == canon_json(c) implies k@ == c by {
                    lemma_canon_parse(s@, c);
                    if c.public_key is Some {
                        assert(s@.subrange(p_ct_end(c), p_ct_end(c) + 16)
                            == "\",\"public_key\":\""@);
                    }
                    assert(k@ =~= c);
                }
            }
            Some(k)
        },
    }
}

/// Whether a text is free of double quotes and backslashes, so it can
/// stand unescaped inside a quoted field of the record.
pub(crate) fn text_quote_free(s: &str) -> (r: bool)
    ensures
        r == quote_free(s@),
{
    let sn = s.unicode_len();
    let mut j: usize = 0;
    while j < sn
        invariant
            j <= sn,
            sn == s@.len(),
            forall|k: int| 0 <= k < j ==> s@[k] != '"' && s@[k] != '\\',
        decreases sn - j,
    {
        let c = s.get_char(j);
        if c == '"' || c == '\\' {
            return false;
        }
        j += 1;
    }
    true
}

/// Writes the canonical serialized text of a container.
pub(crate) fn emit_container(c: &EncryptedKeyContainer) -> (r: String)
    ensures
        r@ == canon_json(c@),
{
    let mut s = String::from_str("{\"version\":");
    let ver = u8_to_decimal(c.version);
    s.append(ver.as_str());
    s.append(",\"salt\":\"");
    s.append(c.salt.as_str());
    s.append("\",\"nonce\":\"");
    s.append(c.nonce.as_str());
    s.append("\",\"ciphertext\":\"");
    s.append(c.ciphertext.as_str());
    match &c.public_key {
        Some(p) => {
            s.append("\",\"public_key\":\"");
            s.append(p.as_str());
            s.append("\"}");
        },
        None => {
            s.append("\"}");
        },
    }
    proof {
        assert(s@ =~= canon_json(c@));
    }
    s
}

} // verus!
