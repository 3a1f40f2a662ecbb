//! Building the query part of request paths.
//!
//! Each helper adds one `name=value` pair to `query` when there is a value,
//! preceded by `separator`; once a pair has been added the separator becomes
//! `&`, so a path that starts with `?` as separator grows `?a=1&b=2`.
use vstd::prelude::*;
use vstd::string::*;
use crate::tags::{join_with, split_on, lemma_join_split};

verus! {

/// Whether a byte is an ASCII letter or digit.
pub open spec fn is_ascii_alphanumeric_byte(b: u8) -> bool {
    (0x30 <= b <= 0x39) || (0x41 <= b <= 0x5a) || (0x61 <= b <= 0x7a)
}

/// The upper-case hexadecimal digit of a value below 16.
pub open spec fn hex_digit(n: u8) -> char
    recommends
        n < 16,
{
    if n < 10 {
        (0x30 + n) as char
    } else {
        (0x41 + n - 10) as char
    }
}

/// How one byte is written: ASCII letters and digits stay as they are, every
/// other byte becomes `%` followed by two upper-case hexadecimal digits.
pub open spec fn percent_encode_byte(b: u8) -> Seq<char> {
    if is_ascii_alphanumeric_byte(b) {
        seq![b as char]
    } else {
        seq!['%', hex_digit(b / 16), hex_digit(b % 16)]
    }
}

/// The percent-encoding of a byte sequence, byte by byte.
pub open spec fn percent_encode(bytes: Seq<u8>) -> Seq<char>
    decreases bytes.len(),
{
    if bytes.len() == 0 {
        Seq::empty()
    } else {
        percent_encode(bytes.drop_last()) + percent_encode_byte(bytes.last())
    }
}

/// Whether a character is an ASCII letter or digit, or `%`.
pub open spec fn is_query_safe_char(c: char) -> bool {
    ('0' <= c <= '9') || ('A' <= c <= 'Z') || ('a' <= c <= 'z') || c == '%'
}

/// An encoded value holds only ASCII letters, digits and `%`, so it cannot
/// end a parameter (`&`), start a value (`=`) or a fragment (`#`).
pub proof fn lemma_percent_encode_query_safe(bytes: Seq<u8>)
    ensures
        forall|i: int| 0 <= i < percent_encode(bytes).len() ==> is_query_safe_char(
            #[trigger] percent_encode(bytes)[i],
        ),
    decreases bytes.len(),
{
    if bytes.len() > 0 {
        lemma_percent_encode_query_safe(bytes.drop_last());
        let b = bytes.last();
        let init = percent_encode(bytes.drop_last());
        let last = percent_encode_byte(b);
        assert forall|i: int| 0 <= i < last.len() implies is_query_safe_char(#[trigger] last[i]) by {
            if !is_ascii_alphanumeric_byte(b) {
                assert(b / 16 < 16 && b % 16 < 16);
            }
        }
        assert forall|i: int| 0 <= i < percent_encode(bytes).len() implies is_query_safe_char(
            #[trigger] percent_encode(bytes)[i],
        ) by {
            if i < init.len() {
                assert(percent_encode(bytes)[i] == init[i]);
            } else {
                assert(percent_encode(bytes)[i] == last[i - init.len()]);
            }
        }
    }
}

/// Text made only of ASCII letters and digits is written unchanged.
pub proof fn lemma_percent_encode_alphanumeric(bytes: Seq<u8>)
    requires
        forall|i: int| 0 <= i < bytes.len() ==> is_ascii_alphanumeric_byte(#[trigger] bytes[i]),
    ensures
        percent_encode(bytes) == bytes.map_values(|b: u8| b as char),
    decreases bytes.len(),
{
    if bytes.len() > 0 {
        let init = bytes.drop_last();
        lemma_percent_encode_alphanumeric(init);
        assert(is_ascii_alphanumeric_byte(bytes[bytes.len() - 1]));
        assert(bytes.map_values(|b: u8| b as char) =~= init.map_values(|b: u8| b as char) + seq![
            bytes.last() as char,
        ]);
    } else {
        assert(bytes.map_values(|b: u8| b as char) =~= Seq::<char>::empty());
    }
}

/// The value of a hexadecimal digit, in either case.
pub open spec fn hex_value(c: char) -> u8 {
    if '0' <= c <= '9' {
        ((c as u8) - 48) as u8
    } else if 'A' <= c <= 'F' {
        ((c as u8) - 55) as u8
    } else if 'a' <= c <= 'f' {
        ((c as u8) - 87) as u8
    } else {
        0
    }
}

/// Percent-decoding: `%` and two hexadecimal digits stand for one byte, any
/// other character for its own code.
pub open spec fn percent_decode(s: Seq<char>) -> Seq<u8>
    decreases s.len(),
{
    if s.len() == 0 {
        Seq::empty()
    } else if s[0] == '%' && s.len() >= 3 {
        seq![(hex_value(s[1]) * 16 + hex_value(s[2])) as u8] + percent_decode(s.skip(3))
    } else {
        seq![s[0] as u8] + percent_decode(s.skip(1))
    }
}

proof fn lemma_decode_encoded_byte(x: u8, t: Seq<char>)
    ensures
        percent_decode(percent_encode_byte(x) + t) == seq![x] + percent_decode(t),
{
    let s = percent_encode_byte(x) + t;
    if is_ascii_alphanumeric_byte(x) {
        assert(s[0] == x as char);
        assert(s.skip(1) =~= t);
        assert((x as char) as u8 == x);
    } else {
        let hi = x / 16;
        let lo = x % 16;
        assert(s[0] == '%' && s[1] == hex_digit(hi) && s[2] == hex_digit(lo));
        assert(s.skip(3) =~= t);
        assert(hex_value(hex_digit(hi)) == hi);
        assert(hex_value(hex_digit(lo)) == lo);
        assert(hi * 16 + lo == x) by (nonlinear_arith)
            requires
                hi == x / 16,
                lo == x % 16,
        ;
    }
}

proof fn lemma_encode_front(x: u8, rest: Seq<u8>)
    ensures
        percent_encode(seq![x] + rest) == percent_encode_byte(x) + percent_encode(rest),
    decreases rest.len(),
{
    let all = seq![x] + rest;
    if rest.len() == 0 {
        assert(all =~= seq![x]);
        assert(all.drop_last() =~= Seq::<u8>::empty());
        assert(all.last() == x);
        assert(percent_encode(all.drop_last()) == Seq::<char>::empty());
        assert(percent_encode(rest) == Seq::<char>::empty());
        assert(percent_encode(all) =~= percent_encode_byte(x));
        assert(percent_encode_byte(x) + percent_encode(rest) =~= percent_encode_byte(x));
    } else {
        lemma_encode_front(x, rest.drop_last());
        assert(all.drop_last() =~= seq![x] + rest.drop_last());
        assert(all.last() == rest.last());
        assert(percent_encode(all) =~= percent_encode_byte(x) + percent_encode(rest));
    }
}

/// Decoding an encoding followed by more text gives back the bytes, then the
/// decoding of the rest.
pub proof fn lemma_percent_decode_encode(bytes: Seq<u8>, t: Seq<char>)
    ensures
        percent_decode(percent_encode(bytes) + t) == bytes + percent_decode(t),
    decreases bytes.len(),
{
    if bytes.len() == 0 {
        assert(percent_encode(bytes) + t =~= t);
        assert(bytes + percent_decode(t) =~= percent_decode(t));
    } else {
        let x = bytes[0];
        let rest = bytes.skip(1);
        assert(bytes =~= seq![x] + rest);
        lemma_encode_front(x, rest);
        lemma_percent_decode_encode(rest, t);
        assert(percent_encode(bytes) + t =~= percent_encode_byte(x) + (percent_encode(rest) + t));
        lemma_decode_encoded_byte(x, percent_encode(rest) + t);
        assert(bytes + percent_decode(t) =~= seq![x] + (rest + percent_decode(t)));
    }
}

/// The UTF-8 bytes of each entry.
pub open spec fn utf8_entries(entries: Seq<Seq<char>>) -> Seq<Seq<u8>> {
    entries.map_values(|e: Seq<char>| vstd::utf8::encode_utf8(e))
}

/// The UTF-8 bytes of the entries, with a NUL byte between neighbours.
pub open spec fn nul_joined_bytes(entries: Seq<Seq<char>>) -> Seq<u8> {
    join_with(utf8_entries(entries), 0u8)
}

proof fn lemma_decode_list(entries: Seq<Seq<char>>, t: Seq<char>)
    ensures
        percent_decode(encoded_list(entries) + t) == nul_joined_bytes(entries) + percent_decode(t),
    decreases entries.len(),
{
    if entries.len() == 0 {
        assert(encoded_list(entries) + t =~= t);
        assert(nul_joined_bytes(entries) + percent_decode(t) =~= percent_decode(t));
    } else if entries.len() == 1 {
        lemma_percent_decode_encode(vstd::utf8::encode_utf8(entries[0]), t);
    } else {
        let init = entries.drop_last();
        let last = vstd::utf8::encode_utf8(entries.last());
        let u = seq!['%', '0', '0'] + percent_encode(last) + t;
        lemma_decode_list(init, u);
        assert(encoded_list(entries) + t =~= encoded_list(init) + u);
        lemma_percent_decode_encode(last, t);
        assert(u[0] == '%' && u[1] == '0' && u[2] == '0');
        assert(u.skip(3) =~= percent_encode(last) + t);
        assert(hex_value('0') == 0);
        assert(percent_decode(u) == seq![0u8] + (last + percent_decode(t)));
        assert(utf8_entries(entries).drop_last() =~= utf8_entries(init));
        assert(utf8_entries(entries).last() == last);
        assert(nul_joined_bytes(entries) + percent_decode(t) =~= nul_joined_bytes(init) + (seq![
            0u8,
        ] + (last + percent_decode(t))));
    }
}

/// Percent-decoding the value that [`add_query_arg_string_list`] writes gives
/// the UTF-8 bytes of the entries with a NUL byte between neighbours, which is
/// what perl's `split_list()` splits.
pub proof fn lemma_string_list_decodes(entries: Seq<Seq<char>>)
    ensures
        percent_decode(encoded_list(entries)) == nul_joined_bytes(entries),
{
    lemma_decode_list(entries, Seq::empty());
    assert(encoded_list(entries) + Seq::<char>::empty() =~= encoded_list(entries));
    assert(nul_joined_bytes(entries) + Seq::<u8>::empty() =~= nul_joined_bytes(entries));
}

/// Only the NUL character is written as a NUL byte in UTF-8: every other
/// character's bytes are all non-zero.
proof fn lemma_encode_scalar_nonzero(c: char)
    requires
        c != '\0',
    ensures
        !vstd::utf8::encode_scalar(c as u32).contains(0u8),
{
    let v = c as u32;
    vstd::utf8::char_is_scalar(c);
    assert(v != 0);
    let bytes = vstd::utf8::encode_scalar(v);
    assert(vstd::utf8::has_width_1_encoding(v) ==> (v & 0x7F) as u8 != 0) by (bit_vector)
        requires
            v != 0,
    ;
    assert((0xC0u8 | ((v >> 6) & 0x1F) as u8) != 0) by (bit_vector);
    assert((0xE0u8 | ((v >> 12) & 0x0F) as u8) != 0) by (bit_vector);
    assert((0xF0u8 | ((v >> 18) & 0x7) as u8) != 0) by (bit_vector);
    assert((0x80u8 | (v & 0x3F) as u8) != 0) by (bit_vector);
    assert((0x80u8 | ((v >> 6) & 0x3F) as u8) != 0) by (bit_vector);
    assert((0x80u8 | ((v >> 12) & 0x3F) as u8) != 0) by (bit_vector);
    assert forall|k: int| 0 <= k < bytes.len() implies bytes[k] != 0u8 by {}
}

/// Text without the NUL character has no NUL byte in its UTF-8 encoding.
proof fn lemma_encode_utf8_no_nul(chars: Seq<char>)
    requires
        !chars.contains('\0'),
    ensures
        !vstd::utf8::encode_utf8(chars).contains(0u8),
    decreases chars.len(),
{
    if chars.len() > 0 {
        let rest = chars.drop_first();
        assert(!rest.contains('\0')) by {
            if rest.contains('\0') {
                let k = choose|k: int| 0 <= k < rest.len() && rest[k] == '\0';
                assert(chars[k + 1] == '\0');
            }
        }
        assert(chars[0] != '\0');
        lemma_encode_scalar_nonzero(chars[0]);
        lemma_encode_utf8_no_nul(rest);
        let first = vstd::utf8::encode_scalar(chars[0] as u32);
        let tail = vstd::utf8::encode_utf8(rest);
        let all = vstd::utf8::encode_utf8(chars);
        assert(all == first + tail);
        assert forall|k: int| 0 <= k < all.len() implies all[k] != 0u8 by {
            if k < first.len() {
                assert(all[k] == first[k]);
            } else {
                assert(all[k] == tail[k - first.len()]);
            }
        }
    }
}

/// A list written by [`add_query_arg_string_list`] comes back whole: the
/// value, percent-decoded and split at its NUL bytes, gives the pieces whose
/// UTF-8 decoding is the entries, in order. This holds for every list of at
/// least one entry where no entry holds the NUL character; an empty list is
/// written as the empty value, as a list of one empty entry is.
pub proof fn lemma_string_list_round_trip(entries: Seq<Seq<char>>)
    requires
        entries.len() >= 1,
        forall|i: int| 0 <= i < entries.len() ==> !(#[trigger] entries[i]).contains('\0'),
    ensures
        split_on(percent_decode(encoded_list(entries)), 0u8) == utf8_entries(entries),
        split_on(percent_decode(encoded_list(entries)), 0u8).map_values(
            |b: Seq<u8>| vstd::utf8::decode_utf8(b),
        ) == entries,
{
    lemma_string_list_decodes(entries);
    let pieces = utf8_entries(entries);
    assert forall|i: int| 0 <= i < pieces.len() implies !(#[trigger] pieces[i]).contains(0u8) by {
        lemma_encode_utf8_no_nul(entries[i]);
    }
    lemma_join_split(pieces, 0u8);
    assert forall|i: int| 0 <= i < entries.len() implies vstd::utf8::decode_utf8(
        #[trigger] pieces[i],
    ) == entries[i] by {
        vstd::utf8::encode_utf8_decode_utf8(entries[i]);
    }
    assert(pieces.map_values(|b: Seq<u8>| vstd::utf8::decode_utf8(b)) =~= entries);
}

/// `percent_encoding::percent_encode` with the `NON_ALPHANUMERIC` set: the
/// contract states that it leaves ASCII letters and digits and writes every
/// other byte as `%XY`, which is what that crate's `AsciiSet` for
/// `NON_ALPHANUMERIC` and its `percent_encode_byte` table do.
#[verifier::external_body]
fn percent_encode_non_alphanumeric(bytes: &[u8]) -> (r: String)
    ensures
        r@ == percent_encode(bytes@),
{
    percent_encoding::percent_encode(bytes, percent_encoding::NON_ALPHANUMERIC).to_string()
}

/// What adding a boolean parameter appends: the separator, the name and `=1`
/// or `=0`.
pub open spec fn query_bool_pair(separator: char, name: Seq<char>, value: bool) -> Seq<char> {
    seq![separator] + name + if value {
        seq!['=', '1']
    } else {
        seq!['=', '0']
    }
}

/// What adding a parameter appends: the separator, the name, `=` and the
/// percent-encoded UTF-8 bytes of the value.
pub open spec fn query_arg_pair(separator: char, name: Seq<char>, value: Seq<char>) -> Seq<char> {
    seq![separator] + name + seq!['='] + percent_encode(vstd::utf8::encode_utf8(value))
}

/// A boolean pair is three characters longer than the name: the separator,
/// the name character for character, `=`, and `1` for true or `0` for false.
pub proof fn lemma_query_bool_pair_parts(separator: char, name: Seq<char>, value: bool)
    ensures
        query_bool_pair(separator, name, value).len() == name.len() + 3,
        query_bool_pair(separator, name, value)[0] == separator,
        query_bool_pair(separator, name, value).subrange(1, name.len() + 1int) == name,
        query_bool_pair(separator, name, value)[name.len() + 1int] == '=',
        query_bool_pair(separator, name, value)[name.len() + 2int] == if value {
            '1'
        } else {
            '0'
        },
{
    let p = query_bool_pair(separator, name, value);
    assert(p.subrange(1, name.len() + 1int) =~= name);
}

/// A parameter pair is the separator, the name character for character and
/// `=`, followed by a value that holds only ASCII letters, digits and `%` and
/// that percent-decodes to the UTF-8 bytes of the value.
pub proof fn lemma_query_arg_pair_parts(separator: char, name: Seq<char>, value: Seq<char>)
    ensures
        query_arg_pair(separator, name, value)[0] == separator,
        query_arg_pair(separator, name, value).subrange(1, name.len() + 1int) == name,
        query_arg_pair(separator, name, value)[name.len() + 1int] == '=',
        percent_decode(query_arg_pair(separator, name, value).skip(name.len() + 2int))
            == vstd::utf8::encode_utf8(value),
        forall|k: int|
            name.len() + 2int <= k < query_arg_pair(separator, name, value).len()
                ==> is_query_safe_char(#[trigger] query_arg_pair(separator, name, value)[k]),
{
    let p = query_arg_pair(separator, name, value);
    let bytes = vstd::utf8::encode_utf8(value);
    let enc = percent_encode(bytes);
    assert(p.subrange(1, name.len() + 1int) =~= name);
    assert(p.skip(name.len() + 2int) =~= enc);
    lemma_percent_decode_encode(bytes, Seq::empty());
    assert(enc + Seq::<char>::empty() =~= enc);
    assert(bytes + percent_decode(Seq::<char>::empty()) =~= bytes);
    lemma_percent_encode_query_safe(bytes);
    assert forall|k: int| name.len() + 2int <= k < p.len() implies is_query_safe_char(
        #[trigger] p[k],
    ) by {
        assert(p[k] == enc[k - (name.len() + 2int)]);
    }
}

/// The entries of a list, each percent-encoded, joined by `%00`.
pub open spec fn encoded_list(entries: Seq<Seq<char>>) -> Seq<char>
    decreases entries.len(),
{
    if entries.len() == 0 {
        Seq::empty()
    } else if entries.len() == 1 {
        percent_encode(vstd::utf8::encode_utf8(entries[0]))
    } else {
        encoded_list(entries.drop_last()) + seq!['%', '0', '0'] + percent_encode(
            vstd::utf8::encode_utf8(entries.last()),
        )
    }
}

/// How one call of [`add_query_bool`] changes the query and the separator
/// (`before` and `after`, each as text and separator): without a value nothing
/// changes; with one, the query grows by the separator, the name and `=1` or
/// `=0`, and the separator becomes `&`.
pub open spec fn query_bool_added(
    before: (Seq<char>, char),
    name: Seq<char>,
    value: Option<bool>,
    after: (Seq<char>, char),
) -> bool {
    match value {
        None => after == before,
        Some(b) => after.0 == before.0 + query_bool_pair(before.1, name, b) && after.1 == '&',
    }
}

/// Add an optional boolean parameter to the query, and if it was added, change
/// `separator` to `&`.
pub fn add_query_bool(query: &mut String, separator: &mut char, name: &str, value: Option<bool>)
    ensures
        query_bool_added(
            (old(query)@, *old(separator)),
            name@,
            value,
            (final(query)@, *final(separator)),
        ),
        value matches Some(b) ==> final(query)@ == old(query)@ + seq![*old(separator)] + name@
            + seq!['=', if b { '1' } else { '0' }],
{
    if let Some(value) = value {
        query.push(*separator);
        *separator = '&';
        query.push_str(name);
        query.push_str(if value { "=1" } else { "=0" });
        proof {
            reveal_strlit("=1");
            reveal_strlit("=0");
            assert(query@ =~= old(query)@ + query_bool_pair(*old(separator), name@, value));
            assert(query@ =~= old(query)@ + seq![*old(separator)] + name@ + seq![
                '=',
                if value { '1' } else { '0' },
            ]);
        }
    }
}

/// Whether some parameter has a value.
pub open spec fn some_present(params: Seq<(Seq<char>, Option<bool>)>) -> bool {
    exists|i: int| 0 <= i < params.len() && (#[trigger] params[i]).1 is Some
}

/// The pairs of the parameters that have a value, in order: the first one
/// preceded by `first`, every later one by `&`.
pub open spec fn bool_params_text(first: char, params: Seq<(Seq<char>, Option<bool>)>) -> Seq<char>
    decreases params.len(),
{
    if params.len() == 0 {
        Seq::empty()
    } else {
        let before = params.drop_last();
        match params.last().1 {
            None => bool_params_text(first, before),
            Some(b) => bool_params_text(first, before) + query_bool_pair(
                if some_present(before) {
                    '&'
                } else {
                    first
                },
                params.last().0,
                b,
            ),
        }
    }
}

/// Adding boolean parameters one after the other: when `states[i + 1]` is
/// what the call of [`add_query_bool`] with `params[i]` makes of `states[i]`,
/// for every parameter in call order, the query grows by the pairs of the
/// parameters that have a value, the first preceded by the separator it
/// started with (`?` for a path without query) and every later one by `&`;
/// the separator ends as `&` exactly when some parameter had a value, and is
/// unchanged otherwise.
pub proof fn lemma_add_query_bool_calls(
    states: Seq<(Seq<char>, char)>,
    params: Seq<(Seq<char>, Option<bool>)>,
)
    requires
        states.len() == params.len() + 1,
        forall|i: int|
            0 <= i < params.len() ==> query_bool_added(
                #[trigger] states[i],
                params[i].0,
                params[i].1,
                states[i + 1],
            ),
    ensures
        states.last().0 == states[0].0 + bool_params_text(states[0].1, params),
        states.last().1 == if some_present(params) {
            '&'
        } else {
            states[0].1
        },
    decreases params.len(),
{
    if params.len() == 0 {
        assert(states[0].0 + bool_params_text(states[0].1, params) =~= states[0].0);
        assert(!some_present(params));
    } else {
        let n = params.len() - 1;
        let before = params.drop_last();
        let earlier = states.drop_last();
        assert forall|i: int| 0 <= i < before.len() implies query_bool_added(
            #[trigger] earlier[i],
            before[i].0,
            before[i].1,
            earlier[i + 1],
        ) by {
            assert(states[i] == earlier[i] && states[i + 1] == earlier[i + 1]);
            assert(params[i] == before[i]);
        }
        lemma_add_query_bool_calls(earlier, before);
        assert(earlier.last() == states[n] && earlier[0] == states[0]);
        assert(query_bool_added(states[n], params[n].0, params[n].1, states[n + 1]));
        assert(params[n] == params.last() && states[n + 1] == states.last());
        if some_present(before) {
            let i = choose|i: int| 0 <= i < before.len() && (#[trigger] before[i]).1 is Some;
            assert(params[i] == before[i]);
        }
        if params.last().1 is Some {
            assert(states[0].0 + bool_params_text(states[0].1, params) =~= states[0].0
                + bool_params_text(states[0].1, before) + query_bool_pair(
                states[n].1,
                params.last().0,
                params.last().1->0,
            ));
        } else if some_present(params) {
            let i = choose|i: int| 0 <= i < params.len() && (#[trigger] params[i]).1 is Some;
            assert(before[i] == params[i]);
        }
    }
}

/// Add an optional string parameter to the query, and if it was added, change
/// `separator` to `&`. The value is written percent-encoded.
pub fn add_query_arg(query: &mut String, separator: &mut char, name: &str, value: &Option<String>)
    ensures
        match value {
            None => final(query)@ == old(query)@ && *final(separator) == *old(separator),
            Some(v) => final(query)@ == old(query)@ + query_arg_pair(*old(separator), name@, v@)
                && *final(separator) == '&',
        },
        value matches Some(v) ==> final(query)@ == old(query)@ + seq![*old(separator)] + name@
            + seq!['='] + percent_encode(vstd::utf8::encode_utf8(v@)),
{
    if let Some(value) = value {
        query.push(*separator);
        *separator = '&';
        query.push_str(name);
        query.push('=');
        let encoded = percent_encode_non_alphanumeric(value.as_str().as_bytes());
        query.push_str(encoded.as_str());
        proof {
            assert(query@ =~= old(query)@ + seq![*old(separator)] + name@ + seq!['=']
                + percent_encode(vstd::utf8::encode_utf8(value@)));
        }
    }
}

/// For `<type>-list` entries: adds the optional list as one parameter whose
/// value holds the percent-encoded entries separated by `%00`, ready for
/// perl's `split_list()`; if it was added, `separator` becomes `&`.
pub fn add_query_arg_string_list(
    query: &mut String,
    separator: &mut char,
    name: &str,
    value: &Option<Vec<String>>,
)
    ensures
        match value {
            None => final(query)@ == old(query)@ && *final(separator) == *old(separator),
            Some(v) => final(query)@ == old(query)@ + seq![*old(separator)] + name@ + seq!['=']
                + encoded_list(v@.map_values(|e: String| e@))
                && *final(separator) == '&',
        },
{
    let values = match value {
        Some(values) => values,
        None => return,
    };
    query.push(*separator);
    *separator = '&';
    query.push_str(name);
    query.push('=');
    let ghost start = query@;
    let ghost entries = values@.map_values(|e: String| e@);
    let mut list_separator = "";
    let mut i: usize = 0;
    proof {
        reveal_strlit("");
        reveal_strlit("%00");
    }
    while i < values.len()
        invariant
            i <= values@.len(),
            entries == values@.map_values(|e: String| e@),
            query@ == start + encoded_list(entries.take(i as int)),
            i == 0 ==> list_separator@ == Seq::<char>::empty(),
            i > 0 ==> list_separator@ == seq!['%', '0', '0'],
        decreases values@.len() - i,
    {
        query.push_str(list_separator);
        list_separator = "%00";
        let encoded = percent_encode_non_alphanumeric(values[i].as_str().as_bytes());
        query.push_str(encoded.as_str());
        proof {
            reveal_strlit("%00");
            assert(entries.take(i + 1).drop_last() =~= entries.take(i as int));
            assert(entries.take(i + 1).last() == values@[i as int]@);
        }
        i += 1;
    }
    proof {
        assert(entries.take(values@.len() as int) =~= entries);
    }
}

} // verus!
