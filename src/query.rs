use vstd::prelude::*;

use crate::text::{decimal, encode_query_value, push_decimal, push_query_value};

verus! {

/// Query text after one more `key=value` pair, with `&` between pairs; an absent
/// value leaves the text as it was. `value` is the text as written, already encoded.
pub open spec fn query_add(acc: Seq<char>, key: Seq<char>, value: Option<Seq<char>>) -> Seq<char> {
    match value {
        None => acc,
        Some(v) => {
            let sep = if acc.len() == 0 { acc } else { acc.push('&') };
            sep + key + seq!['='] + v
        },
    }
}

/// How an optional unsigned number is written in a query.
pub open spec fn num_value(o: Option<u64>) -> Option<Seq<char>> {
    match o {
        Some(n) => Some(decimal(n as nat)),
        None => None,
    }
}

pub open spec fn num32_value(o: Option<u32>) -> Option<Seq<char>> {
    match o {
        Some(n) => Some(decimal(n as nat)),
        None => None,
    }
}

/// How an optional string is written in a query: percent-encoded.
pub open spec fn str_value(o: Option<String>) -> Option<Seq<char>> {
    match o {
        Some(s) => Some(encode_query_value(s@)),
        None => None,
    }
}

/// How an optional flag is written in a query: `true` or `false`.
pub open spec fn bool_value(o: Option<bool>) -> Option<Seq<char>> {
    match o {
        Some(true) => Some(seq!['t', 'r', 'u', 'e']),
        Some(false) => Some(seq!['f', 'a', 'l', 's', 'e']),
        None => None,
    }
}

/// Appends `key=` (after a `&` when the query is not empty) to `out`.
fn push_key(out: &mut String, key: &str)
    ensures
        final(out)@ == (if old(out)@.len() == 0 { old(out)@ } else { old(out)@.push('&') }) + key@
            + seq!['='],
{
    proof {
        reveal_strlit("&");
        reveal_strlit("=");
    }
    let ghost before = out@;
    if out.unicode_len() > 0 {
        out.append("&");
    }
    out.append(key);
    out.append("=");
    assert(out@ =~= (if before.len() == 0 { before } else { before.push('&') }) + key@ + seq!['=']);
}

/// Appends a pair whose value is written as it is.
pub fn add_raw(out: &mut String, key: &str, value: &str)
    ensures
        final(out)@ == query_add(old(out)@, key@, Some(value@)),
{
    push_key(out, key);
    out.append(value);
}

pub fn add_num(out: &mut String, key: &str, value: Option<u64>)
    ensures
        final(out)@ == query_add(old(out)@, key@, num_value(value)),
{
    if let Some(n) = value {
        push_key(out, key);
        push_decimal(out, n);
    }
}

pub fn add_num32(out: &mut String, key: &str, value: Option<u32>)
    ensures
        final(out)@ == query_add(old(out)@, key@, num32_value(value)),
{
    if let Some(n) = value {
        push_key(out, key);
        push_decimal(out, n as u64);
    }
}

/// Appends a pair whose value is percent-encoded.
pub fn add_text(out: &mut String, key: &str, value: &str)
    ensures
        final(out)@ == query_add(old(out)@, key@, Some(encode_query_value(value@))),
{
    push_key(out, key);
    push_query_value(out, value);
}

pub fn add_str(out: &mut String, key: &str, value: &Option<String>)
    ensures
        final(out)@ == query_add(old(out)@, key@, str_value(*value)),
{
    if let Some(s) = value {
        add_text(out, key, s.as_str());
    }
}

pub fn add_bool(out: &mut String, key: &str, value: Option<bool>)
    ensures
        final(out)@ == query_add(old(out)@, key@, bool_value(value)),
{
    proof {
        reveal_strlit("true");
        reveal_strlit("false");
    }
    match value {
        Some(true) => add_raw(out, key, "true"),
        Some(false) => add_raw(out, key, "false"),
        None => {},
    }
}

} // verus!
