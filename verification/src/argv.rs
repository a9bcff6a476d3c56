//! Appending options to a command line under construction.

use vstd::prelude::*;
use crate::decimal::{decimal, u64_to_decimal};

verus! {

/// A flag followed by its value, or nothing when there is no value.
pub open spec fn opt_pair(flag: Seq<char>, value: Option<Seq<char>>) -> Seq<Seq<char>> {
    match value {
        Some(v) => seq![flag, v],
        None => seq![],
    }
}

/// A lone word, or nothing.
pub open spec fn opt_word(value: Option<Seq<char>>) -> Seq<Seq<char>> {
    match value {
        Some(v) => seq![v],
        None => seq![],
    }
}

/// The flag once for each value, each time followed by that value, in order.
pub open spec fn repeat_pairs(flag: Seq<char>, values: Seq<Seq<char>>) -> Seq<Seq<char>>
    decreases values.len(),
{
    if values.len() == 0 {
        seq![]
    } else {
        repeat_pairs(flag, values.drop_last()) + seq![flag, values.last()]
    }
}

/// The flag alone when the switch is given as `true`, else nothing.
pub open spec fn flag_if_true(flag: Seq<char>, value: Option<bool>) -> Seq<Seq<char>> {
    if value == Some(true) {
        seq![flag]
    } else {
        seq![]
    }
}

/// The decimal text of an optional `u32`.
pub open spec fn u32_text(value: Option<u32>) -> Option<Seq<char>> {
    match value {
        Some(n) => Some(decimal(n as nat)),
        None => None,
    }
}

/// The decimal text of an optional `u64`.
pub open spec fn u64_text(value: Option<u64>) -> Option<Seq<char>> {
    match value {
        Some(n) => Some(decimal(n as nat)),
        None => None,
    }
}

/// Appends one word.
pub fn push_word(argv: &mut Vec<String>, word: &str)
    ensures
        final(argv).deep_view() == old(argv).deep_view() + seq![word@],
{
    argv.push(String::from_str(word));
    assert(argv.deep_view() =~= old(argv).deep_view() + seq![word@]);
}

/// Appends `--host <host>` when a host is given.
pub fn push_host(argv: &mut Vec<String>, host: Option<String>)
    ensures
        final(argv).deep_view() == old(argv).deep_view() + opt_pair(
            "--host"@,
            host.deep_view(),
        ),
{
    push_opt_value(argv, "--host", host);
}

/// Appends the flag followed by each value, once per value.
pub fn push_repeat_values(argv: &mut Vec<String>, flag: &str, values: Vec<String>)
    ensures
        final(argv).deep_view() == old(argv).deep_view() + repeat_pairs(
            flag@,
            values.deep_view(),
        ),
{
    let ghost start = argv.deep_view();
    let ghost all = values.deep_view();
    assert(start + repeat_pairs(flag@, all.take(0)) =~= start) by {
        assert(all.take(0) =~= Seq::<Seq<char>>::empty());
    }
    for value in it: values
        invariant
            all == it.seq().map_values(|s: String| s@),
            argv.deep_view() == start + repeat_pairs(flag@, all.take(it.index() as int)),
    {
        let ghost before = argv.deep_view();
        let ghost i = it.index();
        argv.push(String::from_str(flag));
        argv.push(value);
        proof {
            assert(all.take(i + 1).drop_last() =~= all.take(i));
            assert(all.take(i + 1).last() == value@);
            assert(argv.deep_view() =~= before + seq![flag@, value@]);
        }
    }
    assert(all.take(all.len() as int) =~= all);
}

/// Appends `flag value` when there is a value.
pub fn push_opt_value(argv: &mut Vec<String>, flag: &str, value: Option<String>)
    ensures
        final(argv).deep_view() == old(argv).deep_view() + opt_pair(flag@, value.deep_view()),
{
    if let Some(value) = value {
        argv.push(String::from_str(flag));
        argv.push(value);
        assert(argv.deep_view() =~= old(argv).deep_view() + seq![flag@, value@]);
    } else {
        assert(argv.deep_view() =~= old(argv).deep_view() + Seq::<Seq<char>>::empty());
    }
}

/// Appends the flag when the switch is given as `true`.
pub fn push_flag_if_true(argv: &mut Vec<String>, flag: &str, value: Option<bool>)
    ensures
        final(argv).deep_view() == old(argv).deep_view() + flag_if_true(flag@, value),
{
    if value.unwrap_or(false) {
        argv.push(String::from_str(flag));
        assert(argv.deep_view() =~= old(argv).deep_view() + seq![flag@]);
    } else {
        assert(argv.deep_view() =~= old(argv).deep_view() + Seq::<Seq<char>>::empty());
    }
}

/// Appends `flag <decimal value>` when there is a value.
pub fn push_opt_u32(argv: &mut Vec<String>, flag: &str, value: Option<u32>)
    ensures
        final(argv).deep_view() == old(argv).deep_view() + opt_pair(flag@, u32_text(value)),
{
    if let Some(value) = value {
        argv.push(String::from_str(flag));
        argv.push(u64_to_decimal(value as u64));
        assert(argv.deep_view() =~= old(argv).deep_view() + seq![flag@, decimal(value as nat)]);
    } else {
        assert(argv.deep_view() =~= old(argv).deep_view() + Seq::<Seq<char>>::empty());
    }
}

/// Appends `flag <decimal value>` when there is a value.
pub fn push_opt_u64(argv: &mut Vec<String>, flag: &str, value: Option<u64>)
    ensures
        final(argv).deep_view() == old(argv).deep_view() + opt_pair(flag@, u64_text(value)),
{
    if let Some(value) = value {
        argv.push(String::from_str(flag));
        argv.push(u64_to_decimal(value));
        assert(argv.deep_view() =~= old(argv).deep_view() + seq![flag@, decimal(value as nat)]);
    } else {
        assert(argv.deep_view() =~= old(argv).deep_view() + Seq::<Seq<char>>::empty());
    }
}

} // verus!
