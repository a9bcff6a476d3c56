//! Properties that hold across the command builders and the run judgement.

use vstd::prelude::*;
use crate::argv::{opt_pair, repeat_pairs};
use crate::commands::{
    auth_argv, code_argv, inspect_argv, json_output_options, search_argv, search_extras,
    search_filters, search_target, search_scope, search_counts, search_dates, tree_argv, CodeArgs,
    HostArgs, InspectArgs, SearchArgs, TreeArgs,
};
use crate::command_laws::{inserted_at, law_search_explain, law_search_readme};
use crate::decimal::{decimal, law_decimal_round_trip};
use crate::runner::{error_text, failure_text, timeout_setting, RunnerError};
use crate::text::{is_white_space, trimmed_end};

verus! {

/// Every command line that asks for structured results ends by asking
/// `gitquarry` for JSON with progress output off.
pub proof fn law_structured_commands_end_with_json_options(
    s: SearchArgs,
    i: InspectArgs,
    t: TreeArgs,
    c: CodeArgs,
)
    ensures
        search_argv(s).len() >= 4 && search_argv(s).skip(search_argv(s).len() - 4)
            == json_output_options(),
        inspect_argv(i).len() >= 4 && inspect_argv(i).skip(inspect_argv(i).len() - 4)
            == json_output_options(),
        tree_argv(t).len() >= 4 && tree_argv(t).skip(tree_argv(t).len() - 4)
            == json_output_options(),
        code_argv(c).len() >= 4 && code_argv(c).skip(code_argv(c).len() - 4)
            == json_output_options(),
{
    let a = search_argv(s);
    assert(a.skip(a.len() - 4) =~= json_output_options());
    let b = inspect_argv(i);
    assert(b.skip(b.len() - 4) =~= json_output_options());
    let d = tree_argv(t);
    assert(d.skip(d.len() - 4) =~= json_output_options());
    let e = code_argv(c);
    assert(e.skip(e.len() - 4) =~= json_output_options());
}

/// A command line opens with `--host <host>` when a host override is given,
/// and with its subcommand when none is.
pub open spec fn opens_with(argv: Seq<Seq<char>>, host: Option<String>, word: Seq<char>) -> bool {
    match host {
        Some(h) => argv.len() >= 3 && argv[0] == "--host"@ && argv[1] == h@ && argv[2] == word,
        None => argv.len() >= 1 && argv[0] == word,
    }
}

/// Each command that takes a host puts the override, when given, in front of
/// its subcommand, and nothing in front of it otherwise.
pub proof fn law_host_override_leads(
    s: SearchArgs,
    i: InspectArgs,
    t: TreeArgs,
    c: CodeArgs,
    h: HostArgs,
)
    ensures
        opens_with(search_argv(s), s.host, "search"@),
        opens_with(inspect_argv(i), i.host, "inspect"@),
        opens_with(tree_argv(t), t.host, "tree"@),
        opens_with(code_argv(c), c.host, "code"@),
        opens_with(auth_argv(h, "status"@), h.host, "auth"@),
        opens_with(auth_argv(h, "logout"@), h.host, "auth"@),
{
    lemma_search_opens_with(s);
}

/// The search line is long; its first words are found through its prefix.
proof fn lemma_search_opens_with(s: SearchArgs)
    ensures
        opens_with(search_argv(s), s.host, "search"@),
{
    reveal(search_filters);
    reveal(search_target);
    let a = search_argv(s);
    let head = opt_pair("--host"@, s.host.deep_view()) + seq!["search"@];
    let t = search_target(s);
    assert forall|k: int| 0 <= k < head.len() implies t[k] == head[k] by {}
    assert forall|k: int| 0 <= k < head.len() implies a[k] == t[k] by {}
}

/// Repeated values each get their own flag, in the order given: the values
/// are required together.
pub proof fn law_repeat_pairs_layout(flag: Seq<char>, values: Seq<Seq<char>>)
    ensures
        repeat_pairs(flag, values).len() == 2 * values.len(),
        forall|k: int| 0 <= k < values.len() ==> #[trigger] repeat_pairs(flag, values)[2 * k] == flag,
        forall|k: int|
            0 <= k < values.len() ==> #[trigger] repeat_pairs(flag, values)[2 * k + 1] == values[k],
    decreases values.len(),
{
    if values.len() > 0 {
        let init = values.drop_last();
        law_repeat_pairs_layout(flag, init);
        let r = repeat_pairs(flag, values);
        let p = repeat_pairs(flag, init);
        assert(r == p + seq![flag, values.last()]);
        assert forall|k: int| 0 <= k < values.len() implies #[trigger] r[2 * k] == flag by {
            if k < values.len() - 1 {
                assert(r[2 * k] == p[2 * k]);
            }
        }
        assert forall|k: int| 0 <= k < values.len() implies #[trigger] r[2 * k + 1] == values[k] by {
            if k < values.len() - 1 {
                assert(r[2 * k + 1] == p[2 * k + 1]);
                assert(init[k] == values[k]);
            }
        }
    }
}

/// A timeout override written as the decimal text of a positive number of
/// milliseconds is read back as that number.
pub proof fn law_timeout_setting_round_trip(ms: u64)
    requires
        ms > 0,
    ensures
        timeout_setting(Some(decimal(ms as nat))) == Ok::<u64, Seq<char>>(ms),
{
    law_decimal_round_trip(ms);
}

/// When a failed run wrote to its error output, its error message is that
/// output, trimmed at the end, and the error shows exactly that message.
pub proof fn law_failure_surfaces_stderr(
    path: Seq<char>,
    stdout: Seq<char>,
    stderr: Seq<char>,
    code: Option<i32>,
    message: String,
)
    requires
        trimmed_end(stderr).len() > 0,
        message@ == failure_text(path, trimmed_end(stdout), trimmed_end(stderr), code),
    ensures
        message@ == trimmed_end(stderr),
        error_text(RunnerError::CommandFailed { message }) == trimmed_end(stderr),
{
}

/// Trimming keeps a prefix that ends in no white space, drops only white
/// space, and trimming again changes nothing.
pub proof fn law_trim_end(s: Seq<char>)
    ensures
        trimmed_end(s).len() <= s.len(),
        trimmed_end(s) == s.take(trimmed_end(s).len() as int),
        trimmed_end(s).len() > 0 ==> !is_white_space(trimmed_end(s).last()),
        forall|k: int| trimmed_end(s).len() <= k < s.len() ==> is_white_space(#[trigger] s[k]),
        trimmed_end(trimmed_end(s)) == trimmed_end(s),
    decreases s.len(),
{
    if s.len() > 0 && is_white_space(s.last()) {
        law_trim_end(s.drop_last());
        let t = trimmed_end(s.drop_last());
        assert(s.drop_last().take(t.len() as int) =~= s.take(t.len() as int));
        assert forall|k: int| t.len() <= k < s.len() implies is_white_space(#[trigger] s[k]) by {
            if k < s.len() - 1 {
                assert(s[k] == s.drop_last()[k]);
            }
        }
    } else {
        assert(s.take(s.len() as int) =~= s);
    }
}

/// The filters of a search do not depend on its switches.
proof fn lemma_filters_ignore_switches(a: SearchArgs, readme: Option<bool>, explain: Option<bool>)
    ensures
        search_filters((SearchArgs { readme, explain, ..a })) == search_filters(a),
{
    reveal(search_filters);
    reveal(search_target);
    reveal(search_scope);
    reveal(search_counts);
    reveal(search_dates);
}

/// A search switch set to `false` is the same as one left unset.
pub proof fn law_search_switch_false_is_unset(a: SearchArgs)
    ensures
        search_argv((SearchArgs { readme: Some(false), ..a })) == search_argv(
            (SearchArgs { readme: None, ..a }),
        ),
        search_argv((SearchArgs { explain: Some(false), ..a })) == search_argv(
            (SearchArgs { explain: None, ..a }),
        ),
{
    lemma_filters_ignore_switches(a, Some(false), a.explain);
    lemma_filters_ignore_switches(a, None, a.explain);
    lemma_filters_ignore_switches(a, a.readme, Some(false));
    lemma_filters_ignore_switches(a, a.readme, None);
    reveal(search_extras);
}

/// Setting `readme` to `true` inserts the bare flag `--readme`, with no value
/// after it, at one place of the command line it would have without it.
pub proof fn law_search_readme_inserts_flag(a: SearchArgs)
    ensures
        exists|k: int|
            0 <= k <= search_argv((SearchArgs { readme: None, ..a })).len() && search_argv(
                (SearchArgs { readme: Some(true), ..a }),
            ) == search_argv((SearchArgs { readme: None, ..a })).take(k) + seq!["--readme"@]
                + search_argv((SearchArgs { readme: None, ..a })).skip(k),
{
    law_search_readme(a);
    let n = search_argv(SearchArgs { readme: None, ..a });
    let t = search_argv(SearchArgs { readme: Some(true), ..a });
    let k = choose|k: int| inserted_at(t, n, seq!["--readme"@], k);
    assert(inserted_at(t, n, seq!["--readme"@], k));
}

/// Setting `explain` to `true` inserts the bare flag `--explain`, with no value
/// after it, at one place of the command line it would have without it.
pub proof fn law_search_explain_inserts_flag(a: SearchArgs)
    ensures
        exists|k: int|
            0 <= k <= search_argv((SearchArgs { explain: None, ..a })).len() && search_argv(
                (SearchArgs { explain: Some(true), ..a }),
            ) == search_argv((SearchArgs { explain: None, ..a })).take(k) + seq!["--explain"@]
                + search_argv((SearchArgs { explain: None, ..a })).skip(k),
{
    law_search_explain(a);
    let n = search_argv(SearchArgs { explain: None, ..a });
    let t = search_argv(SearchArgs { explain: Some(true), ..a });
    let k = choose|k: int| inserted_at(t, n, seq!["--explain"@], k);
    assert(inserted_at(t, n, seq!["--explain"@], k));
}

} // verus!
