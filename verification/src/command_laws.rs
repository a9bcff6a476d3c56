//! How each field of a tool's arguments shows on its command line: an unset
//! field adds nothing, and a set one adds its own flag and value, once, to the
//! line the command would have without it.

use vstd::prelude::*;
use crate::argv::{flag_if_true, opt_pair, opt_word, repeat_pairs, u32_text, u64_text};
use crate::commands::{
    auth_logout_argv, auth_status_argv, code_argv, inspect_argv, json_output_options, search_argv,
    search_counts,
    search_dates, search_extras, search_filters, search_scope, search_target, tree_argv,
    CodeArgs, HostArgs, InspectArgs, SearchArgs, TreeArgs,
};
use crate::decimal::decimal;
use crate::laws::law_repeat_pairs_layout;
use crate::options::{
    BoolFlag, DiscoveryDepth, ForkMode, PatternMode, RankMode, RetrievalMode, SearchSort,
};

verus! {

/// `full` is `base` with `piece` put in at position `k`.
pub open spec fn inserted_at(
    full: Seq<Seq<char>>,
    base: Seq<Seq<char>>,
    piece: Seq<Seq<char>>,
    k: int,
) -> bool {
    0 <= k <= base.len() && full == base.take(k) + piece + base.skip(k)
}

/// `full` is `base` with `piece` put in at one place.
pub open spec fn inserted(full: Seq<Seq<char>>, base: Seq<Seq<char>>, piece: Seq<Seq<char>>) -> bool {
    exists|k: int| #[trigger] inserted_at(full, base, piece, k)
}

/// `p` holds `flag` before each of `values`, in order, and nothing else.
pub open spec fn flag_before_each(p: Seq<Seq<char>>, flag: Seq<char>, values: Seq<Seq<char>>) -> bool {
    &&& p.len() == 2 * values.len()
    &&& forall|k: int| 0 <= k < values.len() ==> #[trigger] p[2 * k] == flag
    &&& forall|k: int| 0 <= k < values.len() ==> #[trigger] p[2 * k + 1] == values[k]
}

/// A set field's piece stands where the unset field's nothing stood.
proof fn lemma_inserted_piece(piece: Seq<Seq<char>>, nothing: Seq<Seq<char>>)
    requires
        nothing.len() == 0,
    ensures
        inserted_at(piece, nothing, piece, 0),
{
    assert(nothing.take(0) + piece + nothing.skip(0) =~= piece);
}

/// What stands before an insertion moves it along by its length.
proof fn lemma_inserted_before(
    x: Seq<Seq<char>>,
    full: Seq<Seq<char>>,
    base: Seq<Seq<char>>,
    piece: Seq<Seq<char>>,
    k: int,
)
    requires
        inserted_at(full, base, piece, k),
    ensures
        inserted_at(x + full, x + base, piece, x.len() + k),
{
    assert(x + full =~= (x + base).take(x.len() + k) + piece + (x + base).skip(x.len() + k));
}

/// What stands after an insertion leaves it where it is.
proof fn lemma_inserted_after(
    full: Seq<Seq<char>>,
    base: Seq<Seq<char>>,
    piece: Seq<Seq<char>>,
    k: int,
    y: Seq<Seq<char>>,
)
    requires
        inserted_at(full, base, piece, k),
    ensures
        inserted_at(full + y, base + y, piece, k),
{
    assert(full + y =~= (base + y).take(k) + piece + (base + y).skip(k));
}

/// The words of every choice, as the command line spells them.
pub proof fn law_choice_words()
    ensures
        RetrievalMode::Native.text() == "native"@,
        RetrievalMode::Discover.text() == "discover"@,
        RankMode::Native.text() == "native"@,
        RankMode::Query.text() == "query"@,
        RankMode::Activity.text() == "activity"@,
        RankMode::Quality.text() == "quality"@,
        RankMode::Blended.text() == "blended"@,
        SearchSort::BestMatch.text() == "best-match"@,
        SearchSort::Stars.text() == "stars"@,
        SearchSort::Updated.text() == "updated"@,
        DiscoveryDepth::Quick.text() == "quick"@,
        DiscoveryDepth::Balanced.text() == "balanced"@,
        DiscoveryDepth::Deep.text() == "deep"@,
        BoolFlag::True.text() == "true"@,
        BoolFlag::False.text() == "false"@,
        ForkMode::False.text() == "false"@,
        ForkMode::True.text() == "true"@,
        ForkMode::Only.text() == "only"@,
        PatternMode::Literal.text() == "literal"@,
        PatternMode::Regex.text() == "regex"@,
{
}

/// A group of a search line depends only on the fields it shows.
proof fn lemma_search_frame(x: SearchArgs, y: SearchArgs)
    ensures

        (x.host == y.host && x.query == y.query && x.mode == y.mode && x.rank == y.rank && x.sort == y.sort && x.depth == y.depth && x.limit == y.limit) ==> search_target(x) == search_target(y),
        (x.user == y.user && x.org == y.org && x.archived == y.archived && x.template == y.template && x.fork == y.fork && x.language == y.language && x.topic == y.topic && x.license == y.license) ==> search_scope(x) == search_scope(y),
        (x.min_stars == y.min_stars && x.max_stars == y.max_stars && x.min_forks == y.min_forks && x.max_forks == y.max_forks && x.min_size == y.min_size && x.max_size == y.max_size) ==> search_counts(x) == search_counts(y),
        (x.created_after == y.created_after && x.created_before == y.created_before && x.updated_after == y.updated_after && x.updated_before == y.updated_before && x.pushed_after == y.pushed_after && x.pushed_before == y.pushed_before && x.created_within == y.created_within && x.updated_within == y.updated_within && x.pushed_within == y.pushed_within) ==> search_dates(x) == search_dates(y),
        (x.readme == y.readme && x.explain == y.explain && x.weight_query == y.weight_query && x.weight_activity == y.weight_activity && x.weight_quality == y.weight_quality && x.concurrency == y.concurrency) ==> search_extras(x) == search_extras(y),
        (search_target(x) == search_target(y) && search_scope(x) == search_scope(y) && search_counts(x) == search_counts(y) && search_dates(x) == search_dates(y)) ==> search_filters(x) == search_filters(y),
{
    reveal(search_target);
    reveal(search_scope);
    reveal(search_counts);
    reveal(search_dates);
    reveal(search_extras);
    reveal(search_filters);
}

/// A host override `h` puts `--host h` in front of the search line it joins.
pub proof fn law_search_host(a: SearchArgs, h: String)
    ensures
        inserted_at(
            search_argv((SearchArgs { host: Some(h), ..a })),
            search_argv((SearchArgs { host: None, ..a })),
            seq!["--host"@, h@],
            0,
        ),
{
    let f = SearchArgs { host: Some(h), ..a };
    let b = SearchArgs { host: None, ..a };
    let piece = seq!["--host"@, h@];
    lemma_search_frame(f, b);
    reveal(search_target);
    let p0 = opt_pair("--host"@, b.host.deep_view());
    let p1 = seq!["search"@];
    let p2 = opt_word(b.query.deep_view());
    let p3 = opt_pair("--mode"@, RetrievalMode::option_text(b.mode));
    let p4 = opt_pair("--rank"@, RankMode::option_text(b.rank));
    let p5 = opt_pair("--sort"@, SearchSort::option_text(b.sort));
    let p6 = opt_pair("--depth"@, DiscoveryDepth::option_text(b.depth));
    let p7 = opt_pair("--limit"@, u32_text(b.limit));
    lemma_inserted_piece(piece, p0);
    lemma_inserted_after(piece, p0, piece, 0int, p1);
    lemma_inserted_after((piece) + p1, (p0) + p1, piece, 0int, p2);
    lemma_inserted_after(((piece) + p1) + p2, ((p0) + p1) + p2, piece, 0int, p3);
    lemma_inserted_after((((piece) + p1) + p2) + p3, (((p0) + p1) + p2) + p3, piece, 0int, p4);
    lemma_inserted_after(((((piece) + p1) + p2) + p3) + p4, ((((p0) + p1) + p2) + p3) + p4, piece, 0int, p5);
    lemma_inserted_after((((((piece) + p1) + p2) + p3) + p4) + p5, (((((p0) + p1) + p2) + p3) + p4) + p5, piece, 0int, p6);
    lemma_inserted_after(((((((piece) + p1) + p2) + p3) + p4) + p5) + p6, ((((((p0) + p1) + p2) + p3) + p4) + p5) + p6, piece, 0int, p7);
    assert(inserted_at(search_target(f), search_target(b), piece, 0int));
    reveal(search_filters);
    let inner = 0int;
    lemma_inserted_after(search_target(f), search_target(b), piece, inner, search_scope(b));
    lemma_inserted_after((search_target(f)) + search_scope(b), (search_target(b)) + search_scope(b), piece, inner, search_counts(b));
    lemma_inserted_after(((search_target(f)) + search_scope(b)) + search_counts(b), ((search_target(b)) + search_scope(b)) + search_counts(b), piece, inner, search_dates(b));
    let at = inner;
    assert(inserted_at(search_filters(f), search_filters(b), piece, at));
    lemma_inserted_after(search_filters(f), search_filters(b), piece, at, search_extras(b));
    lemma_inserted_after(search_filters(f) + search_extras(b), search_filters(b) + search_extras(b), piece, at, json_output_options());
    assert(inserted_at(search_argv(f), search_argv(b), piece, at));
}

/// A query goes in right after the subcommand of the search line.
pub proof fn law_search_query(a: SearchArgs, q: String)
    ensures
        inserted_at(
            search_argv((SearchArgs { query: Some(q), ..a })),
            search_argv((SearchArgs { query: None, ..a })),
            seq![q@],
            (if a.host is Some { 2int } else { 0int }) + 1,
        ),
{
    let f = SearchArgs { query: Some(q), ..a };
    let b = SearchArgs { query: None, ..a };
    let piece = seq![q@];
    lemma_search_frame(f, b);
    reveal(search_target);
    let p0 = opt_pair("--host"@, b.host.deep_view());
    let p1 = seq!["search"@];
    let p2 = opt_word(b.query.deep_view());
    let p3 = opt_pair("--mode"@, RetrievalMode::option_text(b.mode));
    let p4 = opt_pair("--rank"@, RankMode::option_text(b.rank));
    let p5 = opt_pair("--sort"@, SearchSort::option_text(b.sort));
    let p6 = opt_pair("--depth"@, DiscoveryDepth::option_text(b.depth));
    let p7 = opt_pair("--limit"@, u32_text(b.limit));
    lemma_inserted_piece(piece, p2);
    let before = p0 + p1;
    lemma_inserted_before(before, piece, p2, piece, 0);
    lemma_inserted_after(before + piece, before + p2, piece, before.len() as int, p3);
    lemma_inserted_after((before + piece) + p3, (before + p2) + p3, piece, before.len() as int, p4);
    lemma_inserted_after(((before + piece) + p3) + p4, ((before + p2) + p3) + p4, piece, before.len() as int, p5);
    lemma_inserted_after((((before + piece) + p3) + p4) + p5, (((before + p2) + p3) + p4) + p5, piece, before.len() as int, p6);
    lemma_inserted_after(((((before + piece) + p3) + p4) + p5) + p6, ((((before + p2) + p3) + p4) + p5) + p6, piece, before.len() as int, p7);
    assert(inserted_at(search_target(f), search_target(b), piece, before.len() as int));
    reveal(search_filters);
    let inner = before.len() as int;
    lemma_inserted_after(search_target(f), search_target(b), piece, inner, search_scope(b));
    lemma_inserted_after((search_target(f)) + search_scope(b), (search_target(b)) + search_scope(b), piece, inner, search_counts(b));
    lemma_inserted_after(((search_target(f)) + search_scope(b)) + search_counts(b), ((search_target(b)) + search_scope(b)) + search_counts(b), piece, inner, search_dates(b));
    let at = inner;
    assert(inserted_at(search_filters(f), search_filters(b), piece, at));
    lemma_inserted_after(search_filters(f), search_filters(b), piece, at, search_extras(b));
    lemma_inserted_after(search_filters(f) + search_extras(b), search_filters(b) + search_extras(b), piece, at, json_output_options());
    assert(inserted_at(search_argv(f), search_argv(b), piece, at));
}

/// A `mode` choice puts in `--mode` followed by its word, once.
pub proof fn law_search_mode(a: SearchArgs, v: RetrievalMode)
    ensures
        inserted(
            search_argv((SearchArgs { mode: Some(v), ..a })),
            search_argv((SearchArgs { mode: None, ..a })),
            seq!["--mode"@, v.text()],
        ),
{
    let f = SearchArgs { mode: Some(v), ..a };
    let b = SearchArgs { mode: None, ..a };
    let piece = seq!["--mode"@, v.text()];
    lemma_search_frame(f, b);
    reveal(search_target);
    let p0 = opt_pair("--host"@, b.host.deep_view());
    let p1 = seq!["search"@];
    let p2 = opt_word(b.query.deep_view());
    let p3 = opt_pair("--mode"@, RetrievalMode::option_text(b.mode));
    let p4 = opt_pair("--rank"@, RankMode::option_text(b.rank));
    let p5 = opt_pair("--sort"@, SearchSort::option_text(b.sort));
    let p6 = opt_pair("--depth"@, DiscoveryDepth::option_text(b.depth));
    let p7 = opt_pair("--limit"@, u32_text(b.limit));
    lemma_inserted_piece(piece, p3);
    let before = p0 + p1 + p2;
    lemma_inserted_before(before, piece, p3, piece, 0);
    lemma_inserted_after(before + piece, before + p3, piece, before.len() as int, p4);
    lemma_inserted_after((before + piece) + p4, (before + p3) + p4, piece, before.len() as int, p5);
    lemma_inserted_after(((before + piece) + p4) + p5, ((before + p3) + p4) + p5, piece, before.len() as int, p6);
    lemma_inserted_after((((before + piece) + p4) + p5) + p6, (((before + p3) + p4) + p5) + p6, piece, before.len() as int, p7);
    assert(inserted_at(search_target(f), search_target(b), piece, before.len() as int));
    reveal(search_filters);
    let inner = before.len() as int;
    lemma_inserted_after(search_target(f), search_target(b), piece, inner, search_scope(b));
    lemma_inserted_after((search_target(f)) + search_scope(b), (search_target(b)) + search_scope(b), piece, inner, search_counts(b));
    lemma_inserted_after(((search_target(f)) + search_scope(b)) + search_counts(b), ((search_target(b)) + search_scope(b)) + search_counts(b), piece, inner, search_dates(b));
    let at = inner;
    assert(inserted_at(search_filters(f), search_filters(b), piece, at));
    lemma_inserted_after(search_filters(f), search_filters(b), piece, at, search_extras(b));
    lemma_inserted_after(search_filters(f) + search_extras(b), search_filters(b) + search_extras(b), piece, at, json_output_options());
    assert(inserted_at(search_argv(f), search_argv(b), piece, at));
}

/// A `rank` choice puts in `--rank` followed by its word, once.
pub proof fn law_search_rank(a: SearchArgs, v: RankMode)
    ensures
        inserted(
            search_argv((SearchArgs { rank: Some(v), ..a })),
            search_argv((SearchArgs { rank: None, ..a })),
            seq!["--rank"@, v.text()],
        ),
{
    let f = SearchArgs { rank: Some(v), ..a };
    let b = SearchArgs { rank: None, ..a };
    let piece = seq!["--rank"@, v.text()];
    lemma_search_frame(f, b);
    reveal(search_target);
    let p0 = opt_pair("--host"@, b.host.deep_view());
    let p1 = seq!["search"@];
    let p2 = opt_word(b.query.deep_view());
    let p3 = opt_pair("--mode"@, RetrievalMode::option_text(b.mode));
    let p4 = opt_pair("--rank"@, RankMode::option_text(b.rank));
    let p5 = opt_pair("--sort"@, SearchSort::option_text(b.sort));
    let p6 = opt_pair("--depth"@, DiscoveryDepth::option_text(b.depth));
    let p7 = opt_pair("--limit"@, u32_text(b.limit));
    lemma_inserted_piece(piece, p4);
    let before = p0 + p1 + p2 + p3;
    lemma_inserted_before(before, piece, p4, piece, 0);
    lemma_inserted_after(before + piece, before + p4, piece, before.len() as int, p5);
    lemma_inserted_after((before + piece) + p5, (before + p4) + p5, piece, before.len() as int, p6);
    lemma_inserted_after(((before + piece) + p5) + p6, ((before + p4) + p5) + p6, piece, before.len() as int, p7);
    assert(inserted_at(search_target(f), search_target(b), piece, before.len() as int));
    reveal(search_filters);
    let inner = before.len() as int;
    lemma_inserted_after(search_target(f), search_target(b), piece, inner, search_scope(b));
    lemma_inserted_after((search_target(f)) + search_scope(b), (search_target(b)) + search_scope(b), piece, inner, search_counts(b));
    lemma_inserted_after(((search_target(f)) + search_scope(b)) + search_counts(b), ((search_target(b)) + search_scope(b)) + search_counts(b), piece, inner, search_dates(b));
    let at = inner;
    assert(inserted_at(search_filters(f), search_filters(b), piece, at));
    lemma_inserted_after(search_filters(f), search_filters(b), piece, at, search_extras(b));
    lemma_inserted_after(search_filters(f) + search_extras(b), search_filters(b) + search_extras(b), piece, at, json_output_options());
    assert(inserted_at(search_argv(f), search_argv(b), piece, at));
}

/// A `sort` choice puts in `--sort` followed by its word, once.
pub proof fn law_search_sort(a: SearchArgs, v: SearchSort)
    ensures
        inserted(
            search_argv((SearchArgs { sort: Some(v), ..a })),
            search_argv((SearchArgs { sort: None, ..a })),
            seq!["--sort"@, v.text()],
        ),
{
    let f = SearchArgs { sort: Some(v), ..a };
    let b = SearchArgs { sort: None, ..a };
    let piece = seq!["--sort"@, v.text()];
    lemma_search_frame(f, b);
    reveal(search_target);
    let p0 = opt_pair("--host"@, b.host.deep_view());
    let p1 = seq!["search"@];
    let p2 = opt_word(b.query.deep_view());
    let p3 = opt_pair("--mode"@, RetrievalMode::option_text(b.mode));
    let p4 = opt_pair("--rank"@, RankMode::option_text(b.rank));
    let p5 = opt_pair("--sort"@, SearchSort::option_text(b.sort));
    let p6 = opt_pair("--depth"@, DiscoveryDepth::option_text(b.depth));
    let p7 = opt_pair("--limit"@, u32_text(b.limit));
    lemma_inserted_piece(piece, p5);
    let before = p0 + p1 + p2 + p3 + p4;
    lemma_inserted_before(before, piece, p5, piece, 0);
    lemma_inserted_after(before + piece, before + p5, piece, before.len() as int, p6);
    lemma_inserted_after((before + piece) + p6, (before + p5) + p6, piece, before.len() as int, p7);
    assert(inserted_at(search_target(f), search_target(b), piece, before.len() as int));
    reveal(search_filters);
    let inner = before.len() as int;
    lemma_inserted_after(search_target(f), search_target(b), piece, inner, search_scope(b));
    lemma_inserted_after((search_target(f)) + search_scope(b), (search_target(b)) + search_scope(b), piece, inner, search_counts(b));
    lemma_inserted_after(((search_target(f)) + search_scope(b)) + search_counts(b), ((search_target(b)) + search_scope(b)) + search_counts(b), piece, inner, search_dates(b));
    let at = inner;
    assert(inserted_at(search_filters(f), search_filters(b), piece, at));
    lemma_inserted_after(search_filters(f), search_filters(b), piece, at, search_extras(b));
    lemma_inserted_after(search_filters(f) + search_extras(b), search_filters(b) + search_extras(b), piece, at, json_output_options());
    assert(inserted_at(search_argv(f), search_argv(b), piece, at));
}

/// A `depth` choice puts in `--depth` followed by its word, once.
pub proof fn law_search_depth(a: SearchArgs, v: DiscoveryDepth)
    ensures
        inserted(
            search_argv((SearchArgs { depth: Some(v), ..a })),
            search_argv((SearchArgs { depth: None, ..a })),
            seq!["--depth"@, v.text()],
        ),
{
    let f = SearchArgs { depth: Some(v), ..a };
    let b = SearchArgs { depth: None, ..a };
    let piece = seq!["--depth"@, v.text()];
    lemma_search_frame(f, b);
    reveal(search_target);
    let p0 = opt_pair("--host"@, b.host.deep_view());
    let p1 = seq!["search"@];
    let p2 = opt_word(b.query.deep_view());
    let p3 = opt_pair("--mode"@, RetrievalMode::option_text(b.mode));
    let p4 = opt_pair("--rank"@, RankMode::option_text(b.rank));
    let p5 = opt_pair("--sort"@, SearchSort::option_text(b.sort));
    let p6 = opt_pair("--depth"@, DiscoveryDepth::option_text(b.depth));
    let p7 = opt_pair("--limit"@, u32_text(b.limit));
    lemma_inserted_piece(piece, p6);
    let before = p0 + p1 + p2 + p3 + p4 + p5;
    lemma_inserted_before(before, piece, p6, piece, 0);
    lemma_inserted_after(before + piece, before + p6, piece, before.len() as int, p7);
    assert(inserted_at(search_target(f), search_target(b), piece, before.len() as int));
    reveal(search_filters);
    let inner = before.len() as int;
    lemma_inserted_after(search_target(f), search_target(b), piece, inner, search_scope(b));
    lemma_inserted_after((search_target(f)) + search_scope(b), (search_target(b)) + search_scope(b), piece, inner, search_counts(b));
    lemma_inserted_after(((search_target(f)) + search_scope(b)) + search_counts(b), ((search_target(b)) + search_scope(b)) + search_counts(b), piece, inner, search_dates(b));
    let at = inner;
    assert(inserted_at(search_filters(f), search_filters(b), piece, at));
    lemma_inserted_after(search_filters(f), search_filters(b), piece, at, search_extras(b));
    lemma_inserted_after(search_filters(f) + search_extras(b), search_filters(b) + search_extras(b), piece, at, json_output_options());
    assert(inserted_at(search_argv(f), search_argv(b), piece, at));
}

/// A `limit` of `n` puts in `--limit` followed by the decimal text of `n`, once.
pub proof fn law_search_limit(a: SearchArgs, n: u32)
    ensures
        inserted(
            search_argv((SearchArgs { limit: Some(n), ..a })),
            search_argv((SearchArgs { limit: None, ..a })),
            seq!["--limit"@, decimal(n as nat)],
        ),
{
    let f = SearchArgs { limit: Some(n), ..a };
    let b = SearchArgs { limit: None, ..a };
    let piece = seq!["--limit"@, decimal(n as nat)];
    lemma_search_frame(f, b);
    reveal(search_target);
    let p0 = opt_pair("--host"@, b.host.deep_view());
    let p1 = seq!["search"@];
    let p2 = opt_word(b.query.deep_view());
    let p3 = opt_pair("--mode"@, RetrievalMode::option_text(b.mode));
    let p4 = opt_pair("--rank"@, RankMode::option_text(b.rank));
    let p5 = opt_pair("--sort"@, SearchSort::option_text(b.sort));
    let p6 = opt_pair("--depth"@, DiscoveryDepth::option_text(b.depth));
    let p7 = opt_pair("--limit"@, u32_text(b.limit));
    lemma_inserted_piece(piece, p7);
    let before = p0 + p1 + p2 + p3 + p4 + p5 + p6;
    lemma_inserted_before(before, piece, p7, piece, 0);
    assert(inserted_at(search_target(f), search_target(b), piece, before.len() as int));
    reveal(search_filters);
    let inner = before.len() as int;
    lemma_inserted_after(search_target(f), search_target(b), piece, inner, search_scope(b));
    lemma_inserted_after((search_target(f)) + search_scope(b), (search_target(b)) + search_scope(b), piece, inner, search_counts(b));
    lemma_inserted_after(((search_target(f)) + search_scope(b)) + search_counts(b), ((search_target(b)) + search_scope(b)) + search_counts(b), piece, inner, search_dates(b));
    let at = inner;
    assert(inserted_at(search_filters(f), search_filters(b), piece, at));
    lemma_inserted_after(search_filters(f), search_filters(b), piece, at, search_extras(b));
    lemma_inserted_after(search_filters(f) + search_extras(b), search_filters(b) + search_extras(b), piece, at, json_output_options());
    assert(inserted_at(search_argv(f), search_argv(b), piece, at));
}

/// A `user` value `v` puts in `--user v`, once.
pub proof fn law_search_user(a: SearchArgs, v: String)
    ensures
        inserted(
            search_argv((SearchArgs { user: Some(v), ..a })),
            search_argv((SearchArgs { user: None, ..a })),
            seq!["--user"@, v@],
        ),
{
    let f = SearchArgs { user: Some(v), ..a };
    let b = SearchArgs { user: None, ..a };
    let piece = seq!["--user"@, v@];
    lemma_search_frame(f, b);
    reveal(search_scope);
    let p0 = opt_pair("--user"@, b.user.deep_view());
    let p1 = opt_pair("--org"@, b.org.deep_view());
    let p2 = opt_pair("--archived"@, BoolFlag::option_text(b.archived));
    let p3 = opt_pair("--template"@, BoolFlag::option_text(b.template));
    let p4 = opt_pair("--fork"@, ForkMode::option_text(b.fork));
    let p5 = repeat_pairs("--language"@, b.language.deep_view());
    let p6 = repeat_pairs("--topic"@, b.topic.deep_view());
    let p7 = repeat_pairs("--license"@, b.license.deep_view());
    lemma_inserted_piece(piece, p0);
    lemma_inserted_after(piece, p0, piece, 0int, p1);
    lemma_inserted_after((piece) + p1, (p0) + p1, piece, 0int, p2);
    lemma_inserted_after(((piece) + p1) + p2, ((p0) + p1) + p2, piece, 0int, p3);
    lemma_inserted_after((((piece) + p1) + p2) + p3, (((p0) + p1) + p2) + p3, piece, 0int, p4);
    lemma_inserted_after(((((piece) + p1) + p2) + p3) + p4, ((((p0) + p1) + p2) + p3) + p4, piece, 0int, p5);
    lemma_inserted_after((((((piece) + p1) + p2) + p3) + p4) + p5, (((((p0) + p1) + p2) + p3) + p4) + p5, piece, 0int, p6);
    lemma_inserted_after(((((((piece) + p1) + p2) + p3) + p4) + p5) + p6, ((((((p0) + p1) + p2) + p3) + p4) + p5) + p6, piece, 0int, p7);
    assert(inserted_at(search_scope(f), search_scope(b), piece, 0int));
    reveal(search_filters);
    let inner = 0int;
    let groups_before = (search_target(b));
    lemma_inserted_before(groups_before, search_scope(f), search_scope(b), piece, inner);
    lemma_inserted_after(groups_before + search_scope(f), groups_before + search_scope(b), piece, groups_before.len() as int + inner, search_counts(b));
    lemma_inserted_after((groups_before + search_scope(f)) + search_counts(b), (groups_before + search_scope(b)) + search_counts(b), piece, groups_before.len() as int + inner, search_dates(b));
    let at = groups_before.len() as int + inner;
    assert(inserted_at(search_filters(f), search_filters(b), piece, at));
    lemma_inserted_after(search_filters(f), search_filters(b), piece, at, search_extras(b));
    lemma_inserted_after(search_filters(f) + search_extras(b), search_filters(b) + search_extras(b), piece, at, json_output_options());
    assert(inserted_at(search_argv(f), search_argv(b), piece, at));
}

/// A `org` value `v` puts in `--org v`, once.
pub proof fn law_search_org(a: SearchArgs, v: String)
    ensures
        inserted(
            search_argv((SearchArgs { org: Some(v), ..a })),
            search_argv((SearchArgs { org: None, ..a })),
            seq!["--org"@, v@],
        ),
{
    let f = SearchArgs { org: Some(v), ..a };
    let b = SearchArgs { org: None, ..a };
    let piece = seq!["--org"@, v@];
    lemma_search_frame(f, b);
    reveal(search_scope);
    let p0 = opt_pair("--user"@, b.user.deep_view());
    let p1 = opt_pair("--org"@, b.org.deep_view());
    let p2 = opt_pair("--archived"@, BoolFlag::option_text(b.archived));
    let p3 = opt_pair("--template"@, BoolFlag::option_text(b.template));
    let p4 = opt_pair("--fork"@, ForkMode::option_text(b.fork));
    let p5 = repeat_pairs("--language"@, b.language.deep_view());
    let p6 = repeat_pairs("--topic"@, b.topic.deep_view());
    let p7 = repeat_pairs("--license"@, b.license.deep_view());
    lemma_inserted_piece(piece, p1);
    let before = p0;
    lemma_inserted_before(before, piece, p1, piece, 0);
    lemma_inserted_after(before + piece, before + p1, piece, before.len() as int, p2);
    lemma_inserted_after((before + piece) + p2, (before + p1) + p2, piece, before.len() as int, p3);
    lemma_inserted_after(((before + piece) + p2) + p3, ((before + p1) + p2) + p3, piece, before.len() as int, p4);
    lemma_inserted_after((((before + piece) + p2) + p3) + p4, (((before + p1) + p2) + p3) + p4, piece, before.len() as int, p5);
    lemma_inserted_after(((((before + piece) + p2) + p3) + p4) + p5, ((((before + p1) + p2) + p3) + p4) + p5, piece, before.len() as int, p6);
    lemma_inserted_after((((((before + piece) + p2) + p3) + p4) + p5) + p6, (((((before + p1) + p2) + p3) + p4) + p5) + p6, piece, before.len() as int, p7);
    assert(inserted_at(search_scope(f), search_scope(b), piece, before.len() as int));
    reveal(search_filters);
    let inner = before.len() as int;
    let groups_before = (search_target(b));
    lemma_inserted_before(groups_before, search_scope(f), search_scope(b), piece, inner);
    lemma_inserted_after(groups_before + search_scope(f), groups_before + search_scope(b), piece, groups_before.len() as int + inner, search_counts(b));
    lemma_inserted_after((groups_before + search_scope(f)) + search_counts(b), (groups_before + search_scope(b)) + search_counts(b), piece, groups_before.len() as int + inner, search_dates(b));
    let at = groups_before.len() as int + inner;
    assert(inserted_at(search_filters(f), search_filters(b), piece, at));
    lemma_inserted_after(search_filters(f), search_filters(b), piece, at, search_extras(b));
    lemma_inserted_after(search_filters(f) + search_extras(b), search_filters(b) + search_extras(b), piece, at, json_output_options());
    assert(inserted_at(search_argv(f), search_argv(b), piece, at));
}

/// A `archived` choice puts in `--archived` followed by its word, once.
pub proof fn law_search_archived(a: SearchArgs, v: BoolFlag)
    ensures
        inserted(
            search_argv((SearchArgs { archived: Some(v), ..a })),
            search_argv((SearchArgs { archived: None, ..a })),
            seq!["--archived"@, v.text()],
        ),
{
    let f = SearchArgs { archived: Some(v), ..a };
    let b = SearchArgs { archived: None, ..a };
    let piece = seq!["--archived"@, v.text()];
    lemma_search_frame(f, b);
    reveal(search_scope);
    let p0 = opt_pair("--user"@, b.user.deep_view());
    let p1 = opt_pair("--org"@, b.org.deep_view());
    let p2 = opt_pair("--archived"@, BoolFlag::option_text(b.archived));
    let p3 = opt_pair("--template"@, BoolFlag::option_text(b.template));
    let p4 = opt_pair("--fork"@, ForkMode::option_text(b.fork));
    let p5 = repeat_pairs("--language"@, b.language.deep_view());
    let p6 = repeat_pairs("--topic"@, b.topic.deep_view());
    let p7 = repeat_pairs("--license"@, b.license.deep_view());
    lemma_inserted_piece(piece, p2);
    let before = p0 + p1;
    lemma_inserted_before(before, piece, p2, piece, 0);
    lemma_inserted_after(before + piece, before + p2, piece, before.len() as int, p3);
    lemma_inserted_after((before + piece) + p3, (before + p2) + p3, piece, before.len() as int, p4);
    lemma_inserted_after(((before + piece) + p3) + p4, ((before + p2) + p3) + p4, piece, before.len() as int, p5);
    lemma_inserted_after((((before + piece) + p3) + p4) + p5, (((before + p2) + p3) + p4) + p5, piece, before.len() as int, p6);
    lemma_inserted_after(((((before + piece) + p3) + p4) + p5) + p6, ((((before + p2) + p3) + p4) + p5) + p6, piece, before.len() as int, p7);
    assert(inserted_at(search_scope(f), search_scope(b), piece, before.len() as int));
    reveal(search_filters);
    let inner = before.len() as int;
    let groups_before = (search_target(b));
    lemma_inserted_before(groups_before, search_scope(f), search_scope(b), piece, inner);
    lemma_inserted_after(groups_before + search_scope(f), groups_before + search_scope(b), piece, groups_before.len() as int + inner, search_counts(b));
    lemma_inserted_after((groups_before + search_scope(f)) + search_counts(b), (groups_before + search_scope(b)) + search_counts(b), piece, groups_before.len() as int + inner, search_dates(b));
    let at = groups_before.len() as int + inner;
    assert(inserted_at(search_filters(f), search_filters(b), piece, at));
    lemma_inserted_after(search_filters(f), search_filters(b), piece, at, search_extras(b));
    lemma_inserted_after(search_filters(f) + search_extras(b), search_filters(b) + search_extras(b), piece, at, json_output_options());
    assert(inserted_at(search_argv(f), search_argv(b), piece, at));
}

/// A `template` choice puts in `--template` followed by its word, once.
pub proof fn law_search_template(a: SearchArgs, v: BoolFlag)
    ensures
        inserted(
            search_argv((SearchArgs { template: Some(v), ..a })),
            search_argv((SearchArgs { template: None, ..a })),
            seq!["--template"@, v.text()],
        ),
{
    let f = SearchArgs { template: Some(v), ..a };
    let b = SearchArgs { template: None, ..a };
    let piece = seq!["--template"@, v.text()];
    lemma_search_frame(f, b);
    reveal(search_scope);
    let p0 = opt_pair("--user"@, b.user.deep_view());
    let p1 = opt_pair("--org"@, b.org.deep_view());
    let p2 = opt_pair("--archived"@, BoolFlag::option_text(b.archived));
    let p3 = opt_pair("--template"@, BoolFlag::option_text(b.template));
    let p4 = opt_pair("--fork"@, ForkMode::option_text(b.fork));
    let p5 = repeat_pairs("--language"@, b.language.deep_view());
    let p6 = repeat_pairs("--topic"@, b.topic.deep_view());
    let p7 = repeat_pairs("--license"@, b.license.deep_view());
    lemma_inserted_piece(piece, p3);
    let before = p0 + p1 + p2;
    lemma_inserted_before(before, piece, p3, piece, 0);
    lemma_inserted_after(before + piece, before + p3, piece, before.len() as int, p4);
    lemma_inserted_after((before + piece) + p4, (before + p3) + p4, piece, before.len() as int, p5);
    lemma_inserted_after(((before + piece) + p4) + p5, ((before + p3) + p4) + p5, piece, before.len() as int, p6);
    lemma_inserted_after((((before + piece) + p4) + p5) + p6, (((before + p3) + p4) + p5) + p6, piece, before.len() as int, p7);
    assert(inserted_at(search_scope(f), search_scope(b), piece, before.len() as int));
    reveal(search_filters);
    let inner = before.len() as int;
    let groups_before = (search_target(b));
    lemma_inserted_before(groups_before, search_scope(f), search_scope(b), piece, inner);
    lemma_inserted_after(groups_before + search_scope(f), groups_before + search_scope(b), piece, groups_before.len() as int + inner, search_counts(b));
    lemma_inserted_after((groups_before + search_scope(f)) + search_counts(b), (groups_before + search_scope(b)) + search_counts(b), piece, groups_before.len() as int + inner, search_dates(b));
    let at = groups_before.len() as int + inner;
    assert(inserted_at(search_filters(f), search_filters(b), piece, at));
    lemma_inserted_after(search_filters(f), search_filters(b), piece, at, search_extras(b));
    lemma_inserted_after(search_filters(f) + search_extras(b), search_filters(b) + search_extras(b), piece, at, json_output_options());
    assert(inserted_at(search_argv(f), search_argv(b), piece, at));
}

/// A `fork` choice puts in `--fork` followed by its word, once.
pub proof fn law_search_fork(a: SearchArgs, v: ForkMode)
    ensures
        inserted(
            search_argv((SearchArgs { fork: Some(v), ..a })),
            search_argv((SearchArgs { fork: None, ..a })),
            seq!["--fork"@, v.text()],
        ),
{
    let f = SearchArgs { fork: Some(v), ..a };
    let b = SearchArgs { fork: None, ..a };
    let piece = seq!["--fork"@, v.text()];
    lemma_search_frame(f, b);
    reveal(search_scope);
    let p0 = opt_pair("--user"@, b.user.deep_view());
    let p1 = opt_pair("--org"@, b.org.deep_view());
    let p2 = opt_pair("--archived"@, BoolFlag::option_text(b.archived));
    let p3 = opt_pair("--template"@, BoolFlag::option_text(b.template));
    let p4 = opt_pair("--fork"@, ForkMode::option_text(b.fork));
    let p5 = repeat_pairs("--language"@, b.language.deep_view());
    let p6 = repeat_pairs("--topic"@, b.topic.deep_view());
    let p7 = repeat_pairs("--license"@, b.license.deep_view());
    lemma_inserted_piece(piece, p4);
    let before = p0 + p1 + p2 + p3;
    lemma_inserted_before(before, piece, p4, piece, 0);
    lemma_inserted_after(before + piece, before + p4, piece, before.len() as int, p5);
    lemma_inserted_after((before + piece) + p5, (before + p4) + p5, piece, before.len() as int, p6);
    lemma_inserted_after(((before + piece) + p5) + p6, ((before + p4) + p5) + p6, piece, before.len() as int, p7);
    assert(inserted_at(search_scope(f), search_scope(b), piece, before.len() as int));
    reveal(search_filters);
    let inner = before.len() as int;
    let groups_before = (search_target(b));
    lemma_inserted_before(groups_before, search_scope(f), search_scope(b), piece, inner);
    lemma_inserted_after(groups_before + search_scope(f), groups_before + search_scope(b), piece, groups_before.len() as int + inner, search_counts(b));
    lemma_inserted_after((groups_before + search_scope(f)) + search_counts(b), (groups_before + search_scope(b)) + search_counts(b), piece, groups_before.len() as int + inner, search_dates(b));
    let at = groups_before.len() as int + inner;
    assert(inserted_at(search_filters(f), search_filters(b), piece, at));
    lemma_inserted_after(search_filters(f), search_filters(b), piece, at, search_extras(b));
    lemma_inserted_after(search_filters(f) + search_extras(b), search_filters(b) + search_extras(b), piece, at, json_output_options());
    assert(inserted_at(search_argv(f), search_argv(b), piece, at));
}

/// Each of the given `language` values goes in after its own `--language`, in order, all at one place of the search line.
pub proof fn law_search_language(a: SearchArgs, values: Vec<String>, empty: Vec<String>)
    requires
        empty@.len() == 0,
    ensures
        inserted(
            search_argv((SearchArgs { language: values, ..a })),
            search_argv((SearchArgs { language: empty, ..a })),
            repeat_pairs("--language"@, values.deep_view()),
        ),
        flag_before_each(repeat_pairs("--language"@, values.deep_view()), "--language"@, values.deep_view()),
{
    let f = SearchArgs { language: values, ..a };
    let b = SearchArgs { language: empty, ..a };
    let piece = repeat_pairs("--language"@, values.deep_view());
    assert(empty.deep_view() =~= Seq::<Seq<char>>::empty());
    law_repeat_pairs_layout("--language"@, values.deep_view());
    lemma_search_frame(f, b);
    reveal(search_scope);
    let p0 = opt_pair("--user"@, b.user.deep_view());
    let p1 = opt_pair("--org"@, b.org.deep_view());
    let p2 = opt_pair("--archived"@, BoolFlag::option_text(b.archived));
    let p3 = opt_pair("--template"@, BoolFlag::option_text(b.template));
    let p4 = opt_pair("--fork"@, ForkMode::option_text(b.fork));
    let p5 = repeat_pairs("--language"@, b.language.deep_view());
    let p6 = repeat_pairs("--topic"@, b.topic.deep_view());
    let p7 = repeat_pairs("--license"@, b.license.deep_view());
    lemma_inserted_piece(piece, p5);
    let before = p0 + p1 + p2 + p3 + p4;
    lemma_inserted_before(before, piece, p5, piece, 0);
    lemma_inserted_after(before + piece, before + p5, piece, before.len() as int, p6);
    lemma_inserted_after((before + piece) + p6, (before + p5) + p6, piece, before.len() as int, p7);
    assert(inserted_at(search_scope(f), search_scope(b), piece, before.len() as int));
    reveal(search_filters);
    let inner = before.len() as int;
    let groups_before = (search_target(b));
    lemma_inserted_before(groups_before, search_scope(f), search_scope(b), piece, inner);
    lemma_inserted_after(groups_before + search_scope(f), groups_before + search_scope(b), piece, groups_before.len() as int + inner, search_counts(b));
    lemma_inserted_after((groups_before + search_scope(f)) + search_counts(b), (groups_before + search_scope(b)) + search_counts(b), piece, groups_before.len() as int + inner, search_dates(b));
    let at = groups_before.len() as int + inner;
    assert(inserted_at(search_filters(f), search_filters(b), piece, at));
    lemma_inserted_after(search_filters(f), search_filters(b), piece, at, search_extras(b));
    lemma_inserted_after(search_filters(f) + search_extras(b), search_filters(b) + search_extras(b), piece, at, json_output_options());
    assert(inserted_at(search_argv(f), search_argv(b), piece, at));
}

/// Each of the given `topic` values goes in after its own `--topic`, in order, all at one place of the search line.
pub proof fn law_search_topic(a: SearchArgs, values: Vec<String>, empty: Vec<String>)
    requires
        empty@.len() == 0,
    ensures
        inserted(
            search_argv((SearchArgs { topic: values, ..a })),
            search_argv((SearchArgs { topic: empty, ..a })),
            repeat_pairs("--topic"@, values.deep_view()),
        ),
        flag_before_each(repeat_pairs("--topic"@, values.deep_view()), "--topic"@, values.deep_view()),
{
    let f = SearchArgs { topic: values, ..a };
    let b = SearchArgs { topic: empty, ..a };
    let piece = repeat_pairs("--topic"@, values.deep_view());
    assert(empty.deep_view() =~= Seq::<Seq<char>>::empty());
    law_repeat_pairs_layout("--topic"@, values.deep_view());
    lemma_search_frame(f, b);
    reveal(search_scope);
    let p0 = opt_pair("--user"@, b.user.deep_view());
    let p1 = opt_pair("--org"@, b.org.deep_view());
    let p2 = opt_pair("--archived"@, BoolFlag::option_text(b.archived));
    let p3 = opt_pair("--template"@, BoolFlag::option_text(b.template));
    let p4 = opt_pair("--fork"@, ForkMode::option_text(b.fork));
    let p5 = repeat_pairs("--language"@, b.language.deep_view());
    let p6 = repeat_pairs("--topic"@, b.topic.deep_view());
    let p7 = repeat_pairs("--license"@, b.license.deep_view());
    lemma_inserted_piece(piece, p6);
    let before = p0 + p1 + p2 + p3 + p4 + p5;
    lemma_inserted_before(before, piece, p6, piece, 0);
    lemma_inserted_after(before + piece, before + p6, piece, before.len() as int, p7);
    assert(inserted_at(search_scope(f), search_scope(b), piece, before.len() as int));
    reveal(search_filters);
    let inner = before.len() as int;
    let groups_before = (search_target(b));
    lemma_inserted_before(groups_before, search_scope(f), search_scope(b), piece, inner);
    lemma_inserted_after(groups_before + search_scope(f), groups_before + search_scope(b), piece, groups_before.len() as int + inner, search_counts(b));
    lemma_inserted_after((groups_before + search_scope(f)) + search_counts(b), (groups_before + search_scope(b)) + search_counts(b), piece, groups_before.len() as int + inner, search_dates(b));
    let at = groups_before.len() as int + inner;
    assert(inserted_at(search_filters(f), search_filters(b), piece, at));
    lemma_inserted_after(search_filters(f), search_filters(b), piece, at, search_extras(b));
    lemma_inserted_after(search_filters(f) + search_extras(b), search_filters(b) + search_extras(b), piece, at, json_output_options());
    assert(inserted_at(search_argv(f), search_argv(b), piece, at));
}

/// Each of the given `license` values goes in after its own `--license`, in order, all at one place of the search line.
pub proof fn law_search_license(a: SearchArgs, values: Vec<String>, empty: Vec<String>)
    requires
        empty@.len() == 0,
    ensures
        inserted(
            search_argv((SearchArgs { license: values, ..a })),
            search_argv((SearchArgs { license: empty, ..a })),
            repeat_pairs("--license"@, values.deep_view()),
        ),
        flag_before_each(repeat_pairs("--license"@, values.deep_view()), "--license"@, values.deep_view()),
{
    let f = SearchArgs { license: values, ..a };
    let b = SearchArgs { license: empty, ..a };
    let piece = repeat_pairs("--license"@, values.deep_view());
    assert(empty.deep_view() =~= Seq::<Seq<char>>::empty());
    law_repeat_pairs_layout("--license"@, values.deep_view());
    lemma_search_frame(f, b);
    reveal(search_scope);
    let p0 = opt_pair("--user"@, b.user.deep_view());
    let p1 = opt_pair("--org"@, b.org.deep_view());
    let p2 = opt_pair("--archived"@, BoolFlag::option_text(b.archived));
    let p3 = opt_pair("--template"@, BoolFlag::option_text(b.template));
    let p4 = opt_pair("--fork"@, ForkMode::option_text(b.fork));
    let p5 = repeat_pairs("--language"@, b.language.deep_view());
    let p6 = repeat_pairs("--topic"@, b.topic.deep_view());
    let p7 = repeat_pairs("--license"@, b.license.deep_view());
    lemma_inserted_piece(piece, p7);
    let before = p0 + p1 + p2 + p3 + p4 + p5 + p6;
    lemma_inserted_before(before, piece, p7, piece, 0);
    assert(inserted_at(search_scope(f), search_scope(b), piece, before.len() as int));
    reveal(search_filters);
    let inner = before.len() as int;
    let groups_before = (search_target(b));
    lemma_inserted_before(groups_before, search_scope(f), search_scope(b), piece, inner);
    lemma_inserted_after(groups_before + search_scope(f), groups_before + search_scope(b), piece, groups_before.len() as int + inner, search_counts(b));
    lemma_inserted_after((groups_before + search_scope(f)) + search_counts(b), (groups_before + search_scope(b)) + search_counts(b), piece, groups_before.len() as int + inner, search_dates(b));
    let at = groups_before.len() as int + inner;
    assert(inserted_at(search_filters(f), search_filters(b), piece, at));
    lemma_inserted_after(search_filters(f), search_filters(b), piece, at, search_extras(b));
    lemma_inserted_after(search_filters(f) + search_extras(b), search_filters(b) + search_extras(b), piece, at, json_output_options());
    assert(inserted_at(search_argv(f), search_argv(b), piece, at));
}

/// A `min_stars` of `n` puts in `--min-stars` followed by the decimal text of `n`, once.
pub proof fn law_search_min_stars(a: SearchArgs, n: u64)
    ensures
        inserted(
            search_argv((SearchArgs { min_stars: Some(n), ..a })),
            search_argv((SearchArgs { min_stars: None, ..a })),
            seq!["--min-stars"@, decimal(n as nat)],
        ),
{
    let f = SearchArgs { min_stars: Some(n), ..a };
    let b = SearchArgs { min_stars: None, ..a };
    let piece = seq!["--min-stars"@, decimal(n as nat)];
    lemma_search_frame(f, b);
    reveal(search_counts);
    let p0 = opt_pair("--min-stars"@, u64_text(b.min_stars));
    let p1 = opt_pair("--max-stars"@, u64_text(b.max_stars));
    let p2 = opt_pair("--min-forks"@, u64_text(b.min_forks));
    let p3 = opt_pair("--max-forks"@, u64_text(b.max_forks));
    let p4 = opt_pair("--min-size"@, u64_text(b.min_size));
    let p5 = opt_pair("--max-size"@, u64_text(b.max_size));
    lemma_inserted_piece(piece, p0);
    lemma_inserted_after(piece, p0, piece, 0int, p1);
    lemma_inserted_after((piece) + p1, (p0) + p1, piece, 0int, p2);
    lemma_inserted_after(((piece) + p1) + p2, ((p0) + p1) + p2, piece, 0int, p3);
    lemma_inserted_after((((piece) + p1) + p2) + p3, (((p0) + p1) + p2) + p3, piece, 0int, p4);
    lemma_inserted_after(((((piece) + p1) + p2) + p3) + p4, ((((p0) + p1) + p2) + p3) + p4, piece, 0int, p5);
    assert(inserted_at(search_counts(f), search_counts(b), piece, 0int));
    reveal(search_filters);
    let inner = 0int;
    let groups_before = (search_target(b) + search_scope(b));
    lemma_inserted_before(groups_before, search_counts(f), search_counts(b), piece, inner);
    lemma_inserted_after(groups_before + search_counts(f), groups_before + search_counts(b), piece, groups_before.len() as int + inner, search_dates(b));
    let at = groups_before.len() as int + inner;
    assert(inserted_at(search_filters(f), search_filters(b), piece, at));
    lemma_inserted_after(search_filters(f), search_filters(b), piece, at, search_extras(b));
    lemma_inserted_after(search_filters(f) + search_extras(b), search_filters(b) + search_extras(b), piece, at, json_output_options());
    assert(inserted_at(search_argv(f), search_argv(b), piece, at));
}

/// A `max_stars` of `n` puts in `--max-stars` followed by the decimal text of `n`, once.
pub proof fn law_search_max_stars(a: SearchArgs, n: u64)
    ensures
        inserted(
            search_argv((SearchArgs { max_stars: Some(n), ..a })),
            search_argv((SearchArgs { max_stars: None, ..a })),
            seq!["--max-stars"@, decimal(n as nat)],
        ),
{
    let f = SearchArgs { max_stars: Some(n), ..a };
    let b = SearchArgs { max_stars: None, ..a };
    let piece = seq!["--max-stars"@, decimal(n as nat)];
    lemma_search_frame(f, b);
    reveal(search_counts);
    let p0 = opt_pair("--min-stars"@, u64_text(b.min_stars));
    let p1 = opt_pair("--max-stars"@, u64_text(b.max_stars));
    let p2 = opt_pair("--min-forks"@, u64_text(b.min_forks));
    let p3 = opt_pair("--max-forks"@, u64_text(b.max_forks));
    let p4 = opt_pair("--min-size"@, u64_text(b.min_size));
    let p5 = opt_pair("--max-size"@, u64_text(b.max_size));
    lemma_inserted_piece(piece, p1);
    let before = p0;
    lemma_inserted_before(before, piece, p1, piece, 0);
    lemma_inserted_after(before + piece, before + p1, piece, before.len() as int, p2);
    lemma_inserted_after((before + piece) + p2, (before + p1) + p2, piece, before.len() as int, p3);
    lemma_inserted_after(((before + piece) + p2) + p3, ((before + p1) + p2) + p3, piece, before.len() as int, p4);
    lemma_inserted_after((((before + piece) + p2) + p3) + p4, (((before + p1) + p2) + p3) + p4, piece, before.len() as int, p5);
    assert(inserted_at(search_counts(f), search_counts(b), piece, before.len() as int));
    reveal(search_filters);
    let inner = before.len() as int;
    let groups_before = (search_target(b) + search_scope(b));
    lemma_inserted_before(groups_before, search_counts(f), search_counts(b), piece, inner);
    lemma_inserted_after(groups_before + search_counts(f), groups_before + search_counts(b), piece, groups_before.len() as int + inner, search_dates(b));
    let at = groups_before.len() as int + inner;
    assert(inserted_at(search_filters(f), search_filters(b), piece, at));
    lemma_inserted_after(search_filters(f), search_filters(b), piece, at, search_extras(b));
    lemma_inserted_after(search_filters(f) + search_extras(b), search_filters(b) + search_extras(b), piece, at, json_output_options());
    assert(inserted_at(search_argv(f), search_argv(b), piece, at));
}

/// A `min_forks` of `n` puts in `--min-forks` followed by the decimal text of `n`, once.
pub proof fn law_search_min_forks(a: SearchArgs, n: u64)
    ensures
        inserted(
            search_argv((SearchArgs { min_forks: Some(n), ..a })),
            search_argv((SearchArgs { min_forks: None, ..a })),
            seq!["--min-forks"@, decimal(n as nat)],
        ),
{
    let f = SearchArgs { min_forks: Some(n), ..a };
    let b = SearchArgs { min_forks: None, ..a };
    let piece = seq!["--min-forks"@, decimal(n as nat)];
    lemma_search_frame(f, b);
    reveal(search_counts);
    let p0 = opt_pair("--min-stars"@, u64_text(b.min_stars));
    let p1 = opt_pair("--max-stars"@, u64_text(b.max_stars));
    let p2 = opt_pair("--min-forks"@, u64_text(b.min_forks));
    let p3 = opt_pair("--max-forks"@, u64_text(b.max_forks));
    let p4 = opt_pair("--min-size"@, u64_text(b.min_size));
    let p5 = opt_pair("--max-size"@, u64_text(b.max_size));
    lemma_inserted_piece(piece, p2);
    let before = p0 + p1;
    lemma_inserted_before(before, piece, p2, piece, 0);
    lemma_inserted_after(before + piece, before + p2, piece, before.len() as int, p3);
    lemma_inserted_after((before + piece) + p3, (before + p2) + p3, piece, before.len() as int, p4);
    lemma_inserted_after(((before + piece) + p3) + p4, ((before + p2) + p3) + p4, piece, before.len() as int, p5);
    assert(inserted_at(search_counts(f), search_counts(b), piece, before.len() as int));
    reveal(search_filters);
    let inner = before.len() as int;
    let groups_before = (search_target(b) + search_scope(b));
    lemma_inserted_before(groups_before, search_counts(f), search_counts(b), piece, inner);
    lemma_inserted_after(groups_before + search_counts(f), groups_before + search_counts(b), piece, groups_before.len() as int + inner, search_dates(b));
    let at = groups_before.len() as int + inner;
    assert(inserted_at(search_filters(f), search_filters(b), piece, at));
    lemma_inserted_after(search_filters(f), search_filters(b), piece, at, search_extras(b));
    lemma_inserted_after(search_filters(f) + search_extras(b), search_filters(b) + search_extras(b), piece, at, json_output_options());
    assert(inserted_at(search_argv(f), search_argv(b), piece, at));
}

/// A `max_forks` of `n` puts in `--max-forks` followed by the decimal text of `n`, once.
pub proof fn law_search_max_forks(a: SearchArgs, n: u64)
    ensures
        inserted(
            search_argv((SearchArgs { max_forks: Some(n), ..a })),
            search_argv((SearchArgs { max_forks: None, ..a })),
            seq!["--max-forks"@, decimal(n as nat)],
        ),
{
    let f = SearchArgs { max_forks: Some(n), ..a };
    let b = SearchArgs { max_forks: None, ..a };
    let piece = seq!["--max-forks"@, decimal(n as nat)];
    lemma_search_frame(f, b);
    reveal(search_counts);
    let p0 = opt_pair("--min-stars"@, u64_text(b.min_stars));
    let p1 = opt_pair("--max-stars"@, u64_text(b.max_stars));
    let p2 = opt_pair("--min-forks"@, u64_text(b.min_forks));
    let p3 = opt_pair("--max-forks"@, u64_text(b.max_forks));
    let p4 = opt_pair("--min-size"@, u64_text(b.min_size));
    let p5 = opt_pair("--max-size"@, u64_text(b.max_size));
    lemma_inserted_piece(piece, p3);
    let before = p0 + p1 + p2;
    lemma_inserted_before(before, piece, p3, piece, 0);
    lemma_inserted_after(before + piece, before + p3, piece, before.len() as int, p4);
    lemma_inserted_after((before + piece) + p4, (before + p3) + p4, piece, before.len() as int, p5);
    assert(inserted_at(search_counts(f), search_counts(b), piece, before.len() as int));
    reveal(search_filters);
    let inner = before.len() as int;
    let groups_before = (search_target(b) + search_scope(b));
    lemma_inserted_before(groups_before, search_counts(f), search_counts(b), piece, inner);
    lemma_inserted_after(groups_before + search_counts(f), groups_before + search_counts(b), piece, groups_before.len() as int + inner, search_dates(b));
    let at = groups_before.len() as int + inner;
    assert(inserted_at(search_filters(f), search_filters(b), piece, at));
    lemma_inserted_after(search_filters(f), search_filters(b), piece, at, search_extras(b));
    lemma_inserted_after(search_filters(f) + search_extras(b), search_filters(b) + search_extras(b), piece, at, json_output_options());
    assert(inserted_at(search_argv(f), search_argv(b), piece, at));
}

/// A `min_size` of `n` puts in `--min-size` followed by the decimal text of `n`, once.
pub proof fn law_search_min_size(a: SearchArgs, n: u64)
    ensures
        inserted(
            search_argv((SearchArgs { min_size: Some(n), ..a })),
            search_argv((SearchArgs { min_size: None, ..a })),
            seq!["--min-size"@, decimal(n as nat)],
        ),
{
    let f = SearchArgs { min_size: Some(n), ..a };
    let b = SearchArgs { min_size: None, ..a };
    let piece = seq!["--min-size"@, decimal(n as nat)];
    lemma_search_frame(f, b);
    reveal(search_counts);
    let p0 = opt_pair("--min-stars"@, u64_text(b.min_stars));
    let p1 = opt_pair("--max-stars"@, u64_text(b.max_stars));
    let p2 = opt_pair("--min-forks"@, u64_text(b.min_forks));
    let p3 = opt_pair("--max-forks"@, u64_text(b.max_forks));
    let p4 = opt_pair("--min-size"@, u64_text(b.min_size));
    let p5 = opt_pair("--max-size"@, u64_text(b.max_size));
    lemma_inserted_piece(piece, p4);
    let before = p0 + p1 + p2 + p3;
    lemma_inserted_before(before, piece, p4, piece, 0);
    lemma_inserted_after(before + piece, before + p4, piece, before.len() as int, p5);
    assert(inserted_at(search_counts(f), search_counts(b), piece, before.len() as int));
    reveal(search_filters);
    let inner = before.len() as int;
    let groups_before = (search_target(b) + search_scope(b));
    lemma_inserted_before(groups_before, search_counts(f), search_counts(b), piece, inner);
    lemma_inserted_after(groups_before + search_counts(f), groups_before + search_counts(b), piece, groups_before.len() as int + inner, search_dates(b));
    let at = groups_before.len() as int + inner;
    assert(inserted_at(search_filters(f), search_filters(b), piece, at));
    lemma_inserted_after(search_filters(f), search_filters(b), piece, at, search_extras(b));
    lemma_inserted_after(search_filters(f) + search_extras(b), search_filters(b) + search_extras(b), piece, at, json_output_options());
    assert(inserted_at(search_argv(f), search_argv(b), piece, at));
}

/// A `max_size` of `n` puts in `--max-size` followed by the decimal text of `n`, once.
pub proof fn law_search_max_size(a: SearchArgs, n: u64)
    ensures
        inserted(
            search_argv((SearchArgs { max_size: Some(n), ..a })),
            search_argv((SearchArgs { max_size: None, ..a })),
            seq!["--max-size"@, decimal(n as nat)],
        ),
{
    let f = SearchArgs { max_size: Some(n), ..a };
    let b = SearchArgs { max_size: None, ..a };
    let piece = seq!["--max-size"@, decimal(n as nat)];
    lemma_search_frame(f, b);
    reveal(search_counts);
    let p0 = opt_pair("--min-stars"@, u64_text(b.min_stars));
    let p1 = opt_pair("--max-stars"@, u64_text(b.max_stars));
    let p2 = opt_pair("--min-forks"@, u64_text(b.min_forks));
    let p3 = opt_pair("--max-forks"@, u64_text(b.max_forks));
    let p4 = opt_pair("--min-size"@, u64_text(b.min_size));
    let p5 = opt_pair("--max-size"@, u64_text(b.max_size));
    lemma_inserted_piece(piece, p5);
    let before = p0 + p1 + p2 + p3 + p4;
    lemma_inserted_before(before, piece, p5, piece, 0);
    assert(inserted_at(search_counts(f), search_counts(b), piece, before.len() as int));
    reveal(search_filters);
    let inner = before.len() as int;
    let groups_before = (search_target(b) + search_scope(b));
    lemma_inserted_before(groups_before, search_counts(f), search_counts(b), piece, inner);
    lemma_inserted_after(groups_before + search_counts(f), groups_before + search_counts(b), piece, groups_before.len() as int + inner, search_dates(b));
    let at = groups_before.len() as int + inner;
    assert(inserted_at(search_filters(f), search_filters(b), piece, at));
    lemma_inserted_after(search_filters(f), search_filters(b), piece, at, search_extras(b));
    lemma_inserted_after(search_filters(f) + search_extras(b), search_filters(b) + search_extras(b), piece, at, json_output_options());
    assert(inserted_at(search_argv(f), search_argv(b), piece, at));
}

/// A `created_after` value `v` puts in `--created-after v`, once.
pub proof fn law_search_created_after(a: SearchArgs, v: String)
    ensures
        inserted(
            search_argv((SearchArgs { created_after: Some(v), ..a })),
            search_argv((SearchArgs { created_after: None, ..a })),
            seq!["--created-after"@, v@],
        ),
{
    let f = SearchArgs { created_after: Some(v), ..a };
    let b = SearchArgs { created_after: None, ..a };
    let piece = seq!["--created-after"@, v@];
    lemma_search_frame(f, b);
    reveal(search_dates);
    let p0 = opt_pair("--created-after"@, b.created_after.deep_view());
    let p1 = opt_pair("--created-before"@, b.created_before.deep_view());
    let p2 = opt_pair("--updated-after"@, b.updated_after.deep_view());
    let p3 = opt_pair("--updated-before"@, b.updated_before.deep_view());
    let p4 = opt_pair("--pushed-after"@, b.pushed_after.deep_view());
    let p5 = opt_pair("--pushed-before"@, b.pushed_before.deep_view());
    let p6 = opt_pair("--created-within"@, b.created_within.deep_view());
    let p7 = opt_pair("--updated-within"@, b.updated_within.deep_view());
    let p8 = opt_pair("--pushed-within"@, b.pushed_within.deep_view());
    lemma_inserted_piece(piece, p0);
    lemma_inserted_after(piece, p0, piece, 0int, p1);
    lemma_inserted_after((piece) + p1, (p0) + p1, piece, 0int, p2);
    lemma_inserted_after(((piece) + p1) + p2, ((p0) + p1) + p2, piece, 0int, p3);
    lemma_inserted_after((((piece) + p1) + p2) + p3, (((p0) + p1) + p2) + p3, piece, 0int, p4);
    lemma_inserted_after(((((piece) + p1) + p2) + p3) + p4, ((((p0) + p1) + p2) + p3) + p4, piece, 0int, p5);
    lemma_inserted_after((((((piece) + p1) + p2) + p3) + p4) + p5, (((((p0) + p1) + p2) + p3) + p4) + p5, piece, 0int, p6);
    lemma_inserted_after(((((((piece) + p1) + p2) + p3) + p4) + p5) + p6, ((((((p0) + p1) + p2) + p3) + p4) + p5) + p6, piece, 0int, p7);
    lemma_inserted_after((((((((piece) + p1) + p2) + p3) + p4) + p5) + p6) + p7, (((((((p0) + p1) + p2) + p3) + p4) + p5) + p6) + p7, piece, 0int, p8);
    assert(inserted_at(search_dates(f), search_dates(b), piece, 0int));
    reveal(search_filters);
    let inner = 0int;
    let groups_before = (search_target(b) + search_scope(b) + search_counts(b));
    lemma_inserted_before(groups_before, search_dates(f), search_dates(b), piece, inner);
    let at = groups_before.len() as int + inner;
    assert(inserted_at(search_filters(f), search_filters(b), piece, at));
    lemma_inserted_after(search_filters(f), search_filters(b), piece, at, search_extras(b));
    lemma_inserted_after(search_filters(f) + search_extras(b), search_filters(b) + search_extras(b), piece, at, json_output_options());
    assert(inserted_at(search_argv(f), search_argv(b), piece, at));
}

/// A `created_before` value `v` puts in `--created-before v`, once.
pub proof fn law_search_created_before(a: SearchArgs, v: String)
    ensures
        inserted(
            search_argv((SearchArgs { created_before: Some(v), ..a })),
            search_argv((SearchArgs { created_before: None, ..a })),
            seq!["--created-before"@, v@],
        ),
{
    let f = SearchArgs { created_before: Some(v), ..a };
    let b = SearchArgs { created_before: None, ..a };
    let piece = seq!["--created-before"@, v@];
    lemma_search_frame(f, b);
    reveal(search_dates);
    let p0 = opt_pair("--created-after"@, b.created_after.deep_view());
    let p1 = opt_pair("--created-before"@, b.created_before.deep_view());
    let p2 = opt_pair("--updated-after"@, b.updated_after.deep_view());
    let p3 = opt_pair("--updated-before"@, b.updated_before.deep_view());
    let p4 = opt_pair("--pushed-after"@, b.pushed_after.deep_view());
    let p5 = opt_pair("--pushed-before"@, b.pushed_before.deep_view());
    let p6 = opt_pair("--created-within"@, b.created_within.deep_view());
    let p7 = opt_pair("--updated-within"@, b.updated_within.deep_view());
    let p8 = opt_pair("--pushed-within"@, b.pushed_within.deep_view());
    lemma_inserted_piece(piece, p1);
    let before = p0;
    lemma_inserted_before(before, piece, p1, piece, 0);
    lemma_inserted_after(before + piece, before + p1, piece, before.len() as int, p2);
    lemma_inserted_after((before + piece) + p2, (before + p1) + p2, piece, before.len() as int, p3);
    lemma_inserted_after(((before + piece) + p2) + p3, ((before + p1) + p2) + p3, piece, before.len() as int, p4);
    lemma_inserted_after((((before + piece) + p2) + p3) + p4, (((before + p1) + p2) + p3) + p4, piece, before.len() as int, p5);
    lemma_inserted_after(((((before + piece) + p2) + p3) + p4) + p5, ((((before + p1) + p2) + p3) + p4) + p5, piece, before.len() as int, p6);
    lemma_inserted_after((((((before + piece) + p2) + p3) + p4) + p5) + p6, (((((before + p1) + p2) + p3) + p4) + p5) + p6, piece, before.len() as int, p7);
    lemma_inserted_after(((((((before + piece) + p2) + p3) + p4) + p5) + p6) + p7, ((((((before + p1) + p2) + p3) + p4) + p5) + p6) + p7, piece, before.len() as int, p8);
    assert(inserted_at(search_dates(f), search_dates(b), piece, before.len() as int));
    reveal(search_filters);
    let inner = before.len() as int;
    let groups_before = (search_target(b) + search_scope(b) + search_counts(b));
    lemma_inserted_before(groups_before, search_dates(f), search_dates(b), piece, inner);
    let at = groups_before.len() as int + inner;
    assert(inserted_at(search_filters(f), search_filters(b), piece, at));
    lemma_inserted_after(search_filters(f), search_filters(b), piece, at, search_extras(b));
    lemma_inserted_after(search_filters(f) + search_extras(b), search_filters(b) + search_extras(b), piece, at, json_output_options());
    assert(inserted_at(search_argv(f), search_argv(b), piece, at));
}

/// A `updated_after` value `v` puts in `--updated-after v`, once.
pub proof fn law_search_updated_after(a: SearchArgs, v: String)
    ensures
        inserted(
            search_argv((SearchArgs { updated_after: Some(v), ..a })),
            search_argv((SearchArgs { updated_after: None, ..a })),
            seq!["--updated-after"@, v@],
        ),
{
    let f = SearchArgs { updated_after: Some(v), ..a };
    let b = SearchArgs { updated_after: None, ..a };
    let piece = seq!["--updated-after"@, v@];
    lemma_search_frame(f, b);
    reveal(search_dates);
    let p0 = opt_pair("--created-after"@, b.created_after.deep_view());
    let p1 = opt_pair("--created-before"@, b.created_before.deep_view());
    let p2 = opt_pair("--updated-after"@, b.updated_after.deep_view());
    let p3 = opt_pair("--updated-before"@, b.updated_before.deep_view());
    let p4 = opt_pair("--pushed-after"@, b.pushed_after.deep_view());
    let p5 = opt_pair("--pushed-before"@, b.pushed_before.deep_view());
    let p6 = opt_pair("--created-within"@, b.created_within.deep_view());
    let p7 = opt_pair("--updated-within"@, b.updated_within.deep_view());
    let p8 = opt_pair("--pushed-within"@, b.pushed_within.deep_view());
    lemma_inserted_piece(piece, p2);
    let before = p0 + p1;
    lemma_inserted_before(before, piece, p2, piece, 0);
    lemma_inserted_after(before + piece, before + p2, piece, before.len() as int, p3);
    lemma_inserted_after((before + piece) + p3, (before + p2) + p3, piece, before.len() as int, p4);
    lemma_inserted_after(((before + piece) + p3) + p4, ((before + p2) + p3) + p4, piece, before.len() as int, p5);
    lemma_inserted_after((((before + piece) + p3) + p4) + p5, (((before + p2) + p3) + p4) + p5, piece, before.len() as int, p6);
    lemma_inserted_after(((((before + piece) + p3) + p4) + p5) + p6, ((((before + p2) + p3) + p4) + p5) + p6, piece, before.len() as int, p7);
    lemma_inserted_after((((((before + piece) + p3) + p4) + p5) + p6) + p7, (((((before + p2) + p3) + p4) + p5) + p6) + p7, piece, before.len() as int, p8);
    assert(inserted_at(search_dates(f), search_dates(b), piece, before.len() as int));
    reveal(search_filters);
    let inner = before.len() as int;
    let groups_before = (search_target(b) + search_scope(b) + search_counts(b));
    lemma_inserted_before(groups_before, search_dates(f), search_dates(b), piece, inner);
    let at = groups_before.len() as int + inner;
    assert(inserted_at(search_filters(f), search_filters(b), piece, at));
    lemma_inserted_after(search_filters(f), search_filters(b), piece, at, search_extras(b));
    lemma_inserted_after(search_filters(f) + search_extras(b), search_filters(b) + search_extras(b), piece, at, json_output_options());
    assert(inserted_at(search_argv(f), search_argv(b), piece, at));
}

/// A `updated_before` value `v` puts in `--updated-before v`, once.
pub proof fn law_search_updated_before(a: SearchArgs, v: String)
    ensures
        inserted(
            search_argv((SearchArgs { updated_before: Some(v), ..a })),
            search_argv((SearchArgs { updated_before: None, ..a })),
            seq!["--updated-before"@, v@],
        ),
{
    let f = SearchArgs { updated_before: Some(v), ..a };
    let b = SearchArgs { updated_before: None, ..a };
    let piece = seq!["--updated-before"@, v@];
    lemma_search_frame(f, b);
    reveal(search_dates);
    let p0 = opt_pair("--created-after"@, b.created_after.deep_view());
    let p1 = opt_pair("--created-before"@, b.created_before.deep_view());
    let p2 = opt_pair("--updated-after"@, b.updated_after.deep_view());
    let p3 = opt_pair("--updated-before"@, b.updated_before.deep_view());
    let p4 = opt_pair("--pushed-after"@, b.pushed_after.deep_view());
    let p5 = opt_pair("--pushed-before"@, b.pushed_before.deep_view());
    let p6 = opt_pair("--created-within"@, b.created_within.deep_view());
    let p7 = opt_pair("--updated-within"@, b.updated_within.deep_view());
    let p8 = opt_pair("--pushed-within"@, b.pushed_within.deep_view());
    lemma_inserted_piece(piece, p3);
    let before = p0 + p1 + p2;
    lemma_inserted_before(before, piece, p3, piece, 0);
    lemma_inserted_after(before + piece, before + p3, piece, before.len() as int, p4);
    lemma_inserted_after((before + piece) + p4, (before + p3) + p4, piece, before.len() as int, p5);
    lemma_inserted_after(((before + piece) + p4) + p5, ((before + p3) + p4) + p5, piece, before.len() as int, p6);
    lemma_inserted_after((((before + piece) + p4) + p5) + p6, (((before + p3) + p4) + p5) + p6, piece, before.len() as int, p7);
    lemma_inserted_after(((((before + piece) + p4) + p5) + p6) + p7, ((((before + p3) + p4) + p5) + p6) + p7, piece, before.len() as int, p8);
    assert(inserted_at(search_dates(f), search_dates(b), piece, before.len() as int));
    reveal(search_filters);
    let inner = before.len() as int;
    let groups_before = (search_target(b) + search_scope(b) + search_counts(b));
    lemma_inserted_before(groups_before, search_dates(f), search_dates(b), piece, inner);
    let at = groups_before.len() as int + inner;
    assert(inserted_at(search_filters(f), search_filters(b), piece, at));
    lemma_inserted_after(search_filters(f), search_filters(b), piece, at, search_extras(b));
    lemma_inserted_after(search_filters(f) + search_extras(b), search_filters(b) + search_extras(b), piece, at, json_output_options());
    assert(inserted_at(search_argv(f), search_argv(b), piece, at));
}

/// A `pushed_after` value `v` puts in `--pushed-after v`, once.
pub proof fn law_search_pushed_after(a: SearchArgs, v: String)
    ensures
        inserted(
            search_argv((SearchArgs { pushed_after: Some(v), ..a })),
            search_argv((SearchArgs { pushed_after: None, ..a })),
            seq!["--pushed-after"@, v@],
        ),
{
    let f = SearchArgs { pushed_after: Some(v), ..a };
    let b = SearchArgs { pushed_after: None, ..a };
    let piece = seq!["--pushed-after"@, v@];
    lemma_search_frame(f, b);
    reveal(search_dates);
    let p0 = opt_pair("--created-after"@, b.created_after.deep_view());
    let p1 = opt_pair("--created-before"@, b.created_before.deep_view());
    let p2 = opt_pair("--updated-after"@, b.updated_after.deep_view());
    let p3 = opt_pair("--updated-before"@, b.updated_before.deep_view());
    let p4 = opt_pair("--pushed-after"@, b.pushed_after.deep_view());
    let p5 = opt_pair("--pushed-before"@, b.pushed_before.deep_view());
    let p6 = opt_pair("--created-within"@, b.created_within.deep_view());
    let p7 = opt_pair("--updated-within"@, b.updated_within.deep_view());
    let p8 = opt_pair("--pushed-within"@, b.pushed_within.deep_view());
    lemma_inserted_piece(piece, p4);
    let before = p0 + p1 + p2 + p3;
    lemma_inserted_before(before, piece, p4, piece, 0);
    lemma_inserted_after(before + piece, before + p4, piece, before.len() as int, p5);
    lemma_inserted_after((before + piece) + p5, (before + p4) + p5, piece, before.len() as int, p6);
    lemma_inserted_after(((before + piece) + p5) + p6, ((before + p4) + p5) + p6, piece, before.len() as int, p7);
    lemma_inserted_after((((before + piece) + p5) + p6) + p7, (((before + p4) + p5) + p6) + p7, piece, before.len() as int, p8);
    assert(inserted_at(search_dates(f), search_dates(b), piece, before.len() as int));
    reveal(search_filters);
    let inner = before.len() as int;
    let groups_before = (search_target(b) + search_scope(b) + search_counts(b));
    lemma_inserted_before(groups_before, search_dates(f), search_dates(b), piece, inner);
    let at = groups_before.len() as int + inner;
    assert(inserted_at(search_filters(f), search_filters(b), piece, at));
    lemma_inserted_after(search_filters(f), search_filters(b), piece, at, search_extras(b));
    lemma_inserted_after(search_filters(f) + search_extras(b), search_filters(b) + search_extras(b), piece, at, json_output_options());
    assert(inserted_at(search_argv(f), search_argv(b), piece, at));
}

/// A `pushed_before` value `v` puts in `--pushed-before v`, once.
pub proof fn law_search_pushed_before(a: SearchArgs, v: String)
    ensures
        inserted(
            search_argv((SearchArgs { pushed_before: Some(v), ..a })),
            search_argv((SearchArgs { pushed_before: None, ..a })),
            seq!["--pushed-before"@, v@],
        ),
{
    let f = SearchArgs { pushed_before: Some(v), ..a };
    let b = SearchArgs { pushed_before: None, ..a };
    let piece = seq!["--pushed-before"@, v@];
    lemma_search_frame(f, b);
    reveal(search_dates);
    let p0 = opt_pair("--created-after"@, b.created_after.deep_view());
    let p1 = opt_pair("--created-before"@, b.created_before.deep_view());
    let p2 = opt_pair("--updated-after"@, b.updated_after.deep_view());
    let p3 = opt_pair("--updated-before"@, b.updated_before.deep_view());
    let p4 = opt_pair("--pushed-after"@, b.pushed_after.deep_view());
    let p5 = opt_pair("--pushed-before"@, b.pushed_before.deep_view());
    let p6 = opt_pair("--created-within"@, b.created_within.deep_view());
    let p7 = opt_pair("--updated-within"@, b.updated_within.deep_view());
    let p8 = opt_pair("--pushed-within"@, b.pushed_within.deep_view());
    lemma_inserted_piece(piece, p5);
    let before = p0 + p1 + p2 + p3 + p4;
    lemma_inserted_before(before, piece, p5, piece, 0);
    lemma_inserted_after(before + piece, before + p5, piece, before.len() as int, p6);
    lemma_inserted_after((before + piece) + p6, (before + p5) + p6, piece, before.len() as int, p7);
    lemma_inserted_after(((before + piece) + p6) + p7, ((before + p5) + p6) + p7, piece, before.len() as int, p8);
    assert(inserted_at(search_dates(f), search_dates(b), piece, before.len() as int));
    reveal(search_filters);
    let inner = before.len() as int;
    let groups_before = (search_target(b) + search_scope(b) + search_counts(b));
    lemma_inserted_before(groups_before, search_dates(f), search_dates(b), piece, inner);
    let at = groups_before.len() as int + inner;
    assert(inserted_at(search_filters(f), search_filters(b), piece, at));
    lemma_inserted_after(search_filters(f), search_filters(b), piece, at, search_extras(b));
    lemma_inserted_after(search_filters(f) + search_extras(b), search_filters(b) + search_extras(b), piece, at, json_output_options());
    assert(inserted_at(search_argv(f), search_argv(b), piece, at));
}

/// A `created_within` value `v` puts in `--created-within v`, once.
pub proof fn law_search_created_within(a: SearchArgs, v: String)
    ensures
        inserted(
            search_argv((SearchArgs { created_within: Some(v), ..a })),
            search_argv((SearchArgs { created_within: None, ..a })),
            seq!["--created-within"@, v@],
        ),
{
    let f = SearchArgs { created_within: Some(v), ..a };
    let b = SearchArgs { created_within: None, ..a };
    let piece = seq!["--created-within"@, v@];
    lemma_search_frame(f, b);
    reveal(search_dates);
    let p0 = opt_pair("--created-after"@, b.created_after.deep_view());
    let p1 = opt_pair("--created-before"@, b.created_before.deep_view());
    let p2 = opt_pair("--updated-after"@, b.updated_after.deep_view());
    let p3 = opt_pair("--updated-before"@, b.updated_before.deep_view());
    let p4 = opt_pair("--pushed-after"@, b.pushed_after.deep_view());
    let p5 = opt_pair("--pushed-before"@, b.pushed_before.deep_view());
    let p6 = opt_pair("--created-within"@, b.created_within.deep_view());
    let p7 = opt_pair("--updated-within"@, b.updated_within.deep_view());
    let p8 = opt_pair("--pushed-within"@, b.pushed_within.deep_view());
    lemma_inserted_piece(piece, p6);
    let before = p0 + p1 + p2 + p3 + p4 + p5;
    lemma_inserted_before(before, piece, p6, piece, 0);
    lemma_inserted_after(before + piece, before + p6, piece, before.len() as int, p7);
    lemma_inserted_after((before + piece) + p7, (before + p6) + p7, piece, before.len() as int, p8);
    assert(inserted_at(search_dates(f), search_dates(b), piece, before.len() as int));
    reveal(search_filters);
    let inner = before.len() as int;
    let groups_before = (search_target(b) + search_scope(b) + search_counts(b));
    lemma_inserted_before(groups_before, search_dates(f), search_dates(b), piece, inner);
    let at = groups_before.len() as int + inner;
    assert(inserted_at(search_filters(f), search_filters(b), piece, at));
    lemma_inserted_after(search_filters(f), search_filters(b), piece, at, search_extras(b));
    lemma_inserted_after(search_filters(f) + search_extras(b), search_filters(b) + search_extras(b), piece, at, json_output_options());
    assert(inserted_at(search_argv(f), search_argv(b), piece, at));
}

/// A `updated_within` value `v` puts in `--updated-within v`, once.
pub proof fn law_search_updated_within(a: SearchArgs, v: String)
    ensures
        inserted(
            search_argv((SearchArgs { updated_within: Some(v), ..a })),
            search_argv((SearchArgs { updated_within: None, ..a })),
            seq!["--updated-within"@, v@],
        ),
{
    let f = SearchArgs { updated_within: Some(v), ..a };
    let b = SearchArgs { updated_within: None, ..a };
    let piece = seq!["--updated-within"@, v@];
    lemma_search_frame(f, b);
    reveal(search_dates);
    let p0 = opt_pair("--created-after"@, b.created_after.deep_view());
    let p1 = opt_pair("--created-before"@, b.created_before.deep_view());
    let p2 = opt_pair("--updated-after"@, b.updated_after.deep_view());
    let p3 = opt_pair("--updated-before"@, b.updated_before.deep_view());
    let p4 = opt_pair("--pushed-after"@, b.pushed_after.deep_view());
    let p5 = opt_pair("--pushed-before"@, b.pushed_before.deep_view());
    let p6 = opt_pair("--created-within"@, b.created_within.deep_view());
    let p7 = opt_pair("--updated-within"@, b.updated_within.deep_view());
    let p8 = opt_pair("--pushed-within"@, b.pushed_within.deep_view());
    lemma_inserted_piece(piece, p7);
    let before = p0 + p1 + p2 + p3 + p4 + p5 + p6;
    lemma_inserted_before(before, piece, p7, piece, 0);
    lemma_inserted_after(before + piece, before + p7, piece, before.len() as int, p8);
    assert(inserted_at(search_dates(f), search_dates(b), piece, before.len() as int));
    reveal(search_filters);
    let inner = before.len() as int;
    let groups_before = (search_target(b) + search_scope(b) + search_counts(b));
    lemma_inserted_before(groups_before, search_dates(f), search_dates(b), piece, inner);
    let at = groups_before.len() as int + inner;
    assert(inserted_at(search_filters(f), search_filters(b), piece, at));
    lemma_inserted_after(search_filters(f), search_filters(b), piece, at, search_extras(b));
    lemma_inserted_after(search_filters(f) + search_extras(b), search_filters(b) + search_extras(b), piece, at, json_output_options());
    assert(inserted_at(search_argv(f), search_argv(b), piece, at));
}

/// A `pushed_within` value `v` puts in `--pushed-within v`, once.
pub proof fn law_search_pushed_within(a: SearchArgs, v: String)
    ensures
        inserted(
            search_argv((SearchArgs { pushed_within: Some(v), ..a })),
            search_argv((SearchArgs { pushed_within: None, ..a })),
            seq!["--pushed-within"@, v@],
        ),
{
    let f = SearchArgs { pushed_within: Some(v), ..a };
    let b = SearchArgs { pushed_within: None, ..a };
    let piece = seq!["--pushed-within"@, v@];
    lemma_search_frame(f, b);
    reveal(search_dates);
    let p0 = opt_pair("--created-after"@, b.created_after.deep_view());
    let p1 = opt_pair("--created-before"@, b.created_before.deep_view());
    let p2 = opt_pair("--updated-after"@, b.updated_after.deep_view());
    let p3 = opt_pair("--updated-before"@, b.updated_before.deep_view());
    let p4 = opt_pair("--pushed-after"@, b.pushed_after.deep_view());
    let p5 = opt_pair("--pushed-before"@, b.pushed_before.deep_view());
    let p6 = opt_pair("--created-within"@, b.created_within.deep_view());
    let p7 = opt_pair("--updated-within"@, b.updated_within.deep_view());
    let p8 = opt_pair("--pushed-within"@, b.pushed_within.deep_view());
    lemma_inserted_piece(piece, p8);
    let before = p0 + p1 + p2 + p3 + p4 + p5 + p6 + p7;
    lemma_inserted_before(before, piece, p8, piece, 0);
    assert(inserted_at(search_dates(f), search_dates(b), piece, before.len() as int));
    reveal(search_filters);
    let inner = before.len() as int;
    let groups_before = (search_target(b) + search_scope(b) + search_counts(b));
    lemma_inserted_before(groups_before, search_dates(f), search_dates(b), piece, inner);
    let at = groups_before.len() as int + inner;
    assert(inserted_at(search_filters(f), search_filters(b), piece, at));
    lemma_inserted_after(search_filters(f), search_filters(b), piece, at, search_extras(b));
    lemma_inserted_after(search_filters(f) + search_extras(b), search_filters(b) + search_extras(b), piece, at, json_output_options());
    assert(inserted_at(search_argv(f), search_argv(b), piece, at));
}

/// `readme` set to `true` puts in the bare flag `--readme`, once, with no value after it.
pub proof fn law_search_readme(a: SearchArgs)
    ensures
        inserted(
            search_argv((SearchArgs { readme: Some(true), ..a })),
            search_argv((SearchArgs { readme: None, ..a })),
            seq!["--readme"@],
        ),
{
    let f = SearchArgs { readme: Some(true), ..a };
    let b = SearchArgs { readme: None, ..a };
    let piece = seq!["--readme"@];
    lemma_search_frame(f, b);
    reveal(search_extras);
    let p0 = flag_if_true("--readme"@, b.readme);
    let p1 = flag_if_true("--explain"@, b.explain);
    let p2 = opt_pair("--weight-query"@, b.weight_query.deep_view());
    let p3 = opt_pair("--weight-activity"@, b.weight_activity.deep_view());
    let p4 = opt_pair("--weight-quality"@, b.weight_quality.deep_view());
    let p5 = opt_pair("--concurrency"@, u32_text(b.concurrency));
    lemma_inserted_piece(piece, p0);
    lemma_inserted_after(piece, p0, piece, 0int, p1);
    lemma_inserted_after((piece) + p1, (p0) + p1, piece, 0int, p2);
    lemma_inserted_after(((piece) + p1) + p2, ((p0) + p1) + p2, piece, 0int, p3);
    lemma_inserted_after((((piece) + p1) + p2) + p3, (((p0) + p1) + p2) + p3, piece, 0int, p4);
    lemma_inserted_after(((((piece) + p1) + p2) + p3) + p4, ((((p0) + p1) + p2) + p3) + p4, piece, 0int, p5);
    assert(inserted_at(search_extras(f), search_extras(b), piece, 0int));
    let inner = 0int;
    lemma_inserted_before(search_filters(b), search_extras(f), search_extras(b), piece, inner);
    lemma_inserted_after(
        search_filters(b) + search_extras(f),
        search_filters(b) + search_extras(b),
        piece,
        search_filters(b).len() as int + inner,
        json_output_options(),
    );
    assert(inserted_at(search_argv(f), search_argv(b), piece, search_filters(b).len() as int + inner));
}

/// `explain` set to `true` puts in the bare flag `--explain`, once, with no value after it.
pub proof fn law_search_explain(a: SearchArgs)
    ensures
        inserted(
            search_argv((SearchArgs { explain: Some(true), ..a })),
            search_argv((SearchArgs { explain: None, ..a })),
            seq!["--explain"@],
        ),
{
    let f = SearchArgs { explain: Some(true), ..a };
    let b = SearchArgs { explain: None, ..a };
    let piece = seq!["--explain"@];
    lemma_search_frame(f, b);
    reveal(search_extras);
    let p0 = flag_if_true("--readme"@, b.readme);
    let p1 = flag_if_true("--explain"@, b.explain);
    let p2 = opt_pair("--weight-query"@, b.weight_query.deep_view());
    let p3 = opt_pair("--weight-activity"@, b.weight_activity.deep_view());
    let p4 = opt_pair("--weight-quality"@, b.weight_quality.deep_view());
    let p5 = opt_pair("--concurrency"@, u32_text(b.concurrency));
    lemma_inserted_piece(piece, p1);
    let before = p0;
    lemma_inserted_before(before, piece, p1, piece, 0);
    lemma_inserted_after(before + piece, before + p1, piece, before.len() as int, p2);
    lemma_inserted_after((before + piece) + p2, (before + p1) + p2, piece, before.len() as int, p3);
    lemma_inserted_after(((before + piece) + p2) + p3, ((before + p1) + p2) + p3, piece, before.len() as int, p4);
    lemma_inserted_after((((before + piece) + p2) + p3) + p4, (((before + p1) + p2) + p3) + p4, piece, before.len() as int, p5);
    assert(inserted_at(search_extras(f), search_extras(b), piece, before.len() as int));
    let inner = before.len() as int;
    lemma_inserted_before(search_filters(b), search_extras(f), search_extras(b), piece, inner);
    lemma_inserted_after(
        search_filters(b) + search_extras(f),
        search_filters(b) + search_extras(b),
        piece,
        search_filters(b).len() as int + inner,
        json_output_options(),
    );
    assert(inserted_at(search_argv(f), search_argv(b), piece, search_filters(b).len() as int + inner));
}

/// A `weight_query` value `v` puts in `--weight-query v`, once.
pub proof fn law_search_weight_query(a: SearchArgs, v: String)
    ensures
        inserted(
            search_argv((SearchArgs { weight_query: Some(v), ..a })),
            search_argv((SearchArgs { weight_query: None, ..a })),
            seq!["--weight-query"@, v@],
        ),
{
    let f = SearchArgs { weight_query: Some(v), ..a };
    let b = SearchArgs { weight_query: None, ..a };
    let piece = seq!["--weight-query"@, v@];
    lemma_search_frame(f, b);
    reveal(search_extras);
    let p0 = flag_if_true("--readme"@, b.readme);
    let p1 = flag_if_true("--explain"@, b.explain);
    let p2 = opt_pair("--weight-query"@, b.weight_query.deep_view());
    let p3 = opt_pair("--weight-activity"@, b.weight_activity.deep_view());
    let p4 = opt_pair("--weight-quality"@, b.weight_quality.deep_view());
    let p5 = opt_pair("--concurrency"@, u32_text(b.concurrency));
    lemma_inserted_piece(piece, p2);
    let before = p0 + p1;
    lemma_inserted_before(before, piece, p2, piece, 0);
    lemma_inserted_after(before + piece, before + p2, piece, before.len() as int, p3);
    lemma_inserted_after((before + piece) + p3, (before + p2) + p3, piece, before.len() as int, p4);
    lemma_inserted_after(((before + piece) + p3) + p4, ((before + p2) + p3) + p4, piece, before.len() as int, p5);
    assert(inserted_at(search_extras(f), search_extras(b), piece, before.len() as int));
    let inner = before.len() as int;
    lemma_inserted_before(search_filters(b), search_extras(f), search_extras(b), piece, inner);
    lemma_inserted_after(
        search_filters(b) + search_extras(f),
        search_filters(b) + search_extras(b),
        piece,
        search_filters(b).len() as int + inner,
        json_output_options(),
    );
    assert(inserted_at(search_argv(f), search_argv(b), piece, search_filters(b).len() as int + inner));
}

/// A `weight_activity` value `v` puts in `--weight-activity v`, once.
pub proof fn law_search_weight_activity(a: SearchArgs, v: String)
    ensures
        inserted(
            search_argv((SearchArgs { weight_activity: Some(v), ..a })),
            search_argv((SearchArgs { weight_activity: None, ..a })),
            seq!["--weight-activity"@, v@],
        ),
{
    let f = SearchArgs { weight_activity: Some(v), ..a };
    let b = SearchArgs { weight_activity: None, ..a };
    let piece = seq!["--weight-activity"@, v@];
    lemma_search_frame(f, b);
    reveal(search_extras);
    let p0 = flag_if_true("--readme"@, b.readme);
    let p1 = flag_if_true("--explain"@, b.explain);
    let p2 = opt_pair("--weight-query"@, b.weight_query.deep_view());
    let p3 = opt_pair("--weight-activity"@, b.weight_activity.deep_view());
    let p4 = opt_pair("--weight-quality"@, b.weight_quality.deep_view());
    let p5 = opt_pair("--concurrency"@, u32_text(b.concurrency));
    lemma_inserted_piece(piece, p3);
    let before = p0 + p1 + p2;
    lemma_inserted_before(before, piece, p3, piece, 0);
    lemma_inserted_after(before + piece, before + p3, piece, before.len() as int, p4);
    lemma_inserted_after((before + piece) + p4, (before + p3) + p4, piece, before.len() as int, p5);
    assert(inserted_at(search_extras(f), search_extras(b), piece, before.len() as int));
    let inner = before.len() as int;
    lemma_inserted_before(search_filters(b), search_extras(f), search_extras(b), piece, inner);
    lemma_inserted_after(
        search_filters(b) + search_extras(f),
        search_filters(b) + search_extras(b),
        piece,
        search_filters(b).len() as int + inner,
        json_output_options(),
    );
    assert(inserted_at(search_argv(f), search_argv(b), piece, search_filters(b).len() as int + inner));
}

/// A `weight_quality` value `v` puts in `--weight-quality v`, once.
pub proof fn law_search_weight_quality(a: SearchArgs, v: String)
    ensures
        inserted(
            search_argv((SearchArgs { weight_quality: Some(v), ..a })),
            search_argv((SearchArgs { weight_quality: None, ..a })),
            seq!["--weight-quality"@, v@],
        ),
{
    let f = SearchArgs { weight_quality: Some(v), ..a };
    let b = SearchArgs { weight_quality: None, ..a };
    let piece = seq!["--weight-quality"@, v@];
    lemma_search_frame(f, b);
    reveal(search_extras);
    let p0 = flag_if_true("--readme"@, b.readme);
    let p1 = flag_if_true("--explain"@, b.explain);
    let p2 = opt_pair("--weight-query"@, b.weight_query.deep_view());
    let p3 = opt_pair("--weight-activity"@, b.weight_activity.deep_view());
    let p4 = opt_pair("--weight-quality"@, b.weight_quality.deep_view());
    let p5 = opt_pair("--concurrency"@, u32_text(b.concurrency));
    lemma_inserted_piece(piece, p4);
    let before = p0 + p1 + p2 + p3;
    lemma_inserted_before(before, piece, p4, piece, 0);
    lemma_inserted_after(before + piece, before + p4, piece, before.len() as int, p5);
    assert(inserted_at(search_extras(f), search_extras(b), piece, before.len() as int));
    let inner = before.len() as int;
    lemma_inserted_before(search_filters(b), search_extras(f), search_extras(b), piece, inner);
    lemma_inserted_after(
        search_filters(b) + search_extras(f),
        search_filters(b) + search_extras(b),
        piece,
        search_filters(b).len() as int + inner,
        json_output_options(),
    );
    assert(inserted_at(search_argv(f), search_argv(b), piece, search_filters(b).len() as int + inner));
}

/// A `concurrency` of `n` puts in `--concurrency` followed by the decimal text of `n`, once.
pub proof fn law_search_concurrency(a: SearchArgs, n: u32)
    ensures
        inserted(
            search_argv((SearchArgs { concurrency: Some(n), ..a })),
            search_argv((SearchArgs { concurrency: None, ..a })),
            seq!["--concurrency"@, decimal(n as nat)],
        ),
{
    let f = SearchArgs { concurrency: Some(n), ..a };
    let b = SearchArgs { concurrency: None, ..a };
    let piece = seq!["--concurrency"@, decimal(n as nat)];
    lemma_search_frame(f, b);
    reveal(search_extras);
    let p0 = flag_if_true("--readme"@, b.readme);
    let p1 = flag_if_true("--explain"@, b.explain);
    let p2 = opt_pair("--weight-query"@, b.weight_query.deep_view());
    let p3 = opt_pair("--weight-activity"@, b.weight_activity.deep_view());
    let p4 = opt_pair("--weight-quality"@, b.weight_quality.deep_view());
    let p5 = opt_pair("--concurrency"@, u32_text(b.concurrency));
    lemma_inserted_piece(piece, p5);
    let before = p0 + p1 + p2 + p3 + p4;
    lemma_inserted_before(before, piece, p5, piece, 0);
    assert(inserted_at(search_extras(f), search_extras(b), piece, before.len() as int));
    let inner = before.len() as int;
    lemma_inserted_before(search_filters(b), search_extras(f), search_extras(b), piece, inner);
    lemma_inserted_after(
        search_filters(b) + search_extras(f),
        search_filters(b) + search_extras(b),
        piece,
        search_filters(b).len() as int + inner,
        json_output_options(),
    );
    assert(inserted_at(search_argv(f), search_argv(b), piece, search_filters(b).len() as int + inner));
}

/// With nothing set, a search is its subcommand and the request for JSON
/// output without progress output.
pub proof fn law_search_unset(a: SearchArgs)
    requires
        a.host is None,
        a.query is None,
        a.mode is None,
        a.rank is None,
        a.sort is None,
        a.depth is None,
        a.limit is None,
        a.user is None,
        a.org is None,
        a.archived is None,
        a.template is None,
        a.fork is None,
        a.language@.len() == 0,
        a.topic@.len() == 0,
        a.license@.len() == 0,
        a.min_stars is None,
        a.max_stars is None,
        a.min_forks is None,
        a.max_forks is None,
        a.min_size is None,
        a.max_size is None,
        a.created_after is None,
        a.created_before is None,
        a.updated_after is None,
        a.updated_before is None,
        a.pushed_after is None,
        a.pushed_before is None,
        a.created_within is None,
        a.updated_within is None,
        a.pushed_within is None,
        a.readme is None,
        a.explain is None,
        a.weight_query is None,
        a.weight_activity is None,
        a.weight_quality is None,
        a.concurrency is None,
    ensures
        search_argv(a) == seq!["search"@, "--format"@, "json"@, "--progress"@, "off"@],
{
    reveal(search_target);
    reveal(search_scope);
    reveal(search_counts);
    reveal(search_dates);
    reveal(search_extras);
    reveal(search_filters);
    assert(search_argv(a) =~= seq!["search"@, "--format"@, "json"@, "--progress"@, "off"@]);
}

/// A host override `h` puts `--host h` in front of the inspect line it joins.
pub proof fn law_inspect_host(a: InspectArgs, h: String)
    ensures
        inserted_at(
            inspect_argv((InspectArgs { host: Some(h), ..a })),
            inspect_argv((InspectArgs { host: None, ..a })),
            seq!["--host"@, h@],
            0,
        ),
{
    let f = InspectArgs { host: Some(h), ..a };
    let b = InspectArgs { host: None, ..a };
    let piece = seq!["--host"@, h@];
    let p0 = opt_pair("--host"@, b.host.deep_view());
    let p1 = seq!["inspect"@, b.repository@];
    let p2 = flag_if_true("--readme"@, b.readme);
    let p3 = json_output_options();
    lemma_inserted_piece(piece, p0);
    lemma_inserted_after(piece, p0, piece, 0int, p1);
    lemma_inserted_after((piece) + p1, (p0) + p1, piece, 0int, p2);
    lemma_inserted_after(((piece) + p1) + p2, ((p0) + p1) + p2, piece, 0int, p3);
    assert(inserted_at(inspect_argv(f), inspect_argv(b), piece, 0int));
}

/// `readme` set to `true` puts in the bare flag `--readme`, once, with no value after it.
pub proof fn law_inspect_readme(a: InspectArgs)
    ensures
        inserted(
            inspect_argv((InspectArgs { readme: Some(true), ..a })),
            inspect_argv((InspectArgs { readme: None, ..a })),
            seq!["--readme"@],
        ),
{
    let f = InspectArgs { readme: Some(true), ..a };
    let b = InspectArgs { readme: None, ..a };
    let piece = seq!["--readme"@];
    let p0 = opt_pair("--host"@, b.host.deep_view());
    let p1 = seq!["inspect"@, b.repository@];
    let p2 = flag_if_true("--readme"@, b.readme);
    let p3 = json_output_options();
    lemma_inserted_piece(piece, p2);
    let before = p0 + p1;
    lemma_inserted_before(before, piece, p2, piece, 0);
    lemma_inserted_after(before + piece, before + p2, piece, before.len() as int, p3);
    assert(inserted_at(inspect_argv(f), inspect_argv(b), piece, before.len() as int));
}

/// With no option set, the inspect line is its subcommand, its positional
/// arguments and the request for JSON output without progress output.
pub proof fn law_inspect_unset(a: InspectArgs)
    requires
        a.host is None,
        a.readme is None,
    ensures
        inspect_argv(a) == seq!["inspect"@, a.repository@, "--format"@, "json"@, "--progress"@, "off"@],
{
    assert(inspect_argv(a) =~= seq!["inspect"@, a.repository@, "--format"@, "json"@, "--progress"@, "off"@]);
}

/// A host override `h` puts `--host h` in front of the tree line it joins.
pub proof fn law_tree_host(a: TreeArgs, h: String)
    ensures
        inserted_at(
            tree_argv((TreeArgs { host: Some(h), ..a })),
            tree_argv((TreeArgs { host: None, ..a })),
            seq!["--host"@, h@],
            0,
        ),
{
    let f = TreeArgs { host: Some(h), ..a };
    let b = TreeArgs { host: None, ..a };
    let piece = seq!["--host"@, h@];
    let p0 = opt_pair("--host"@, b.host.deep_view());
    let p1 = seq!["tree"@, b.repository@];
    let p2 = opt_pair("--reference"@, b.reference.deep_view());
    let p3 = repeat_pairs("--path"@, b.paths.deep_view());
    let p4 = opt_pair("--contains"@, b.contains.deep_view());
    let p5 = opt_pair("--depth"@, u32_text(b.depth));
    let p6 = json_output_options();
    lemma_inserted_piece(piece, p0);
    lemma_inserted_after(piece, p0, piece, 0int, p1);
    lemma_inserted_after((piece) + p1, (p0) + p1, piece, 0int, p2);
    lemma_inserted_after(((piece) + p1) + p2, ((p0) + p1) + p2, piece, 0int, p3);
    lemma_inserted_after((((piece) + p1) + p2) + p3, (((p0) + p1) + p2) + p3, piece, 0int, p4);
    lemma_inserted_after(((((piece) + p1) + p2) + p3) + p4, ((((p0) + p1) + p2) + p3) + p4, piece, 0int, p5);
    lemma_inserted_after((((((piece) + p1) + p2) + p3) + p4) + p5, (((((p0) + p1) + p2) + p3) + p4) + p5, piece, 0int, p6);
    assert(inserted_at(tree_argv(f), tree_argv(b), piece, 0int));
}

/// A `reference` value `v` puts in `--reference v` right after the tree line's positional arguments.
pub proof fn law_tree_reference(a: TreeArgs, v: String)
    ensures
        inserted_at(
            tree_argv((TreeArgs { reference: Some(v), ..a })),
            tree_argv((TreeArgs { reference: None, ..a })),
            seq!["--reference"@, v@],
            (if a.host is Some { 2int } else { 0int }) + 2,
        ),
{
    let f = TreeArgs { reference: Some(v), ..a };
    let b = TreeArgs { reference: None, ..a };
    let piece = seq!["--reference"@, v@];
    let p0 = opt_pair("--host"@, b.host.deep_view());
    let p1 = seq!["tree"@, b.repository@];
    let p2 = opt_pair("--reference"@, b.reference.deep_view());
    let p3 = repeat_pairs("--path"@, b.paths.deep_view());
    let p4 = opt_pair("--contains"@, b.contains.deep_view());
    let p5 = opt_pair("--depth"@, u32_text(b.depth));
    let p6 = json_output_options();
    lemma_inserted_piece(piece, p2);
    let before = p0 + p1;
    lemma_inserted_before(before, piece, p2, piece, 0);
    lemma_inserted_after(before + piece, before + p2, piece, before.len() as int, p3);
    lemma_inserted_after((before + piece) + p3, (before + p2) + p3, piece, before.len() as int, p4);
    lemma_inserted_after(((before + piece) + p3) + p4, ((before + p2) + p3) + p4, piece, before.len() as int, p5);
    lemma_inserted_after((((before + piece) + p3) + p4) + p5, (((before + p2) + p3) + p4) + p5, piece, before.len() as int, p6);
    assert(inserted_at(tree_argv(f), tree_argv(b), piece, before.len() as int));
}

/// Each of the given `paths` values goes in after its own `--path`, in order, all at one place of the tree line.
pub proof fn law_tree_paths(a: TreeArgs, values: Vec<String>, empty: Vec<String>)
    requires
        empty@.len() == 0,
    ensures
        inserted(
            tree_argv((TreeArgs { paths: values, ..a })),
            tree_argv((TreeArgs { paths: empty, ..a })),
            repeat_pairs("--path"@, values.deep_view()),
        ),
        flag_before_each(repeat_pairs("--path"@, values.deep_view()), "--path"@, values.deep_view()),
{
    let f = TreeArgs { paths: values, ..a };
    let b = TreeArgs { paths: empty, ..a };
    let piece = repeat_pairs("--path"@, values.deep_view());
    assert(empty.deep_view() =~= Seq::<Seq<char>>::empty());
    law_repeat_pairs_layout("--path"@, values.deep_view());
    let p0 = opt_pair("--host"@, b.host.deep_view());
    let p1 = seq!["tree"@, b.repository@];
    let p2 = opt_pair("--reference"@, b.reference.deep_view());
    let p3 = repeat_pairs("--path"@, b.paths.deep_view());
    let p4 = opt_pair("--contains"@, b.contains.deep_view());
    let p5 = opt_pair("--depth"@, u32_text(b.depth));
    let p6 = json_output_options();
    lemma_inserted_piece(piece, p3);
    let before = p0 + p1 + p2;
    lemma_inserted_before(before, piece, p3, piece, 0);
    lemma_inserted_after(before + piece, before + p3, piece, before.len() as int, p4);
    lemma_inserted_after((before + piece) + p4, (before + p3) + p4, piece, before.len() as int, p5);
    lemma_inserted_after(((before + piece) + p4) + p5, ((before + p3) + p4) + p5, piece, before.len() as int, p6);
    assert(inserted_at(tree_argv(f), tree_argv(b), piece, before.len() as int));
}

/// A `contains` value `v` puts in `--contains v`, once.
pub proof fn law_tree_contains(a: TreeArgs, v: String)
    ensures
        inserted(
            tree_argv((TreeArgs { contains: Some(v), ..a })),
            tree_argv((TreeArgs { contains: None, ..a })),
            seq!["--contains"@, v@],
        ),
{
    let f = TreeArgs { contains: Some(v), ..a };
    let b = TreeArgs { contains: None, ..a };
    let piece = seq!["--contains"@, v@];
    let p0 = opt_pair("--host"@, b.host.deep_view());
    let p1 = seq!["tree"@, b.repository@];
    let p2 = opt_pair("--reference"@, b.reference.deep_view());
    let p3 = repeat_pairs("--path"@, b.paths.deep_view());
    let p4 = opt_pair("--contains"@, b.contains.deep_view());
    let p5 = opt_pair("--depth"@, u32_text(b.depth));
    let p6 = json_output_options();
    lemma_inserted_piece(piece, p4);
    let before = p0 + p1 + p2 + p3;
    lemma_inserted_before(before, piece, p4, piece, 0);
    lemma_inserted_after(before + piece, before + p4, piece, before.len() as int, p5);
    lemma_inserted_after((before + piece) + p5, (before + p4) + p5, piece, before.len() as int, p6);
    assert(inserted_at(tree_argv(f), tree_argv(b), piece, before.len() as int));
}

/// A `depth` of `n` puts in `--depth` followed by the decimal text of `n`, once.
pub proof fn law_tree_depth(a: TreeArgs, n: u32)
    ensures
        inserted(
            tree_argv((TreeArgs { depth: Some(n), ..a })),
            tree_argv((TreeArgs { depth: None, ..a })),
            seq!["--depth"@, decimal(n as nat)],
        ),
{
    let f = TreeArgs { depth: Some(n), ..a };
    let b = TreeArgs { depth: None, ..a };
    let piece = seq!["--depth"@, decimal(n as nat)];
    let p0 = opt_pair("--host"@, b.host.deep_view());
    let p1 = seq!["tree"@, b.repository@];
    let p2 = opt_pair("--reference"@, b.reference.deep_view());
    let p3 = repeat_pairs("--path"@, b.paths.deep_view());
    let p4 = opt_pair("--contains"@, b.contains.deep_view());
    let p5 = opt_pair("--depth"@, u32_text(b.depth));
    let p6 = json_output_options();
    lemma_inserted_piece(piece, p5);
    let before = p0 + p1 + p2 + p3 + p4;
    lemma_inserted_before(before, piece, p5, piece, 0);
    lemma_inserted_after(before + piece, before + p5, piece, before.len() as int, p6);
    assert(inserted_at(tree_argv(f), tree_argv(b), piece, before.len() as int));
}

/// With no option set, the tree line is its subcommand, its positional
/// arguments and the request for JSON output without progress output.
pub proof fn law_tree_unset(a: TreeArgs)
    requires
        a.host is None,
        a.reference is None,
        a.paths@.len() == 0,
        a.contains is None,
        a.depth is None,
    ensures
        tree_argv(a) == seq!["tree"@, a.repository@, "--format"@, "json"@, "--progress"@, "off"@],
{
    assert(tree_argv(a) =~= seq!["tree"@, a.repository@, "--format"@, "json"@, "--progress"@, "off"@]);
}

/// A host override `h` puts `--host h` in front of the code line it joins.
pub proof fn law_code_host(a: CodeArgs, h: String)
    ensures
        inserted_at(
            code_argv((CodeArgs { host: Some(h), ..a })),
            code_argv((CodeArgs { host: None, ..a })),
            seq!["--host"@, h@],
            0,
        ),
{
    let f = CodeArgs { host: Some(h), ..a };
    let b = CodeArgs { host: None, ..a };
    let piece = seq!["--host"@, h@];
    let p0 = opt_pair("--host"@, b.host.deep_view());
    let p1 = seq!["code"@, b.repository@, b.pattern@];
    let p2 = opt_pair("--reference"@, b.reference.deep_view());
    let p3 = repeat_pairs("--path"@, b.paths.deep_view());
    let p4 = opt_pair("--mode"@, PatternMode::option_text(b.mode));
    let p5 = opt_pair("--context"@, u32_text(b.context));
    let p6 = opt_pair("--limit"@, u32_text(b.limit));
    let p7 = opt_pair("--max-file-bytes"@, u64_text(b.max_file_bytes));
    let p8 = json_output_options();
    lemma_inserted_piece(piece, p0);
    lemma_inserted_after(piece, p0, piece, 0int, p1);
    lemma_inserted_after((piece) + p1, (p0) + p1, piece, 0int, p2);
    lemma_inserted_after(((piece) + p1) + p2, ((p0) + p1) + p2, piece, 0int, p3);
    lemma_inserted_after((((piece) + p1) + p2) + p3, (((p0) + p1) + p2) + p3, piece, 0int, p4);
    lemma_inserted_after(((((piece) + p1) + p2) + p3) + p4, ((((p0) + p1) + p2) + p3) + p4, piece, 0int, p5);
    lemma_inserted_after((((((piece) + p1) + p2) + p3) + p4) + p5, (((((p0) + p1) + p2) + p3) + p4) + p5, piece, 0int, p6);
    lemma_inserted_after(((((((piece) + p1) + p2) + p3) + p4) + p5) + p6, ((((((p0) + p1) + p2) + p3) + p4) + p5) + p6, piece, 0int, p7);
    lemma_inserted_after((((((((piece) + p1) + p2) + p3) + p4) + p5) + p6) + p7, (((((((p0) + p1) + p2) + p3) + p4) + p5) + p6) + p7, piece, 0int, p8);
    assert(inserted_at(code_argv(f), code_argv(b), piece, 0int));
}

/// A `reference` value `v` puts in `--reference v` right after the code line's positional arguments.
pub proof fn law_code_reference(a: CodeArgs, v: String)
    ensures
        inserted_at(
            code_argv((CodeArgs { reference: Some(v), ..a })),
            code_argv((CodeArgs { reference: None, ..a })),
            seq!["--reference"@, v@],
            (if a.host is Some { 2int } else { 0int }) + 3,
        ),
{
    let f = CodeArgs { reference: Some(v), ..a };
    let b = CodeArgs { reference: None, ..a };
    let piece = seq!["--reference"@, v@];
    let p0 = opt_pair("--host"@, b.host.deep_view());
    let p1 = seq!["code"@, b.repository@, b.pattern@];
    let p2 = opt_pair("--reference"@, b.reference.deep_view());
    let p3 = repeat_pairs("--path"@, b.paths.deep_view());
    let p4 = opt_pair("--mode"@, PatternMode::option_text(b.mode));
    let p5 = opt_pair("--context"@, u32_text(b.context));
    let p6 = opt_pair("--limit"@, u32_text(b.limit));
    let p7 = opt_pair("--max-file-bytes"@, u64_text(b.max_file_bytes));
    let p8 = json_output_options();
    lemma_inserted_piece(piece, p2);
    let before = p0 + p1;
    lemma_inserted_before(before, piece, p2, piece, 0);
    lemma_inserted_after(before + piece, before + p2, piece, before.len() as int, p3);
    lemma_inserted_after((before + piece) + p3, (before + p2) + p3, piece, before.len() as int, p4);
    lemma_inserted_after(((before + piece) + p3) + p4, ((before + p2) + p3) + p4, piece, before.len() as int, p5);
    lemma_inserted_after((((before + piece) + p3) + p4) + p5, (((before + p2) + p3) + p4) + p5, piece, before.len() as int, p6);
    lemma_inserted_after(((((before + piece) + p3) + p4) + p5) + p6, ((((before + p2) + p3) + p4) + p5) + p6, piece, before.len() as int, p7);
    lemma_inserted_after((((((before + piece) + p3) + p4) + p5) + p6) + p7, (((((before + p2) + p3) + p4) + p5) + p6) + p7, piece, before.len() as int, p8);
    assert(inserted_at(code_argv(f), code_argv(b), piece, before.len() as int));
}

/// Each of the given `paths` values goes in after its own `--path`, in order, all at one place of the code line.
pub proof fn law_code_paths(a: CodeArgs, values: Vec<String>, empty: Vec<String>)
    requires
        empty@.len() == 0,
    ensures
        inserted(
            code_argv((CodeArgs { paths: values, ..a })),
            code_argv((CodeArgs { paths: empty, ..a })),
            repeat_pairs("--path"@, values.deep_view()),
        ),
        flag_before_each(repeat_pairs("--path"@, values.deep_view()), "--path"@, values.deep_view()),
{
    let f = CodeArgs { paths: values, ..a };
    let b = CodeArgs { paths: empty, ..a };
    let piece = repeat_pairs("--path"@, values.deep_view());
    assert(empty.deep_view() =~= Seq::<Seq<char>>::empty());
    law_repeat_pairs_layout("--path"@, values.deep_view());
    let p0 = opt_pair("--host"@, b.host.deep_view());
    let p1 = seq!["code"@, b.repository@, b.pattern@];
    let p2 = opt_pair("--reference"@, b.reference.deep_view());
    let p3 = repeat_pairs("--path"@, b.paths.deep_view());
    let p4 = opt_pair("--mode"@, PatternMode::option_text(b.mode));
    let p5 = opt_pair("--context"@, u32_text(b.context));
    let p6 = opt_pair("--limit"@, u32_text(b.limit));
    let p7 = opt_pair("--max-file-bytes"@, u64_text(b.max_file_bytes));
    let p8 = json_output_options();
    lemma_inserted_piece(piece, p3);
    let before = p0 + p1 + p2;
    lemma_inserted_before(before, piece, p3, piece, 0);
    lemma_inserted_after(before + piece, before + p3, piece, before.len() as int, p4);
    lemma_inserted_after((before + piece) + p4, (before + p3) + p4, piece, before.len() as int, p5);
    lemma_inserted_after(((before + piece) + p4) + p5, ((before + p3) + p4) + p5, piece, before.len() as int, p6);
    lemma_inserted_after((((before + piece) + p4) + p5) + p6, (((before + p3) + p4) + p5) + p6, piece, before.len() as int, p7);
    lemma_inserted_after(((((before + piece) + p4) + p5) + p6) + p7, ((((before + p3) + p4) + p5) + p6) + p7, piece, before.len() as int, p8);
    assert(inserted_at(code_argv(f), code_argv(b), piece, before.len() as int));
}

/// A `mode` choice puts in `--mode` followed by its word, once.
pub proof fn law_code_mode(a: CodeArgs, v: PatternMode)
    ensures
        inserted(
            code_argv((CodeArgs { mode: Some(v), ..a })),
            code_argv((CodeArgs { mode: None, ..a })),
            seq!["--mode"@, v.text()],
        ),
{
    let f = CodeArgs { mode: Some(v), ..a };
    let b = CodeArgs { mode: None, ..a };
    let piece = seq!["--mode"@, v.text()];
    let p0 = opt_pair("--host"@, b.host.deep_view());
    let p1 = seq!["code"@, b.repository@, b.pattern@];
    let p2 = opt_pair("--reference"@, b.reference.deep_view());
    let p3 = repeat_pairs("--path"@, b.paths.deep_view());
    let p4 = opt_pair("--mode"@, PatternMode::option_text(b.mode));
    let p5 = opt_pair("--context"@, u32_text(b.context));
    let p6 = opt_pair("--limit"@, u32_text(b.limit));
    let p7 = opt_pair("--max-file-bytes"@, u64_text(b.max_file_bytes));
    let p8 = json_output_options();
    lemma_inserted_piece(piece, p4);
    let before = p0 + p1 + p2 + p3;
    lemma_inserted_before(before, piece, p4, piece, 0);
    lemma_inserted_after(before + piece, before + p4, piece, before.len() as int, p5);
    lemma_inserted_after((before + piece) + p5, (before + p4) + p5, piece, before.len() as int, p6);
    lemma_inserted_after(((before + piece) + p5) + p6, ((before + p4) + p5) + p6, piece, before.len() as int, p7);
    lemma_inserted_after((((before + piece) + p5) + p6) + p7, (((before + p4) + p5) + p6) + p7, piece, before.len() as int, p8);
    assert(inserted_at(code_argv(f), code_argv(b), piece, before.len() as int));
}

/// A `context` of `n` puts in `--context` followed by the decimal text of `n`, once.
pub proof fn law_code_context(a: CodeArgs, n: u32)
    ensures
        inserted(
            code_argv((CodeArgs { context: Some(n), ..a })),
            code_argv((CodeArgs { context: None, ..a })),
            seq!["--context"@, decimal(n as nat)],
        ),
{
    let f = CodeArgs { context: Some(n), ..a };
    let b = CodeArgs { context: None, ..a };
    let piece = seq!["--context"@, decimal(n as nat)];
    let p0 = opt_pair("--host"@, b.host.deep_view());
    let p1 = seq!["code"@, b.repository@, b.pattern@];
    let p2 = opt_pair("--reference"@, b.reference.deep_view());
    let p3 = repeat_pairs("--path"@, b.paths.deep_view());
    let p4 = opt_pair("--mode"@, PatternMode::option_text(b.mode));
    let p5 = opt_pair("--context"@, u32_text(b.context));
    let p6 = opt_pair("--limit"@, u32_text(b.limit));
    let p7 = opt_pair("--max-file-bytes"@, u64_text(b.max_file_bytes));
    let p8 = json_output_options();
    lemma_inserted_piece(piece, p5);
    let before = p0 + p1 + p2 + p3 + p4;
    lemma_inserted_before(before, piece, p5, piece, 0);
    lemma_inserted_after(before + piece, before + p5, piece, before.len() as int, p6);
    lemma_inserted_after((before + piece) + p6, (before + p5) + p6, piece, before.len() as int, p7);
    lemma_inserted_after(((before + piece) + p6) + p7, ((before + p5) + p6) + p7, piece, before.len() as int, p8);
    assert(inserted_at(code_argv(f), code_argv(b), piece, before.len() as int));
}

/// A `limit` of `n` puts in `--limit` followed by the decimal text of `n`, once.
pub proof fn law_code_limit(a: CodeArgs, n: u32)
    ensures
        inserted(
            code_argv((CodeArgs { limit: Some(n), ..a })),
            code_argv((CodeArgs { limit: None, ..a })),
            seq!["--limit"@, decimal(n as nat)],
        ),
{
    let f = CodeArgs { limit: Some(n), ..a };
    let b = CodeArgs { limit: None, ..a };
    let piece = seq!["--limit"@, decimal(n as nat)];
    let p0 = opt_pair("--host"@, b.host.deep_view());
    let p1 = seq!["code"@, b.repository@, b.pattern@];
    let p2 = opt_pair("--reference"@, b.reference.deep_view());
    let p3 = repeat_pairs("--path"@, b.paths.deep_view());
    let p4 = opt_pair("--mode"@, PatternMode::option_text(b.mode));
    let p5 = opt_pair("--context"@, u32_text(b.context));
    let p6 = opt_pair("--limit"@, u32_text(b.limit));
    let p7 = opt_pair("--max-file-bytes"@, u64_text(b.max_file_bytes));
    let p8 = json_output_options();
    lemma_inserted_piece(piece, p6);
    let before = p0 + p1 + p2 + p3 + p4 + p5;
    lemma_inserted_before(before, piece, p6, piece, 0);
    lemma_inserted_after(before + piece, before + p6, piece, before.len() as int, p7);
    lemma_inserted_after((before + piece) + p7, (before + p6) + p7, piece, before.len() as int, p8);
    assert(inserted_at(code_argv(f), code_argv(b), piece, before.len() as int));
}

/// A `max_file_bytes` of `n` puts in `--max-file-bytes` followed by the decimal text of `n`, once.
pub proof fn law_code_max_file_bytes(a: CodeArgs, n: u64)
    ensures
        inserted(
            code_argv((CodeArgs { max_file_bytes: Some(n), ..a })),
            code_argv((CodeArgs { max_file_bytes: None, ..a })),
            seq!["--max-file-bytes"@, decimal(n as nat)],
        ),
{
    let f = CodeArgs { max_file_bytes: Some(n), ..a };
    let b = CodeArgs { max_file_bytes: None, ..a };
    let piece = seq!["--max-file-bytes"@, decimal(n as nat)];
    let p0 = opt_pair("--host"@, b.host.deep_view());
    let p1 = seq!["code"@, b.repository@, b.pattern@];
    let p2 = opt_pair("--reference"@, b.reference.deep_view());
    let p3 = repeat_pairs("--path"@, b.paths.deep_view());
    let p4 = opt_pair("--mode"@, PatternMode::option_text(b.mode));
    let p5 = opt_pair("--context"@, u32_text(b.context));
    let p6 = opt_pair("--limit"@, u32_text(b.limit));
    let p7 = opt_pair("--max-file-bytes"@, u64_text(b.max_file_bytes));
    let p8 = json_output_options();
    lemma_inserted_piece(piece, p7);
    let before = p0 + p1 + p2 + p3 + p4 + p5 + p6;
    lemma_inserted_before(before, piece, p7, piece, 0);
    lemma_inserted_after(before + piece, before + p7, piece, before.len() as int, p8);
    assert(inserted_at(code_argv(f), code_argv(b), piece, before.len() as int));
}

/// With no option set, the code line is its subcommand, its positional
/// arguments and the request for JSON output without progress output.
pub proof fn law_code_unset(a: CodeArgs)
    requires
        a.host is None,
        a.reference is None,
        a.paths@.len() == 0,
        a.mode is None,
        a.context is None,
        a.limit is None,
        a.max_file_bytes is None,
    ensures
        code_argv(a) == seq!["code"@, a.repository@, a.pattern@, "--format"@, "json"@, "--progress"@, "off"@],
{
    assert(code_argv(a) =~= seq!["code"@, a.repository@, a.pattern@, "--format"@, "json"@, "--progress"@, "off"@]);
}

/// `readme` set to `false` gives the same inspect line as `readme` unset.
pub proof fn law_inspect_readme_false_is_unset(a: InspectArgs)
    ensures
        inspect_argv((InspectArgs { readme: Some(false), ..a })) == inspect_argv(
            (InspectArgs { readme: None, ..a }),
        ),
{
}

/// Without a host, `auth status` and `auth logout` are exactly those two words.
pub proof fn law_auth_unset(a: HostArgs)
    requires
        a.host is None,
    ensures
        auth_status_argv(a) == seq!["auth"@, "status"@],
        auth_logout_argv(a) == seq!["auth"@, "logout"@],
{
    assert(auth_status_argv(a) =~= seq!["auth"@, "status"@]);
    assert(auth_logout_argv(a) =~= seq!["auth"@, "logout"@]);
}

/// A host override `h` puts `--host h` in front of the auth line, which is
/// otherwise the same.
pub proof fn law_auth_host(a: HostArgs, h: String)
    ensures
        auth_status_argv((HostArgs { host: Some(h) })) == seq!["--host"@, h@] + auth_status_argv(
            (HostArgs { host: None }),
        ),
        auth_logout_argv((HostArgs { host: Some(h) })) == seq!["--host"@, h@] + auth_logout_argv(
            (HostArgs { host: None }),
        ),
{
    assert(auth_status_argv(HostArgs { host: Some(h) }) =~= seq!["--host"@, h@]
        + auth_status_argv(HostArgs { host: None }));
    assert(auth_logout_argv(HostArgs { host: Some(h) }) =~= seq!["--host"@, h@]
        + auth_logout_argv(HostArgs { host: None }));
}

} // verus!
