//! The `gitquarry` command lines that each tool runs, and how their output is read.

use vstd::prelude::*;
use crate::argv::{
    flag_if_true, opt_pair, opt_word, push_flag_if_true, push_host, push_opt_u32, push_opt_u64,
    push_opt_value, push_repeat_values, push_word, repeat_pairs, u32_text, u64_text,
};
use crate::options::{
    BoolFlag, DiscoveryDepth, ForkMode, PatternMode, RankMode, RetrievalMode, SearchSort,
};

verus! {

/// How the program's standard output is to be read.
#[derive(Debug, Clone, Copy, PartialEq, Eq, Structural)]
pub enum OutputMode {
    /// As one JSON document.
    Json,
    /// As plain text.
    Text,
}

/// One invocation of `gitquarry`: its arguments and how to read its output.
#[derive(Debug, Clone, PartialEq, Eq)]
pub struct CommandSpec {
    pub args: Vec<String>,
    pub output_mode: OutputMode,
}

/// The arguments of a repository search.
#[derive(Debug, Clone, PartialEq)]
pub struct SearchArgs {
    /// Optional GitHub host override. Accepts github.com, a full URL, or an API base.
    pub host: Option<String>,
    /// Free-text query. Omit only when using discover mode with structured filters.
    pub query: Option<String>,
    /// Retrieval mode.
    pub mode: Option<RetrievalMode>,
    /// Ranking mode. Non-native ranks require discover mode upstream.
    pub rank: Option<RankMode>,
    /// Native GitHub-like sort order.
    pub sort: Option<SearchSort>,
    /// Discover-mode depth.
    pub depth: Option<DiscoveryDepth>,
    /// Maximum number of repositories to return.
    pub limit: Option<u32>,
    /// Restrict search to one user.
    pub user: Option<String>,
    /// Restrict search to one organization.
    pub org: Option<String>,
    /// Filter archived repositories.
    pub archived: Option<BoolFlag>,
    /// Filter template repositories.
    pub template: Option<BoolFlag>,
    /// Filter fork state.
    pub fork: Option<ForkMode>,
    /// Require one language. Repeats use AND semantics.
    pub language: Vec<String>,
    /// Require one topic. Repeats use AND semantics.
    pub topic: Vec<String>,
    /// Require one license. Repeats use AND semantics.
    pub license: Vec<String>,
    /// Minimum stars.
    pub min_stars: Option<u64>,
    /// Maximum stars.
    pub max_stars: Option<u64>,
    /// Minimum forks.
    pub min_forks: Option<u64>,
    /// Maximum forks.
    pub max_forks: Option<u64>,
    /// Minimum repository size in KB.
    pub min_size: Option<u64>,
    /// Maximum repository size in KB.
    pub max_size: Option<u64>,
    /// Created-on-or-after date in YYYY-MM-DD.
    pub created_after: Option<String>,
    /// Created-on-or-before date in YYYY-MM-DD.
    pub created_before: Option<String>,
    /// Updated-on-or-after date in YYYY-MM-DD.
    pub updated_after: Option<String>,
    /// Updated-on-or-before date in YYYY-MM-DD.
    pub updated_before: Option<String>,
    /// Pushed-on-or-after date in YYYY-MM-DD.
    pub pushed_after: Option<String>,
    /// Pushed-on-or-before date in YYYY-MM-DD.
    pub pushed_before: Option<String>,
    /// Require created recency like 30d, 12h, or 1y.
    pub created_within: Option<String>,
    /// Require updated recency like 30d, 12h, or 1y.
    pub updated_within: Option<String>,
    /// Require push recency like 30d, 12h, or 1y.
    pub pushed_within: Option<String>,
    /// Include README enrichment for the candidate window.
    pub readme: Option<bool>,
    /// Include ranking explanations in enhanced modes.
    pub explain: Option<bool>,
    /// Blended query weight in the range 0.0..=3.0, as the decimal text that `f64` displays.
    pub weight_query: Option<String>,
    /// Blended activity weight in the range 0.0..=3.0, as the decimal text that `f64` displays.
    pub weight_activity: Option<String>,
    /// Blended quality weight in the range 0.0..=3.0, as the decimal text that `f64` displays.
    pub weight_quality: Option<String>,
    /// Worker count for discover-mode enrichment.
    pub concurrency: Option<u32>,
}

/// The arguments of an inspection of one repository.
#[derive(Debug, Clone, PartialEq, Eq)]
pub struct InspectArgs {
    /// Optional GitHub host override. Accepts github.com, a full URL, or an API base.
    pub host: Option<String>,
    /// Explicit repository identifier in owner/repo form.
    pub repository: String,
    /// Include the repository README in the output.
    pub readme: Option<bool>,
}

/// The arguments of a repository tree listing.
#[derive(Debug, Clone, PartialEq, Eq)]
pub struct TreeArgs {
    /// Optional GitHub host override. Accepts github.com, a full URL, or an API base.
    pub host: Option<String>,
    /// Explicit repository identifier in owner/repo form.
    pub repository: String,
    /// Git ref to inspect. Defaults to the repository default branch.
    pub reference: Option<String>,
    /// Only show paths matching these glob patterns.
    pub paths: Vec<String>,
    /// Only show paths containing this text.
    pub contains: Option<String>,
    /// Maximum path depth to return, where root entries are depth 1.
    pub depth: Option<u32>,
}

/// The arguments of a code search inside one repository.
#[derive(Debug, Clone, PartialEq, Eq)]
pub struct CodeArgs {
    /// Optional GitHub host override. Accepts github.com, a full URL, or an API base.
    pub host: Option<String>,
    /// Explicit repository identifier in owner/repo form.
    pub repository: String,
    /// Text or regex pattern to search for.
    pub pattern: String,
    /// Git ref to inspect. Defaults to the repository default branch.
    pub reference: Option<String>,
    /// Restrict searched files to these glob patterns.
    pub paths: Vec<String>,
    /// Treat the pattern as literal text or a Rust regex.
    pub mode: Option<PatternMode>,
    /// Lines of context to include before and after each match.
    pub context: Option<u32>,
    /// Maximum number of matches to return.
    pub limit: Option<u32>,
    /// Maximum file size to fetch in bytes.
    pub max_file_bytes: Option<u64>,
}

/// The arguments of the commands that take nothing but a host.
#[derive(Debug, Clone, PartialEq, Eq)]
pub struct HostArgs {
    /// Optional GitHub host override. Accepts github.com, a full URL, or an API base.
    pub host: Option<String>,
}

/// The options that make `gitquarry` print JSON and no progress chatter.
pub open spec fn json_output_options() -> Seq<Seq<char>> {
    seq!["--format"@, "json"@, "--progress"@, "off"@]
}

/// The search's host override, subcommand, query and ranking choices.
#[verifier::opaque]
pub open spec fn search_target(a: SearchArgs) -> Seq<Seq<char>> {
    opt_pair("--host"@, a.host.deep_view())
        + seq!["search"@]
        + opt_word(a.query.deep_view())
        + opt_pair("--mode"@, RetrievalMode::option_text(a.mode))
        + opt_pair("--rank"@, RankMode::option_text(a.rank))
        + opt_pair("--sort"@, SearchSort::option_text(a.sort))
        + opt_pair("--depth"@, DiscoveryDepth::option_text(a.depth))
        + opt_pair("--limit"@, u32_text(a.limit))
}

/// The search's owner, repository-state, language, topic and license filters.
#[verifier::opaque]
pub open spec fn search_scope(a: SearchArgs) -> Seq<Seq<char>> {
    opt_pair("--user"@, a.user.deep_view())
        + opt_pair("--org"@, a.org.deep_view())
        + opt_pair("--archived"@, BoolFlag::option_text(a.archived))
        + opt_pair("--template"@, BoolFlag::option_text(a.template))
        + opt_pair("--fork"@, ForkMode::option_text(a.fork))
        + repeat_pairs("--language"@, a.language.deep_view())
        + repeat_pairs("--topic"@, a.topic.deep_view())
        + repeat_pairs("--license"@, a.license.deep_view())
}

/// The search's star, fork and size bounds.
#[verifier::opaque]
pub open spec fn search_counts(a: SearchArgs) -> Seq<Seq<char>> {
    opt_pair("--min-stars"@, u64_text(a.min_stars))
        + opt_pair("--max-stars"@, u64_text(a.max_stars))
        + opt_pair("--min-forks"@, u64_text(a.min_forks))
        + opt_pair("--max-forks"@, u64_text(a.max_forks))
        + opt_pair("--min-size"@, u64_text(a.min_size))
        + opt_pair("--max-size"@, u64_text(a.max_size))
}

/// The search's creation, update and push date filters.
#[verifier::opaque]
pub open spec fn search_dates(a: SearchArgs) -> Seq<Seq<char>> {
    opt_pair("--created-after"@, a.created_after.deep_view())
        + opt_pair("--created-before"@, a.created_before.deep_view())
        + opt_pair("--updated-after"@, a.updated_after.deep_view())
        + opt_pair("--updated-before"@, a.updated_before.deep_view())
        + opt_pair("--pushed-after"@, a.pushed_after.deep_view())
        + opt_pair("--pushed-before"@, a.pushed_before.deep_view())
        + opt_pair("--created-within"@, a.created_within.deep_view())
        + opt_pair("--updated-within"@, a.updated_within.deep_view())
        + opt_pair("--pushed-within"@, a.pushed_within.deep_view())
}

/// The search's switches, ranking weights and worker count.
#[verifier::opaque]
pub open spec fn search_extras(a: SearchArgs) -> Seq<Seq<char>> {
    flag_if_true("--readme"@, a.readme)
        + flag_if_true("--explain"@, a.explain)
        + opt_pair("--weight-query"@, a.weight_query.deep_view())
        + opt_pair("--weight-activity"@, a.weight_activity.deep_view())
        + opt_pair("--weight-quality"@, a.weight_quality.deep_view())
        + opt_pair("--concurrency"@, u32_text(a.concurrency))
}

/// The search's subcommand, query and filters: the command line up to its switches.
#[verifier::opaque]
pub open spec fn search_filters(a: SearchArgs) -> Seq<Seq<char>> {
    search_target(a) + search_scope(a) + search_counts(a) + search_dates(a)
}

/// The command line of a repository search: its filters, then the switches
/// that are set to `true`, the ranking weights, the worker count and the
/// output options.
pub open spec fn search_argv(a: SearchArgs) -> Seq<Seq<char>> {
    search_filters(a) + search_extras(a) + json_output_options()
}

/// Appends the options that make `gitquarry` print JSON without progress output.
fn push_json_output_options(argv: &mut Vec<String>)
    ensures
        final(argv).deep_view() == old(argv).deep_view() + json_output_options(),
{
    push_word(argv, "--format");
    push_word(argv, "json");
    push_word(argv, "--progress");
    push_word(argv, "off");
    assert(argv.deep_view() =~= old(argv).deep_view() + json_output_options());
}

/// Appends the search's host override, subcommand, query and ranking choices.
fn push_search_target(
    argv: &mut Vec<String>,
    Ghost(a): Ghost<SearchArgs>,
    host: Option<String>,
    query: Option<String>,
    mode: Option<RetrievalMode>,
    rank: Option<RankMode>,
    sort: Option<SearchSort>,
    depth: Option<DiscoveryDepth>,
    limit: Option<u32>,
)
    requires
        host == a.host,
        query == a.query,
        mode == a.mode,
        rank == a.rank,
        sort == a.sort,
        depth == a.depth,
        limit == a.limit,
    ensures
        final(argv).deep_view() == old(argv).deep_view() + search_target(a),
{
    reveal(search_target);
    let mut part: Vec<String> = Vec::new();
    assert(part.deep_view() =~= Seq::<Seq<char>>::empty());
    push_host(&mut part, host);
    push_word(&mut part, "search");
    let ghost before_query = part.deep_view();
    let ghost query_view = query.deep_view();
    if let Some(query) = query {
        part.push(query);
    }
    assert(part.deep_view() =~= before_query + opt_word(query_view));
    push_opt_value(
        &mut part,
        "--mode",
        mode.map(|value: RetrievalMode| -> (s: String)
            ensures
                s@ == value.text(),
            { String::from_str(value.as_str()) }),
    );
    push_opt_value(
        &mut part,
        "--rank",
        rank.map(|value: RankMode| -> (s: String)
            ensures
                s@ == value.text(),
            { String::from_str(value.as_str()) }),
    );
    push_opt_value(
        &mut part,
        "--sort",
        sort.map(|value: SearchSort| -> (s: String)
            ensures
                s@ == value.text(),
            { String::from_str(value.as_str()) }),
    );
    push_opt_value(
        &mut part,
        "--depth",
        depth.map(|value: DiscoveryDepth| -> (s: String)
            ensures
                s@ == value.text(),
            { String::from_str(value.as_str()) }),
    );
    push_opt_u32(&mut part, "--limit", limit);
    assert(part.deep_view() =~= search_target(a));
    let ghost before = argv.deep_view();
    argv.append(&mut part);
    assert(argv.deep_view() =~= before + search_target(a));
}

/// Appends the search's owner, repository-state, language, topic and license filters.
fn push_search_scope(
    argv: &mut Vec<String>,
    Ghost(a): Ghost<SearchArgs>,
    user: Option<String>,
    org: Option<String>,
    archived: Option<BoolFlag>,
    template: Option<BoolFlag>,
    fork: Option<ForkMode>,
    language: Vec<String>,
    topic: Vec<String>,
    license: Vec<String>,
)
    requires
        user == a.user,
        org == a.org,
        archived == a.archived,
        template == a.template,
        fork == a.fork,
        language == a.language,
        topic == a.topic,
        license == a.license,
    ensures
        final(argv).deep_view() == old(argv).deep_view() + search_scope(a),
{
    reveal(search_scope);
    let mut part: Vec<String> = Vec::new();
    assert(part.deep_view() =~= Seq::<Seq<char>>::empty());
    push_opt_value(&mut part, "--user", user);
    push_opt_value(&mut part, "--org", org);
    push_opt_value(
        &mut part,
        "--archived",
        archived.map(|value: BoolFlag| -> (s: String)
            ensures
                s@ == value.text(),
            { String::from_str(value.as_str()) }),
    );
    push_opt_value(
        &mut part,
        "--template",
        template.map(|value: BoolFlag| -> (s: String)
            ensures
                s@ == value.text(),
            { String::from_str(value.as_str()) }),
    );
    push_opt_value(
        &mut part,
        "--fork",
        fork.map(|value: ForkMode| -> (s: String)
            ensures
                s@ == value.text(),
            { String::from_str(value.as_str()) }),
    );
    push_repeat_values(&mut part, "--language", language);
    push_repeat_values(&mut part, "--topic", topic);
    push_repeat_values(&mut part, "--license", license);
    assert(part.deep_view() =~= search_scope(a));
    let ghost before = argv.deep_view();
    argv.append(&mut part);
    assert(argv.deep_view() =~= before + search_scope(a));
}

/// Appends the search's star, fork and size bounds.
fn push_search_counts(
    argv: &mut Vec<String>,
    Ghost(a): Ghost<SearchArgs>,
    min_stars: Option<u64>,
    max_stars: Option<u64>,
    min_forks: Option<u64>,
    max_forks: Option<u64>,
    min_size: Option<u64>,
    max_size: Option<u64>,
)
    requires
        min_stars == a.min_stars,
        max_stars == a.max_stars,
        min_forks == a.min_forks,
        max_forks == a.max_forks,
        min_size == a.min_size,
        max_size == a.max_size,
    ensures
        final(argv).deep_view() == old(argv).deep_view() + search_counts(a),
{
    reveal(search_counts);
    let mut part: Vec<String> = Vec::new();
    assert(part.deep_view() =~= Seq::<Seq<char>>::empty());
    push_opt_u64(&mut part, "--min-stars", min_stars);
    push_opt_u64(&mut part, "--max-stars", max_stars);
    push_opt_u64(&mut part, "--min-forks", min_forks);
    push_opt_u64(&mut part, "--max-forks", max_forks);
    push_opt_u64(&mut part, "--min-size", min_size);
    push_opt_u64(&mut part, "--max-size", max_size);
    assert(part.deep_view() =~= search_counts(a));
    let ghost before = argv.deep_view();
    argv.append(&mut part);
    assert(argv.deep_view() =~= before + search_counts(a));
}

/// Appends the search's creation, update and push date filters.
fn push_search_dates(
    argv: &mut Vec<String>,
    Ghost(a): Ghost<SearchArgs>,
    created_after: Option<String>,
    created_before: Option<String>,
    updated_after: Option<String>,
    updated_before: Option<String>,
    pushed_after: Option<String>,
    pushed_before: Option<String>,
    created_within: Option<String>,
    updated_within: Option<String>,
    pushed_within: Option<String>,
)
    requires
        created_after == a.created_after,
        created_before == a.created_before,
        updated_after == a.updated_after,
        updated_before == a.updated_before,
        pushed_after == a.pushed_after,
        pushed_before == a.pushed_before,
        created_within == a.created_within,
        updated_within == a.updated_within,
        pushed_within == a.pushed_within,
    ensures
        final(argv).deep_view() == old(argv).deep_view() + search_dates(a),
{
    reveal(search_dates);
    let mut part: Vec<String> = Vec::new();
    assert(part.deep_view() =~= Seq::<Seq<char>>::empty());
    push_opt_value(&mut part, "--created-after", created_after);
    push_opt_value(&mut part, "--created-before", created_before);
    push_opt_value(&mut part, "--updated-after", updated_after);
    push_opt_value(&mut part, "--updated-before", updated_before);
    push_opt_value(&mut part, "--pushed-after", pushed_after);
    push_opt_value(&mut part, "--pushed-before", pushed_before);
    push_opt_value(&mut part, "--created-within", created_within);
    push_opt_value(&mut part, "--updated-within", updated_within);
    push_opt_value(&mut part, "--pushed-within", pushed_within);
    assert(part.deep_view() =~= search_dates(a));
    let ghost before = argv.deep_view();
    argv.append(&mut part);
    assert(argv.deep_view() =~= before + search_dates(a));
}

/// Appends the search's switches, ranking weights and worker count.
fn push_search_extras(
    argv: &mut Vec<String>,
    Ghost(a): Ghost<SearchArgs>,
    readme: Option<bool>,
    explain: Option<bool>,
    weight_query: Option<String>,
    weight_activity: Option<String>,
    weight_quality: Option<String>,
    concurrency: Option<u32>,
)
    requires
        readme == a.readme,
        explain == a.explain,
        weight_query == a.weight_query,
        weight_activity == a.weight_activity,
        weight_quality == a.weight_quality,
        concurrency == a.concurrency,
    ensures
        final(argv).deep_view() == old(argv).deep_view() + search_extras(a),
{
    reveal(search_extras);
    let mut part: Vec<String> = Vec::new();
    assert(part.deep_view() =~= Seq::<Seq<char>>::empty());
    push_flag_if_true(&mut part, "--readme", readme);
    push_flag_if_true(&mut part, "--explain", explain);
    push_opt_value(&mut part, "--weight-query", weight_query);
    push_opt_value(&mut part, "--weight-activity", weight_activity);
    push_opt_value(&mut part, "--weight-quality", weight_quality);
    push_opt_u32(&mut part, "--concurrency", concurrency);
    assert(part.deep_view() =~= search_extras(a));
    let ghost before = argv.deep_view();
    argv.append(&mut part);
    assert(argv.deep_view() =~= before + search_extras(a));
}

/// The command that runs a repository search; its output is JSON.
pub fn search(args: SearchArgs) -> (spec: CommandSpec)
    ensures
        spec.args.deep_view() == search_argv(args),
        spec.output_mode == OutputMode::Json,
{
    let ghost a = args;
    let mut argv: Vec<String> = Vec::new();
    assert(argv.deep_view() =~= Seq::<Seq<char>>::empty());
    push_search_target(
        &mut argv,
        Ghost(a),
        args.host,
        args.query,
        args.mode,
        args.rank,
        args.sort,
        args.depth,
        args.limit,
    );
    assert(argv.deep_view() =~= search_target(a));
    push_search_scope(
        &mut argv,
        Ghost(a),
        args.user,
        args.org,
        args.archived,
        args.template,
        args.fork,
        args.language,
        args.topic,
        args.license,
    );
    push_search_counts(
        &mut argv,
        Ghost(a),
        args.min_stars,
        args.max_stars,
        args.min_forks,
        args.max_forks,
        args.min_size,
        args.max_size,
    );
    push_search_dates(
        &mut argv,
        Ghost(a),
        args.created_after,
        args.created_before,
        args.updated_after,
        args.updated_before,
        args.pushed_after,
        args.pushed_before,
        args.created_within,
        args.updated_within,
        args.pushed_within,
    );
    assert(argv.deep_view() == search_filters(a)) by {
        reveal(search_filters);
    }
    push_search_extras(
        &mut argv,
        Ghost(a),
        args.readme,
        args.explain,
        args.weight_query,
        args.weight_activity,
        args.weight_quality,
        args.concurrency,
    );
    // MCP needs machine-readable stdout and no progress chatter on stderr.
    push_json_output_options(&mut argv);
    assert(argv.deep_view() =~= search_argv(a));
    CommandSpec { args: argv, output_mode: OutputMode::Json }
}

/// The command line of a repository inspection.
pub open spec fn inspect_argv(a: InspectArgs) -> Seq<Seq<char>> {
    opt_pair("--host"@, a.host.deep_view()) + seq!["inspect"@, a.repository@] + flag_if_true(
        "--readme"@,
        a.readme,
    ) + json_output_options()
}

/// The command that inspects one repository; its output is JSON.
pub fn inspect(args: InspectArgs) -> (spec: CommandSpec)
    ensures
        spec.args.deep_view() == inspect_argv(args),
        spec.output_mode == OutputMode::Json,
{
    let ghost a = args;
    let mut argv: Vec<String> = Vec::new();
    assert(argv.deep_view() =~= Seq::<Seq<char>>::empty());
    push_host(&mut argv, args.host);
    push_word(&mut argv, "inspect");
    let ghost before = argv.deep_view();
    argv.push(args.repository);
    assert(argv.deep_view() =~= before + seq![a.repository@]);
    push_flag_if_true(&mut argv, "--readme", args.readme);
    push_json_output_options(&mut argv);
    assert(argv.deep_view() =~= inspect_argv(a));
    CommandSpec { args: argv, output_mode: OutputMode::Json }
}

/// The command line of a repository tree listing.
pub open spec fn tree_argv(a: TreeArgs) -> Seq<Seq<char>> {
    opt_pair("--host"@, a.host.deep_view()) + seq!["tree"@, a.repository@] + opt_pair(
        "--reference"@,
        a.reference.deep_view(),
    ) + repeat_pairs("--path"@, a.paths.deep_view()) + opt_pair(
        "--contains"@,
        a.contains.deep_view(),
    ) + opt_pair("--depth"@, u32_text(a.depth)) + json_output_options()
}

/// The command that lists a repository tree without cloning; its output is JSON.
pub fn tree(args: TreeArgs) -> (spec: CommandSpec)
    ensures
        spec.args.deep_view() == tree_argv(args),
        spec.output_mode == OutputMode::Json,
{
    let ghost a = args;
    let mut argv: Vec<String> = Vec::new();
    assert(argv.deep_view() =~= Seq::<Seq<char>>::empty());
    push_host(&mut argv, args.host);
    push_word(&mut argv, "tree");
    let ghost before = argv.deep_view();
    argv.push(args.repository);
    assert(argv.deep_view() =~= before + seq![a.repository@]);
    push_opt_value(&mut argv, "--reference", args.reference);
    push_repeat_values(&mut argv, "--path", args.paths);
    push_opt_value(&mut argv, "--contains", args.contains);
    push_opt_u32(&mut argv, "--depth", args.depth);
    push_json_output_options(&mut argv);
    assert(argv.deep_view() =~= tree_argv(a));
    CommandSpec { args: argv, output_mode: OutputMode::Json }
}

/// The command line of a code search inside one repository.
pub open spec fn code_argv(a: CodeArgs) -> Seq<Seq<char>> {
    opt_pair("--host"@, a.host.deep_view()) + seq!["code"@, a.repository@, a.pattern@] + opt_pair(
        "--reference"@,
        a.reference.deep_view(),
    ) + repeat_pairs("--path"@, a.paths.deep_view()) + opt_pair(
        "--mode"@,
        PatternMode::option_text(a.mode),
    ) + opt_pair("--context"@, u32_text(a.context)) + opt_pair("--limit"@, u32_text(a.limit))
        + opt_pair("--max-file-bytes"@, u64_text(a.max_file_bytes)) + json_output_options()
}

/// The command that searches code in one repository without cloning; its output is JSON.
pub fn code(args: CodeArgs) -> (spec: CommandSpec)
    ensures
        spec.args.deep_view() == code_argv(args),
        spec.output_mode == OutputMode::Json,
{
    let ghost a = args;
    let mut argv: Vec<String> = Vec::new();
    assert(argv.deep_view() =~= Seq::<Seq<char>>::empty());
    push_host(&mut argv, args.host);
    push_word(&mut argv, "code");
    let ghost before = argv.deep_view();
    argv.push(args.repository);
    argv.push(args.pattern);
    assert(argv.deep_view() =~= before + seq![a.repository@, a.pattern@]);
    push_opt_value(&mut argv, "--reference", args.reference);
    push_repeat_values(&mut argv, "--path", args.paths);
    push_opt_value(
        &mut argv,
        "--mode",
        args.mode.map(|value: PatternMode| -> (s: String)
            ensures
                s@ == value.text(),
            { String::from_str(value.as_str()) }),
    );
    push_opt_u32(&mut argv, "--context", args.context);
    push_opt_u32(&mut argv, "--limit", args.limit);
    push_opt_u64(&mut argv, "--max-file-bytes", args.max_file_bytes);
    push_json_output_options(&mut argv);
    assert(argv.deep_view() =~= code_argv(a));
    CommandSpec { args: argv, output_mode: OutputMode::Json }
}

/// The command line of the `auth` subcommand `action` for the given host.
pub open spec fn auth_argv(a: HostArgs, action: Seq<char>) -> Seq<Seq<char>> {
    opt_pair("--host"@, a.host.deep_view()) + seq!["auth"@, action]
}

/// The command line that asks whether a token is saved for the host.
pub open spec fn auth_status_argv(a: HostArgs) -> Seq<Seq<char>> {
    auth_argv(a, "status"@)
}

/// The command line that deletes the token saved for the host.
pub open spec fn auth_logout_argv(a: HostArgs) -> Seq<Seq<char>> {
    auth_argv(a, "logout"@)
}

/// The command that reports whether a token is saved for the host; its output is text.
pub fn auth_status(args: HostArgs) -> (spec: CommandSpec)
    ensures
        spec.args.deep_view() == auth_status_argv(args),
        spec.output_mode == OutputMode::Text,
{
    let ghost a = args;
    let mut argv: Vec<String> = Vec::new();
    assert(argv.deep_view() =~= Seq::<Seq<char>>::empty());
    push_host(&mut argv, args.host);
    push_word(&mut argv, "auth");
    push_word(&mut argv, "status");
    assert(argv.deep_view() =~= auth_status_argv(a));
    CommandSpec { args: argv, output_mode: OutputMode::Text }
}

/// The command that deletes the token saved for the host; its output is text.
pub fn auth_logout(args: HostArgs) -> (spec: CommandSpec)
    ensures
        spec.args.deep_view() == auth_logout_argv(args),
        spec.output_mode == OutputMode::Text,
{
    let ghost a = args;
    let mut argv: Vec<String> = Vec::new();
    assert(argv.deep_view() =~= Seq::<Seq<char>>::empty());
    push_host(&mut argv, args.host);
    push_word(&mut argv, "auth");
    push_word(&mut argv, "logout");
    assert(argv.deep_view() =~= auth_logout_argv(a));
    CommandSpec { args: argv, output_mode: OutputMode::Text }
}

/// The command that prints the effective config path; its output is text.
pub fn config_path() -> (spec: CommandSpec)
    ensures
        spec.args.deep_view() == seq!["config"@, "path"@],
        spec.output_mode == OutputMode::Text,
{
    let mut argv: Vec<String> = Vec::new();
    assert(argv.deep_view() =~= Seq::<Seq<char>>::empty());
    push_word(&mut argv, "config");
    push_word(&mut argv, "path");
    assert(argv.deep_view() =~= seq!["config"@, "path"@]);
    CommandSpec { args: argv, output_mode: OutputMode::Text }
}

/// The command that prints the effective config; its output is JSON.
pub fn config_show() -> (spec: CommandSpec)
    ensures
        spec.args.deep_view() == seq!["config"@, "show"@],
        spec.output_mode == OutputMode::Json,
{
    let mut argv: Vec<String> = Vec::new();
    assert(argv.deep_view() =~= Seq::<Seq<char>>::empty());
    push_word(&mut argv, "config");
    push_word(&mut argv, "show");
    assert(argv.deep_view() =~= seq!["config"@, "show"@]);
    CommandSpec { args: argv, output_mode: OutputMode::Json }
}

/// The command that prints the program's version; its output is text.
pub fn version() -> (spec: CommandSpec)
    ensures
        spec.args.deep_view() == seq!["version"@],
        spec.output_mode == OutputMode::Text,
{
    let mut argv: Vec<String> = Vec::new();
    assert(argv.deep_view() =~= Seq::<Seq<char>>::empty());
    push_word(&mut argv, "version");
    assert(argv.deep_view() =~= seq!["version"@]);
    CommandSpec { args: argv, output_mode: OutputMode::Text }
}

} // verus!
