use gitquarry_mcp::commands::{
    auth_logout, auth_status, code, config_path, config_show, inspect, search, tree, version,
    CodeArgs, HostArgs, InspectArgs, OutputMode, SearchArgs, TreeArgs,
};
use gitquarry_mcp::options::{
    BoolFlag, DiscoveryDepth, ForkMode, PatternMode, RankMode, RetrievalMode, SearchSort,
};

fn strings(words: &[&str]) -> Vec<String> {
    words.iter().map(|w| w.to_string()).collect()
}

fn empty_search() -> SearchArgs {
    SearchArgs {
        host: None,
        query: None,
        mode: None,
        rank: None,
        sort: None,
        depth: None,
        limit: None,
        user: None,
        org: None,
        archived: None,
        template: None,
        fork: None,
        language: vec![],
        topic: vec![],
        license: vec![],
        min_stars: None,
        max_stars: None,
        min_forks: None,
        max_forks: None,
        min_size: None,
        max_size: None,
        created_after: None,
        created_before: None,
        updated_after: None,
        updated_before: None,
        pushed_after: None,
        pushed_before: None,
        created_within: None,
        updated_within: None,
        pushed_within: None,
        readme: None,
        explain: None,
        weight_query: None,
        weight_activity: None,
        weight_quality: None,
        concurrency: None,
    }
}

#[test]
fn builds_search_args() {
    let spec = search(SearchArgs {
        host: Some("github.example.com".to_string()),
        query: Some("rust cli".to_string()),
        mode: Some(RetrievalMode::Discover),
        rank: Some(RankMode::Blended),
        sort: Some(SearchSort::Stars),
        depth: Some(DiscoveryDepth::Deep),
        limit: Some(5),
        user: Some("microck".to_string()),
        org: None,
        archived: Some(BoolFlag::False),
        template: None,
        fork: Some(ForkMode::Only),
        language: vec!["rust".to_string(), "typescript".to_string()],
        topic: vec!["mcp".to_string()],
        license: vec!["mit".to_string()],
        min_stars: Some(100),
        max_stars: None,
        min_forks: None,
        max_forks: None,
        min_size: None,
        max_size: None,
        created_after: None,
        created_before: None,
        updated_after: Some("2025-01-01".to_string()),
        updated_before: None,
        pushed_after: None,
        pushed_before: None,
        created_within: None,
        updated_within: Some("30d".to_string()),
        pushed_within: None,
        readme: Some(true),
        explain: Some(true),
        weight_query: Some(1.5_f64.to_string()),
        weight_activity: None,
        weight_quality: Some(0.8_f64.to_string()),
        concurrency: Some(4),
    });

    assert_eq!(
        spec.args,
        strings(&[
            "--host",
            "github.example.com",
            "search",
            "rust cli",
            "--mode",
            "discover",
            "--rank",
            "blended",
            "--sort",
            "stars",
            "--depth",
            "deep",
            "--limit",
            "5",
            "--user",
            "microck",
            "--archived",
            "false",
            "--fork",
            "only",
            "--language",
            "rust",
            "--language",
            "typescript",
            "--topic",
            "mcp",
            "--license",
            "mit",
            "--min-stars",
            "100",
            "--updated-after",
            "2025-01-01",
            "--updated-within",
            "30d",
            "--readme",
            "--explain",
            "--weight-query",
            "1.5",
            "--weight-quality",
            "0.8",
            "--concurrency",
            "4",
            "--format",
            "json",
            "--progress",
            "off",
        ])
    );
}

#[test]
fn builds_inspect_args() {
    let spec = inspect(InspectArgs {
        host: Some("github.com".to_string()),
        repository: "rust-lang/rust".to_string(),
        readme: Some(true),
    });

    assert_eq!(
        spec.args,
        strings(&[
            "--host",
            "github.com",
            "inspect",
            "rust-lang/rust",
            "--readme",
            "--format",
            "json",
            "--progress",
            "off",
        ])
    );
}

#[test]
fn builds_tree_args() {
    let spec = tree(TreeArgs {
        host: Some("github.com".to_string()),
        repository: "microck/gitquarry".to_string(),
        reference: Some("main".to_string()),
        paths: vec!["src/*".to_string(), "tests/*".to_string()],
        contains: Some(".rs".to_string()),
        depth: Some(2),
    });

    assert_eq!(
        spec.args,
        strings(&[
            "--host",
            "github.com",
            "tree",
            "microck/gitquarry",
            "--reference",
            "main",
            "--path",
            "src/*",
            "--path",
            "tests/*",
            "--contains",
            ".rs",
            "--depth",
            "2",
            "--format",
            "json",
            "--progress",
            "off",
        ])
    );
}

#[test]
fn builds_code_args() {
    let spec = code(CodeArgs {
        host: Some("github.com".to_string()),
        repository: "microck/gitquarry".to_string(),
        pattern: "fn main".to_string(),
        reference: Some("main".to_string()),
        paths: vec!["src/*.rs".to_string()],
        mode: Some(PatternMode::Regex),
        context: Some(2),
        limit: Some(25),
        max_file_bytes: Some(500_000),
    });

    assert_eq!(
        spec.args,
        strings(&[
            "--host",
            "github.com",
            "code",
            "microck/gitquarry",
            "fn main",
            "--reference",
            "main",
            "--path",
            "src/*.rs",
            "--mode",
            "regex",
            "--context",
            "2",
            "--limit",
            "25",
            "--max-file-bytes",
            "500000",
            "--format",
            "json",
            "--progress",
            "off",
        ])
    );
}

#[test]
fn bare_search_is_subcommand_and_output_options() {
    let spec = search(empty_search());
    assert_eq!(
        spec.args,
        strings(&["search", "--format", "json", "--progress", "off"])
    );
    assert_eq!(spec.output_mode, OutputMode::Json);
}

#[test]
fn search_readme_false_adds_no_flag() {
    let mut args = empty_search();
    args.readme = Some(false);
    args.explain = None;
    args.max_size = Some(u64::MAX);
    args.template = Some(BoolFlag::True);
    args.rank = Some(RankMode::Activity);
    let spec = search(args);
    assert_eq!(
        spec.args,
        strings(&[
            "search",
            "--rank",
            "activity",
            "--template",
            "true",
            "--max-size",
            "18446744073709551615",
            "--format",
            "json",
            "--progress",
            "off",
        ])
    );
}

#[test]
fn search_switches_insert_bare_flags() {
    let mut args = empty_search();
    args.query = Some("q".to_string());
    args.concurrency = Some(3);
    let plain = search(args.clone());
    args.readme = Some(true);
    args.explain = Some(true);
    let flagged = search(args);
    assert_eq!(
        plain.args,
        strings(&["search", "q", "--concurrency", "3", "--format", "json", "--progress", "off"])
    );
    assert_eq!(
        flagged.args,
        strings(&[
            "search",
            "q",
            "--readme",
            "--explain",
            "--concurrency",
            "3",
            "--format",
            "json",
            "--progress",
            "off",
        ])
    );
}

#[test]
fn inspect_without_host_or_readme() {
    let spec = inspect(InspectArgs {
        host: None,
        repository: "a/b".to_string(),
        readme: None,
    });
    assert_eq!(
        spec.args,
        strings(&["inspect", "a/b", "--format", "json", "--progress", "off"])
    );
    assert_eq!(spec.output_mode, OutputMode::Json);
}

#[test]
fn tree_without_paths() {
    let spec = tree(TreeArgs {
        host: None,
        repository: "a/b".to_string(),
        reference: None,
        paths: vec![],
        contains: None,
        depth: Some(0),
    });
    assert_eq!(
        spec.args,
        strings(&["tree", "a/b", "--depth", "0", "--format", "json", "--progress", "off"])
    );
}

#[test]
fn code_literal_mode() {
    let spec = code(CodeArgs {
        host: None,
        repository: "a/b".to_string(),
        pattern: "x".to_string(),
        reference: None,
        paths: vec![],
        mode: Some(PatternMode::Literal),
        context: None,
        limit: Some(4294967295),
        max_file_bytes: None,
    });
    assert_eq!(
        spec.args,
        strings(&[
            "code",
            "a/b",
            "x",
            "--mode",
            "literal",
            "--limit",
            "4294967295",
            "--format",
            "json",
            "--progress",
            "off",
        ])
    );
}

#[test]
fn auth_commands_are_text() {
    let status = auth_status(HostArgs { host: Some("github.com".to_string()) });
    assert_eq!(status.args, strings(&["--host", "github.com", "auth", "status"]));
    assert_eq!(status.output_mode, OutputMode::Text);
    let logout = auth_logout(HostArgs { host: None });
    assert_eq!(logout.args, strings(&["auth", "logout"]));
    assert_eq!(logout.output_mode, OutputMode::Text);
}

#[test]
fn config_and_version_commands() {
    let path = config_path();
    assert_eq!(path.args, strings(&["config", "path"]));
    assert_eq!(path.output_mode, OutputMode::Text);
    let show = config_show();
    assert_eq!(show.args, strings(&["config", "show"]));
    assert_eq!(show.output_mode, OutputMode::Json);
    let v = version();
    assert_eq!(v.args, strings(&["version"]));
    assert_eq!(v.output_mode, OutputMode::Text);
}

#[test]
fn enum_words() {
    assert_eq!(RetrievalMode::Native.as_str(), "native");
    assert_eq!(RankMode::Native.as_str(), "native");
    assert_eq!(RankMode::Query.as_str(), "query");
    assert_eq!(RankMode::Quality.as_str(), "quality");
    assert_eq!(SearchSort::BestMatch.as_str(), "best-match");
    assert_eq!(SearchSort::Updated.as_str(), "updated");
    assert_eq!(DiscoveryDepth::Quick.as_str(), "quick");
    assert_eq!(DiscoveryDepth::Balanced.as_str(), "balanced");
    assert_eq!(ForkMode::False.as_str(), "false");
    assert_eq!(ForkMode::True.as_str(), "true");
}
