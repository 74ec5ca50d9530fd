use ghost_cli::api::{
    editor_url, graph_action_url, graph_url, graphs_url, list_url, CreateResponseInternal,
    DeleteResponseInternal, ForkResponseInternal,
};
use ghost_cli::commands::{adopt_reported_chain, fork_source_id, new_graph_name};
use ghost_cli::chain::Chain;
use ghost_cli::configure::{check_config_text, get_api_key, Config, ConfigError};
use ghost_cli::explorer::{after_answer, FetchAction, FetchError, SourceAnswer, MAX_PROXY_REDIRECTS};
use ghost_cli::listing::{graph_row, pad_right};
use ghost_cli::types::{ErrorDetails, FileError, Graph, GraphConfig, GraphFile};

fn s(x: &str) -> String {
    x.to_string()
}

fn file(path: &str) -> GraphFile {
    GraphFile { path: s(path), code: s("contract X {}") }
}

#[test]
fn file_error_with_and_without_line() {
    let with = FileError { file: s("indexer.sol"), line: Some(12), error: s("bad") };
    assert_eq!(with.pretty_print(), "indexer.sol:12:\n  bad");
    let without = FileError { file: s("schema.sol"), line: None, error: s("worse") };
    assert_eq!(without.pretty_print(), "schema.sol:\n  worse");
}

#[test]
fn error_details_full_report() {
    let d = ErrorDetails {
        overall_error: s("Compilation failed"),
        errors: Some(vec![s("first"), s("second")]),
        by_file_and_line_errors: Some(vec![FileError {
            file: s("indexer.sol"),
            line: Some(3),
            error: s("missing ;"),
        }]),
    };
    let expected = "Compilation failed\n\nErrors:\n  1. first\n  2. second\n\nFile Errors:\nindexer.sol:3:\n  missing ;";
    assert_eq!(d.pretty_print(), expected);
    assert_eq!(d.to_string(), expected);
    assert!(d.details().ends_with("missing ;\n"));
}

#[test]
fn error_details_overall_only() {
    let d = ErrorDetails { overall_error: s("Oops  "), errors: None, by_file_and_line_errors: None };
    assert_eq!(d.details(), "Oops  \n");
    assert_eq!(d.pretty_print(), "Oops");
}

#[test]
fn error_details_empty_sections() {
    let d = ErrorDetails {
        overall_error: s("Failed"),
        errors: Some(vec![]),
        by_file_and_line_errors: Some(vec![]),
    };
    assert_eq!(d.pretty_print(), "Failed\n\nErrors:\n\nFile Errors:");
}

#[test]
fn delete_answer() {
    assert!(DeleteResponseInternal { ok: true }.try_into().is_ok());
    assert_eq!(DeleteResponseInternal { ok: false }.try_into().unwrap_err(), "Unexpected API response");
}

#[test]
fn create_answer() {
    let good = CreateResponseInternal {
        ok: true,
        id: Some(s("g1")),
        version_id: Some(s("v1")),
        sources: Some(vec![file("schema.sol")]),
    };
    let r = good.try_into().unwrap();
    assert_eq!(r.id, "g1");
    assert_eq!(r.version_id, "v1");
    assert_eq!(r.sources[0].path, "schema.sol");
    let missing = CreateResponseInternal { ok: true, id: Some(s("g1")), version_id: None, sources: Some(vec![]) };
    assert_eq!(missing.try_into().unwrap_err(), "Unexpected API response");
    let failed = CreateResponseInternal {
        ok: false,
        id: Some(s("g1")),
        version_id: Some(s("v1")),
        sources: Some(vec![]),
    };
    assert!(failed.try_into().is_err());
}

#[test]
fn fork_answer() {
    let good = ForkResponseInternal {
        ok: true,
        ghost_graph_id: Some(s("g2")),
        ghost_graph_version_id: Some(s("v2")),
        sources: Some(vec![]),
    };
    let r = good.try_into().unwrap();
    assert_eq!(r.id, "g2");
    assert_eq!(r.version_id, "v2");
    let bad = ForkResponseInternal { ok: true, ghost_graph_id: None, ghost_graph_version_id: Some(s("v2")), sources: Some(vec![]) };
    assert_eq!(bad.try_into().unwrap_err(), "Unexpected API response");
}

#[test]
fn service_urls() {
    assert_eq!(graphs_url("https://api.x"), "https://api.x/gg/cli/graphs");
    assert_eq!(graph_url("https://api.x", "abc"), "https://api.x/gg/cli/graphs/abc");
    assert_eq!(graph_action_url("https://api.x", "abc", "codegen"), "https://api.x/gg/cli/graphs/abc/codegen");
    assert_eq!(list_url("https://api.x"), "https://api.x/gg/cli/list");
    assert_eq!(editor_url("https://app.x", "g", "v"), "https://app.x/graphs/g/versions/v/editor");
}

#[test]
fn config_text_checks() {
    assert!(matches!(check_config_text(None), Err(ConfigError::ConfigNotFound)));
    assert!(matches!(check_config_text(Some(" \n\t")), Err(ConfigError::InvalidConfig)));
    assert!(check_config_text(Some("{\"api_key\":\"k\"}")).is_ok());
}

#[test]
fn api_key_rules() {
    assert_eq!(get_api_key(Ok(Config { api_key: s("SECRET-REDACTED") })).unwrap(), "SECRET-REDACTED");
    assert!(matches!(get_api_key(Ok(Config { api_key: s("   ") })), Err(ConfigError::ApiKeyNotFound)));
    assert!(matches!(get_api_key(Err(ConfigError::InvalidConfig)), Err(ConfigError::InvalidConfig)));
}

#[test]
fn config_error_messages() {
    assert_eq!(
        ConfigError::ConfigNotFound.message(),
        "Config file not found. Use 'configure' to set up your API key."
    );
    assert_eq!(
        ConfigError::ApiKeyNotFound.message(),
        "API key not found in config. Use 'configure' to set up your API key."
    );
    assert_eq!(
        ConfigError::InvalidConfig.message(),
        "Config file is empty or invalid. Use 'configure' to set up your API key."
    );
    assert_eq!(ConfigError::Custom(s("boom")).message(), "Error: boom");
    let io = ConfigError::from(std::io::Error::new(std::io::ErrorKind::Other, "disk"));
    assert_eq!(io.message(), "IO error: disk");
}

#[test]
fn proxy_following() {
    let a = alloy_primitives::Address::repeat_byte(7);
    assert!(matches!(after_answer(1, SourceAnswer::NoItem), FetchAction::Fail(FetchError::NoItem)));
    assert!(matches!(after_answer(2, SourceAnswer::Contract), FetchAction::UseAbi));
    match after_answer(1, SourceAnswer::Proxy(a)) {
        FetchAction::Lookup(next) => assert_eq!(next, a),
        _ => panic!("expected a lookup"),
    }
    assert!(matches!(
        after_answer(MAX_PROXY_REDIRECTS, SourceAnswer::Proxy(a)),
        FetchAction::Fail(FetchError::TooManyRedirects)
    ));
    assert_eq!(FetchError::TooManyRedirects.message(), "ABI not found after 3 redirects");
    assert_eq!(FetchError::NoItem.message(), "No item found");
}

#[test]
fn listing_rows() {
    let g = Graph {
        latest_version_id: s("v9"),
        name: s("  My Graph "),
        description: None,
        chain: 8453,
        created_at: s("2024-01-01T00:00:00Z"),
    };
    let row = graph_row(g, None);
    assert_eq!(row.id, "v9");
    assert_eq!(row.name, "My Graph            ");
    assert_eq!(row.description, "--");
    assert_eq!(row.chain, "base (8453)");
    assert_eq!(row.created, "2024-01-01T00:00:00Z");
    let g2 = Graph {
        latest_version_id: s("v1"),
        name: s("a-very-long-graph-name-indeed"),
        description: Some(s("desc")),
        chain: 1,
        created_at: s("x"),
    };
    let row2 = graph_row(g2, Some(s("2024-01-01 00:00")));
    assert_eq!(row2.name, "a-very-long-graph-name-indeed");
    assert_eq!(row2.description, "desc");
    assert_eq!(row2.created, "2024-01-01 00:00");
    assert_eq!(pad_right("ab", 4), "ab  ");
    assert_eq!(pad_right("", 0), "");
}

#[test]
fn chain_adoption() {
    let mut c = GraphConfig { id: s("g"), version_id: s("v"), chain: None };
    assert!(!adopt_reported_chain(&mut c, 999));
    assert_eq!(c.chain, None);
    assert!(adopt_reported_chain(&mut c, 81457));
    assert_eq!(c.chain, Some(Chain::BlastMainnet));
    assert!(!adopt_reported_chain(&mut c, 1));
    assert_eq!(c.chain, Some(Chain::BlastMainnet));
}

#[test]
fn fork_and_name_choices() {
    assert_eq!(fork_source_id(Some(s("a")), Some(s("b"))), Ok(s("a")));
    assert_eq!(fork_source_id(None, Some(s("b"))), Ok(s("b")));
    assert_eq!(fork_source_id(None, None), Err(s("must pass --id if not --replace")));
    assert_eq!(new_graph_name(Some(s("n")), Some(s("d"))), "n");
    assert_eq!(new_graph_name(None, Some(s("d"))), "d");
    assert_eq!(new_graph_name(None, None), "My Index");
}
