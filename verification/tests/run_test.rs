use sophon_cli::bootstrap::provider_registry::{ProviderId, ProviderRegistry};
use sophon_cli::cli::args::{parse_cli_provider, CliArgs, CliProvider, CliSearchType};
use sophon_cli::cli::runner::{
    about_output, build_failure_output, fanout_output, missing_query_output, plan_run,
    single_search_output, RunOutput, RunPlan,
};
use sophon_cli::domain::{
    ProviderSearchFailure, SearchBatchResponse, SearchError, SearchResponse,
};
use sophon_cli::providers::brave::config::BraveConfig;
use sophon_cli::providers::config::EnvVarError;
use sophon_cli::providers::exa::config::ExaConfig;

type Builder = Box<dyn Fn() -> &'static str>;

fn args(query: Option<&str>, about: bool, provider: CliProvider) -> CliArgs {
    CliArgs {
        query: query.map(str::to_string),
        about,
        search_type: CliSearchType::Web,
        provider,
        limit: None,
        offset: None,
        safe_search: None,
        country: None,
        language: None,
    }
}

fn registry_without_keys() -> ProviderRegistry<Builder> {
    ProviderRegistry::production_from_env(
        Err(EnvVarError::NotPresent),
        Err(EnvVarError::NotPresent),
        |_config: BraveConfig| -> Builder { Box::new(|| "brave") },
        |_config: ExaConfig| -> Builder { Box::new(|| "exa") },
    )
}

/// What a run without any API key prints: the plan, then the registry's answer.
fn run_without_keys(args: &CliArgs) -> RunOutput {
    let registry = registry_without_keys();
    match plan_run(args) {
        RunPlan::ShowAbout => about_output(),
        RunPlan::MissingQuery => missing_query_output(),
        RunPlan::Single { provider, .. } => match registry.build(provider) {
            Ok(_) => panic!("no provider is configured"),
            Err(error) => build_failure_output(&error),
        },
        RunPlan::All { .. } => match registry.build_all_enabled() {
            Ok(_) => panic!("no provider is configured"),
            Err(error) => build_failure_output(&error),
        },
    }
}

#[test]
fn cli_about_flag_prints_description() {
    let output = run_without_keys(&args(None, true, CliProvider::default()));

    assert_eq!(output.exit_code, 0);
    assert!(output.stderr.is_none());

    let stdout = output.stdout.expect("about prints");
    assert!(stdout.contains("sophon-cli"));
    assert!(stdout.contains("Three-Body Problem"));
    assert!(stdout.contains("Brave Search"));
    assert!(stdout.contains("Exa"));
}

#[test]
fn about_text_is_the_full_description() {
    assert_eq!(
        about_output().stdout.unwrap(),
        "sophon-cli \u{2014} a provider-agnostic search CLI\n\
         \n\
         Named after the Sophon from Cixin Liu's Three-Body Problem trilogy:\n\
         a sentient proton supercomputer that performs near-infinite computation\n\
         across vast distances. This tiny CLI delegates its heavy lifting to\n\
         distant search APIs the same way.\n\
         \n\
         Currently supports Brave Search (web, news, images, video) and Exa."
    );
}

#[test]
fn cli_missing_query_exits_with_error() {
    let output = run_without_keys(&args(None, false, CliProvider::default()));

    assert_ne!(output.exit_code, 0);
    assert!(output.stdout.is_none());

    let stderr = output.stderr.expect("an error is printed");
    assert!(
        stderr.contains("missing query"),
        "stderr did not contain missing query: {stderr}"
    );
    assert_eq!(
        stderr,
        "Error: missing query. Use --help for usage or --about for more info."
    );
}

fn assert_explicit_provider_unavailable(output: RunOutput, provider: &str) {
    assert_ne!(output.exit_code, 0);
    assert!(output.stdout.is_none());

    let stderr = output.stderr.expect("an error is printed");
    assert!(
        stderr.contains(&format!("provider `{provider}` is unavailable")),
        "stderr did not contain {provider} unavailable error: {stderr}"
    );
    assert!(
        stderr.contains("configured providers: []"),
        "stderr did not include configured provider list: {stderr}"
    );
    assert!(
        !stderr.contains("no configured providers") && !stderr.contains("NoProvidersAvailable"),
        "explicit provider should not use fan-out no-provider error: {stderr}"
    );
}

#[test]
fn cli_brave_provider_without_key_exits_with_provider_unavailable_error() {
    let output = run_without_keys(&args(Some("rust"), false, parse_cli_provider("brave")));

    assert_explicit_provider_unavailable(output, "brave");
}

#[test]
fn cli_exa_provider_without_key_exits_with_provider_unavailable_error() {
    let output = run_without_keys(&args(Some("rust"), false, parse_cli_provider("exa")));

    assert_explicit_provider_unavailable(output, "exa");
}

#[test]
fn provider_all_without_config_exits_nonzero_with_no_provider_error() {
    let output = run_without_keys(&args(Some("rust"), false, parse_cli_provider("all")));

    assert_ne!(output.exit_code, 0);
    assert!(output.stdout.is_none());

    let stderr = output.stderr.expect("an error is printed");
    assert!(
        stderr.contains("no configured providers"),
        "stderr did not contain no configured providers: {stderr}"
    );
}

fn response(provider: &str) -> SearchResponse {
    SearchResponse {
        query: "rust".to_string(),
        provider: provider.to_string(),
        results: vec![],
        total_estimated: None,
        next_page: None,
    }
}

#[test]
fn single_search_prints_results_or_the_failure() {
    let ok = single_search_output(&Ok(response("brave")));
    assert_eq!(ok.exit_code, 0);
    assert!(ok.stderr.is_none());
    assert_eq!(
        ok.stdout.unwrap(),
        "Provider: brave\nQuery: rust\nResults: 0\n"
    );

    let failed = single_search_output(&Err(SearchError::RateLimited));
    assert_eq!(failed.exit_code, 1);
    assert!(failed.stdout.is_none());
    assert_eq!(failed.stderr.unwrap(), "Search failed: rate limited");
}

#[test]
fn fanout_run_fails_only_when_no_provider_answered() {
    let failure = || ProviderSearchFailure {
        provider: "exa".to_string(),
        error: SearchError::Auth,
    };
    let none = fanout_output(&SearchBatchResponse {
        query: "rust".to_string(),
        responses: vec![],
        failures: vec![failure()],
    });
    assert_eq!(none.exit_code, 1);
    assert!(none.stderr.is_none());
    assert!(none.stdout.unwrap().contains("Providers failed: 1"));

    let some = fanout_output(&SearchBatchResponse {
        query: "rust".to_string(),
        responses: vec![response("brave")],
        failures: vec![failure()],
    });
    assert_eq!(some.exit_code, 0);
    assert!(some.stdout.unwrap().contains("Providers succeeded: 1"));
}

#[test]
fn explicit_provider_with_only_the_other_key_names_it() {
    let registry: ProviderRegistry<Builder> = ProviderRegistry::production_from_env(
        Err(EnvVarError::NotPresent),
        Ok("key".to_string()),
        |_config: BraveConfig| -> Builder { Box::new(|| "brave") },
        |_config: ExaConfig| -> Builder { Box::new(|| "exa") },
    );
    let error = match registry.build(ProviderId::Brave) {
        Ok(_) => panic!("brave is not configured"),
        Err(error) => error,
    };
    assert_eq!(
        build_failure_output(&error).stderr.unwrap(),
        "provider `brave` is unavailable; configured providers: [Exa]"
    );
}
