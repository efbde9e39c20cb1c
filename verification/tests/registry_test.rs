use sophon_cli::bootstrap::provider_catalog::{
    default_provider_id, find_provider_by_cli_token, provider_catalog, provider_cli_tokens,
    provider_display_names, provider_env_var_hint,
};
use sophon_cli::bootstrap::provider_registry::{
    debug_list_string, BuildSearchServiceError, ProviderId, ProviderRegistry,
};

use sophon_cli::providers::brave::config::BraveConfig;
use sophon_cli::providers::config::EnvVarError;
use sophon_cli::providers::exa::config::ExaConfig;

type Builder = Box<dyn Fn() -> &'static str>;
type KeyedBuilder = Box<dyn Fn() -> String>;

fn env_value(value: Option<&str>) -> Result<String, EnvVarError> {
    match value {
        Some(v) => Ok(v.to_string()),
        None => Err(EnvVarError::NotPresent),
    }
}

fn production_registry(brave: Option<&str>, exa: Option<&str>) -> ProviderRegistry<KeyedBuilder> {
    ProviderRegistry::production_from_env(
        env_value(brave),
        env_value(exa),
        |config: BraveConfig| -> KeyedBuilder {
            Box::new(move || format!("brave {} {}", config.base_url, config.api_key))
        },
        |config: ExaConfig| -> KeyedBuilder {
            Box::new(move || format!("exa {} {}", config.base_url, config.api_key))
        },
    )
}

fn provider_builder(name: &'static str) -> Builder {
    Box::new(move || name)
}

#[test]
fn empty_registry_reports_provider_unavailable() {
    let registry: ProviderRegistry<Builder> = ProviderRegistry::empty();

    match registry.build(ProviderId::Brave) {
        Err(BuildSearchServiceError::ProviderUnavailable {
            provider,
            available,
        }) => {
            assert_eq!(provider, ProviderId::Brave);
            assert!(available.is_empty());
        }
        Err(other) => panic!("expected ProviderUnavailable error, got {other:?}"),
        Ok(_) => panic!("expected ProviderUnavailable error"),
    }
}

#[test]
fn registered_provider_is_available_and_builds_service() {
    let mut registry: ProviderRegistry<Builder> = ProviderRegistry::empty();
    registry.register(ProviderId::Brave, provider_builder("mock"));

    assert_eq!(registry.available_providers(), vec![ProviderId::Brave]);
    assert!(registry.build(ProviderId::Brave).is_ok());
}

#[test]
fn available_providers_are_returned_in_stable_order() {
    let mut registry: ProviderRegistry<Builder> = ProviderRegistry::empty();
    registry.register(ProviderId::Exa, provider_builder("mock"));
    registry.register(ProviderId::Brave, provider_builder("mock"));

    assert_eq!(
        registry.available_providers(),
        vec![ProviderId::Brave, ProviderId::Exa]
    );
}

#[test]
fn empty_registry_build_fails_with_provider_unavailable() {
    let registry: ProviderRegistry<Builder> = ProviderRegistry::empty();
    let result = registry.build(ProviderId::Brave);

    match result {
        Err(BuildSearchServiceError::ProviderUnavailable {
            provider,
            available,
        }) => {
            assert_eq!(provider, ProviderId::Brave);
            assert!(available.is_empty());
        }
        other => panic!(
            "expected ProviderUnavailable error, got {:?}",
            other.map(|_| ())
        ),
    }
}

#[test]
fn empty_registry_build_all_enabled_fails_with_no_providers() {
    let registry: ProviderRegistry<Builder> = ProviderRegistry::empty();
    let result = registry.build_all_enabled();

    match result {
        Err(BuildSearchServiceError::NoProvidersAvailable) => {}
        other => panic!(
            "expected NoProvidersAvailable error, got {:?}",
            other.map(|_| ())
        ),
    }
}

#[test]
fn registered_provider_is_available() {
    let mut registry: ProviderRegistry<Builder> = ProviderRegistry::empty();
    registry.register(ProviderId::Brave, provider_builder("stub"));

    assert_eq!(registry.available_providers(), vec![ProviderId::Brave]);
}

#[test]
fn available_providers_returned_in_stable_order() {
    let mut registry: ProviderRegistry<Builder> = ProviderRegistry::empty();
    registry.register(ProviderId::Exa, provider_builder("exa"));
    registry.register(ProviderId::Brave, provider_builder("brave"));

    assert_eq!(
        registry.available_providers(),
        vec![ProviderId::Brave, ProviderId::Exa]
    );
}

#[test]
fn registered_provider_builds_service_over_its_builder() {
    let mut registry: ProviderRegistry<Builder> = ProviderRegistry::empty();
    registry.register(ProviderId::Brave, provider_builder("stub"));

    let service = registry.build(ProviderId::Brave).expect("build succeeds");
    assert_eq!(*service.provider(), "stub");
}

#[test]
fn build_all_enabled_uses_stable_order_of_builders() {
    let mut registry: ProviderRegistry<Builder> = ProviderRegistry::empty();
    registry.register(ProviderId::Exa, provider_builder("exa"));
    registry.register(ProviderId::Brave, provider_builder("brave"));

    let service = registry.build_all_enabled().expect("build succeeds");
    assert_eq!(service.providers(), &vec!["brave", "exa"]);
}

#[test]
fn registering_again_replaces_the_builder() {
    let mut registry: ProviderRegistry<Builder> = ProviderRegistry::empty();
    registry.register(ProviderId::Exa, provider_builder("first"));
    registry.register(ProviderId::Exa, provider_builder("second"));

    assert_eq!(registry.available_providers(), vec![ProviderId::Exa]);
    let service = registry.build(ProviderId::Exa).expect("build succeeds");
    assert_eq!(*service.provider(), "second");
}

#[test]
fn unavailable_provider_lists_configured_ones() {
    let mut registry: ProviderRegistry<Builder> = ProviderRegistry::empty();
    registry.register(ProviderId::Exa, provider_builder("exa"));

    match registry.build(ProviderId::Brave) {
        Err(error) => {
            assert_eq!(
                error.to_string(),
                "provider `brave` is unavailable; configured providers: [Exa]"
            );
            match error {
                BuildSearchServiceError::ProviderUnavailable {
                    provider,
                    available,
                } => {
                    assert_eq!(provider, ProviderId::Brave);
                    assert_eq!(available, vec![ProviderId::Exa]);
                }
                other => panic!("unexpected error {other:?}"),
            }
        }
        Ok(_) => panic!("expected ProviderUnavailable error"),
    }
}

#[test]
fn build_error_messages() {
    let none = BuildSearchServiceError::ProviderUnavailable {
        provider: ProviderId::Exa,
        available: vec![],
    };
    assert_eq!(
        none.to_string(),
        "provider `exa` is unavailable; configured providers: []"
    );
    assert_eq!(
        BuildSearchServiceError::NoProvidersAvailable.to_string(),
        "no configured providers; set BRAVE_API_KEY and/or EXA_API_KEY to enable a provider"
    );
    assert_eq!(
        debug_list_string(&vec![ProviderId::Brave, ProviderId::Exa]),
        format!("{:?}", vec![ProviderId::Brave, ProviderId::Exa])
    );
}

#[test]
fn catalog_describes_providers_in_stable_order() {
    let catalog = provider_catalog();
    assert_eq!(catalog.len(), 2);
    assert_eq!(catalog[0].id(), ProviderId::Brave);
    assert_eq!(catalog[0].cli_token(), "brave");
    assert_eq!(catalog[0].display_name(), "Brave Search");
    assert_eq!(catalog[0].env_var_name(), "BRAVE_API_KEY");
    assert_eq!(catalog[1].id(), ProviderId::Exa);
    assert_eq!(catalog[1].cli_token(), "exa");
    assert_eq!(catalog[1].display_name(), "Exa");
    assert_eq!(catalog[1].env_var_name(), "EXA_API_KEY");

    assert_eq!(default_provider_id(), ProviderId::Brave);
    assert_eq!(provider_cli_tokens(), vec!["brave", "exa"]);
    assert_eq!(provider_display_names(), vec!["Brave Search", "Exa"]);
    assert_eq!(provider_env_var_hint(), "BRAVE_API_KEY and/or EXA_API_KEY");
}

#[test]
fn provider_ids_know_their_catalog_columns() {
    assert_eq!(ProviderId::Brave.cli_token(), "brave");
    assert_eq!(ProviderId::Exa.display_name(), "Exa");
    assert_eq!(ProviderId::Exa.env_var_name(), "EXA_API_KEY");
    assert_eq!(ProviderId::Brave.to_string(), "brave");
    assert_eq!(ProviderId::Exa.debug_name(), format!("{:?}", ProviderId::Exa));
}

#[test]
fn cli_tokens_round_trip_through_the_catalog() {
    for id in [ProviderId::Brave, ProviderId::Exa] {
        assert_eq!(find_provider_by_cli_token(id.cli_token()), Some(id));
    }
    assert_eq!(find_provider_by_cli_token("unknown"), None);
    assert_eq!(find_provider_by_cli_token("Brave"), None);
    assert_eq!(find_provider_by_cli_token(""), None);
}

#[test]
fn production_registry_without_keys_has_no_providers() {
    let registry = production_registry(None, None);

    assert!(registry.available_providers().is_empty());
}

#[test]
fn production_registry_treats_empty_keys_as_unconfigured() {
    let registry = production_registry(Some("   "), Some(""));

    assert!(registry.available_providers().is_empty());
}

#[test]
fn production_registry_includes_brave_only_when_only_brave_key_is_set() {
    let registry = production_registry(Some("test-brave-key"), None);

    assert_eq!(registry.available_providers(), vec![ProviderId::Brave]);
}

#[test]
fn production_registry_includes_exa_only_when_only_exa_key_is_set() {
    let registry = production_registry(None, Some("test-exa-key"));

    assert_eq!(registry.available_providers(), vec![ProviderId::Exa]);
}

#[test]
fn production_registry_includes_both_env_configured_providers_in_stable_order() {
    let registry = production_registry(Some("test-brave-key"), Some("test-exa-key"));

    assert_eq!(
        registry.available_providers(),
        vec![ProviderId::Brave, ProviderId::Exa]
    );
}

#[test]
fn production_registry_reports_explicit_provider_unavailable_when_only_other_provider_exists() {
    let registry = production_registry(None, Some("test-exa-key"));
    let result = registry.build(ProviderId::Brave);

    match result {
        Err(BuildSearchServiceError::ProviderUnavailable {
            provider,
            available,
        }) => {
            assert_eq!(provider, ProviderId::Brave);
            assert_eq!(available, vec![ProviderId::Exa]);
        }
        other => panic!(
            "expected ProviderUnavailable error, got {:?}",
            other.map(|_| ())
        ),
    }
}

#[test]
fn production_registry_builders_carry_the_configured_keys() {
    let registry = production_registry(Some(" brave-key "), Some("exa-key"));

    let brave = registry.build(ProviderId::Brave).expect("brave is configured");
    assert_eq!(
        brave.provider(),
        "brave https://api.search.brave.com/res/v1  brave-key "
    );
    let exa = registry.build(ProviderId::Exa).expect("exa is configured");
    assert_eq!(exa.provider(), "exa https://api.exa.ai exa-key");
    let unicode = ProviderRegistry::<KeyedBuilder>::production_from_env(
        Err(EnvVarError::NotUnicode),
        Ok("k".to_string()),
        |_config: BraveConfig| -> KeyedBuilder { Box::new(|| String::new()) },
        |_config: ExaConfig| -> KeyedBuilder { Box::new(|| String::new()) },
    );
    assert_eq!(unicode.available_providers(), vec![ProviderId::Exa]);
}
