//! The load-and-validate pipeline exercised end to end on a sample
//! document, with the schema and template collaborators standing in as
//! recorded reports.

use gateway_config::config::Config;
use gateway_config::error::Error;
use gateway_config::function::FunctionConfig;
use gateway_config::raw::parse_document;
use gateway_config::schema::SchemaSource;
use gateway_config::template::TemplateSource;
use gateway_config::tool::ToolChoice;
use gateway_config::variant::{JsonMode, VariantConfig};

fn get_sample_valid_config() -> toml::Table {
    let config_str = r#"
        [gateway]
        bind_address = "0.0.0.0:3000"

        [models."gpt-3.5-turbo"]
        routing = ["openai", "azure"]

        [models."gpt-3.5-turbo".providers.openai]
        type = "openai"
        model_name = "gpt-3.5-turbo"

        [models."gpt-3.5-turbo".providers.azure]
        type = "azure"
        deployment_id = "gpt-35-turbo"
        endpoint = "https://your-endpoint.openai.azure.com"

        [models.nimbus-3-mini-20240307]
        routing = ["anthropic"]

        [models.nimbus-3-mini-20240307.providers.anthropic]
        type = "anthropic"
        model_name = "nimbus-3-mini-20240307"

        [functions.generate_draft]
        type = "chat"
        system_schema = "fixtures/config/functions/generate_draft/system_schema.json"

        [functions.generate_draft.variants.openai_promptA]
        type = "chat_completion"
        weight = 0.9
        model = "gpt-3.5-turbo"
        system_template = "fixtures/config/functions/generate_draft/promptA/system_template.minijinja"

        [functions.generate_draft.variants.openai_promptB]
        type = "chat_completion"
        weight = 0.1
        model = "gpt-3.5-turbo"
        system_template = "fixtures/config/functions/generate_draft/promptB/system_template.minijinja"

        [functions.json_with_schemas]
        type = "json"
        system_schema = "fixtures/config/functions/json_with_schemas/system_schema.json"
        output_schema = "fixtures/config/functions/json_with_schemas/output_schema.json"

        [functions.json_with_schemas.variants.openai_promptA]
        type = "chat_completion"
        weight = 0.9
        model = "gpt-3.5-turbo"
        system_template = "fixtures/config/functions/json_with_schemas/promptA/system_template.minijinja"
        json_mode = "implicit_tool"

        [functions.json_with_schemas.variants.openai_promptB]
        type = "chat_completion"
        weight = 0.1
        model = "gpt-3.5-turbo"
        system_template = "fixtures/config/functions/json_with_schemas/promptB/system_template.minijinja"

        [functions.weather_helper]
        type = "chat"
        tools = ["get_temperature"]
        tool_choice = {specific = "get_temperature"}

        [functions.weather_helper.variants.openai_promptA]
        type = "chat_completion"
        weight = 1.0
        model = "gpt-3.5-turbo"

        [functions.templates_without_variables_chat]
        type = "chat"

        [functions.templates_without_variables_chat.variants.variant_without_templates]
        type = "chat_completion"
        weight = 1.0
        model = "gpt-3.5-turbo"
        system_template = "fixtures/config/functions/templates_without_variables/variant_without_templates/system_template.minijinja"
        user_template = "fixtures/config/functions/templates_without_variables/variant_without_templates/user_template.minijinja"
        assistant_template = "fixtures/config/functions/templates_without_variables/variant_without_templates/assistant_template.minijinja"

        [functions.templates_with_variables_chat]
        type = "chat"
        system_schema = "fixtures/config/functions/templates_with_variables/system_schema.json"
        user_schema = "fixtures/config/functions/templates_with_variables/user_schema.json"
        assistant_schema = "fixtures/config/functions/templates_with_variables/assistant_schema.json"

        [functions.templates_with_variables_chat.variants.variant_with_variables]
        type = "chat_completion"
        weight = 1.0
        model = "gpt-3.5-turbo"
        system_template = "fixtures/config/functions/templates_with_variables/variant_with_variables/system_template.minijinja"
        user_template = "fixtures/config/functions/templates_with_variables/variant_with_variables/user_template.minijinja"
        assistant_template = "fixtures/config/functions/templates_with_variables/variant_with_variables/assistant_template.minijinja"

        [functions.templates_without_variables_json]
        type = "json"
        output_schema = "fixtures/config/functions/json_with_schemas/output_schema.json"

        [functions.templates_without_variables_json.variants.variant_without_templates]
        type = "chat_completion"
        weight = 1.0
        model = "gpt-3.5-turbo"
        system_template = "fixtures/config/functions/templates_without_variables/variant_without_templates/system_template.minijinja"
        user_template = "fixtures/config/functions/templates_without_variables/variant_without_templates/user_template.minijinja"
        assistant_template = "fixtures/config/functions/templates_without_variables/variant_without_templates/assistant_template.minijinja"

        [functions.templates_with_variables_json]
        type = "json"
        system_schema = "fixtures/config/functions/templates_with_variables/system_schema.json"
        user_schema = "fixtures/config/functions/templates_with_variables/user_schema.json"
        assistant_schema = "fixtures/config/functions/templates_with_variables/assistant_schema.json"
        output_schema = "fixtures/config/functions/json_with_schemas/output_schema.json"

        [functions.templates_with_variables_json.variants.variant_with_variables]
        type = "chat_completion"
        weight = 1.0
        model = "gpt-3.5-turbo"
        system_template = "fixtures/config/functions/templates_with_variables/variant_with_variables/system_template.minijinja"
        user_template = "fixtures/config/functions/templates_with_variables/variant_with_variables/user_template.minijinja"
        assistant_template = "fixtures/config/functions/templates_with_variables/variant_with_variables/assistant_template.minijinja"

        [metrics.task_success]
        type = "boolean"
        optimize = "max"
        level = "inference"

        [metrics.user_rating]
        type = "float"
        optimize = "max"
        level = "episode"

        [tools.get_temperature]
        description = "Get the weather for a given location"
        parameters = "fixtures/config/tools/get_temperature.json"
        "#;

    config_str.parse::<toml::Table>().expect("Failed to parse sample config")
}

/// The schema collaborator's report for the sample document: every schema
/// file it references compiles.
fn sample_schemas() -> SchemaSource {
    let mut s = SchemaSource::new();
    let compiled = [
        "fixtures/config/functions/generate_draft/system_schema.json",
        "fixtures/config/functions/json_with_schemas/system_schema.json",
        "fixtures/config/functions/json_with_schemas/output_schema.json",
        "fixtures/config/functions/templates_with_variables/system_schema.json",
        "fixtures/config/functions/templates_with_variables/user_schema.json",
        "fixtures/config/functions/templates_with_variables/assistant_schema.json",
        "fixtures/config/tools/get_temperature.json",
    ];
    for p in compiled {
        s.add_compiled(p.to_string());
    }
    s
}

/// The template collaborator's report for the sample document: every
/// template parses, and only those under `templates_with_variables` require
/// named variables.
fn sample_templates() -> TemplateSource {
    let mut t = TemplateSource::new();
    let plain = [
        "fixtures/config/functions/generate_draft/promptA/system_template.minijinja",
        "fixtures/config/functions/generate_draft/promptB/system_template.minijinja",
        "fixtures/config/functions/json_with_schemas/promptA/system_template.minijinja",
        "fixtures/config/functions/json_with_schemas/promptB/system_template.minijinja",
        "fixtures/config/functions/templates_without_variables/variant_without_templates/system_template.minijinja",
        "fixtures/config/functions/templates_without_variables/variant_without_templates/user_template.minijinja",
        "fixtures/config/functions/templates_without_variables/variant_without_templates/assistant_template.minijinja",
    ];
    for p in plain {
        t.add_parsed(p.to_string(), false);
    }
    let with_variables = [
        "fixtures/config/functions/templates_with_variables/variant_with_variables/system_template.minijinja",
        "fixtures/config/functions/templates_with_variables/variant_with_variables/user_template.minijinja",
        "fixtures/config/functions/templates_with_variables/variant_with_variables/assistant_template.minijinja",
    ];
    for p in with_variables {
        t.add_parsed(p.to_string(), true);
    }
    t
}

/// Serialize a mutated table back to text and run the whole pipeline on it
/// with an empty base directory.
fn load_from_toml(table: &toml::Table) -> Result<Config, Error> {
    let text = toml::to_string(table).expect("Failed to serialize config");
    let doc = parse_document(&text).expect("Failed to parse config text");
    Config::load_from_table(&doc, "", &sample_schemas(), &sample_templates())
}

fn variant<'a>(f: &'a FunctionConfig, name: &str) -> &'a VariantConfig {
    f.variants()
        .iter()
        .find(|(n, _)| n == name)
        .map(|(_, v)| v)
        .expect("variant not found")
}

/// Ensure that the sample valid config can be loaded without errors
#[test]
fn test_config_from_toml_table_valid() {
    let config = get_sample_valid_config();
    load_from_toml(&config).expect("Failed to load config");

    // Ensure that removing the `[metrics]` section still parses the config
    let mut config = get_sample_valid_config();
    config
        .remove("metrics")
        .expect("Failed to remove `[metrics]` section");
    let config = load_from_toml(&config).expect("Failed to load config");

    // Check that the JSON mode is set properly on the JSON variants
    let json_function = config.get_function("json_with_schemas").unwrap();
    let prompt_a_json_mode = match variant(json_function, "openai_promptA") {
        VariantConfig::ChatCompletion(chat_config) => &chat_config.json_mode,
    };
    assert_eq!(prompt_a_json_mode, &JsonMode::ImplicitTool);

    let prompt_b_json_mode = match variant(json_function, "openai_promptB") {
        VariantConfig::ChatCompletion(chat_config) => &chat_config.json_mode,
    };
    assert_eq!(prompt_b_json_mode, &JsonMode::On);

    // Check that the tool choice for get_weather is set to "specific" and the correct tool
    let function = config.get_function("weather_helper").unwrap();
    match function {
        FunctionConfig::Chat(chat_config) => {
            assert_eq!(
                chat_config.tool_choice,
                ToolChoice::Specific("get_temperature".to_string())
            );
        }
        _ => panic!("Expected a chat function"),
    }
}

/// Ensure that the config parsing correctly handles the `gateway.bind_address` field
#[test]
fn test_config_gateway_bind_address() {
    let mut config = get_sample_valid_config();

    // Test with a valid bind address
    let parsed_config = load_from_toml(&config).unwrap();
    assert_eq!(parsed_config.gateway.bind_address.unwrap(), "0.0.0.0:3000");

    // Test with missing gateway section
    config.remove("gateway");
    let parsed_config = load_from_toml(&config).unwrap();
    assert!(parsed_config.gateway.bind_address.is_none());

    // Test with missing bind_address
    config.insert(
        "gateway".to_string(),
        toml::Value::Table(toml::Table::new()),
    );
    let parsed_config = load_from_toml(&config).unwrap();
    assert!(parsed_config.gateway.bind_address.is_none());
}

/// Ensure that the config parsing fails when the `[models]` section is missing
#[test]
fn test_config_from_toml_table_missing_models() {
    let mut config = get_sample_valid_config();
    config
        .remove("models")
        .expect("Failed to remove `[models]` section");

    assert_eq!(
        load_from_toml(&config).unwrap_err(),
        Error::Config {
            message: "Failed to parse config:\nmissing field `models`\n".to_string()
        }
    );
}

/// Ensure that the config parsing fails when the `[providers]` section is missing
#[test]
fn test_config_from_toml_table_missing_providers() {
    let mut config = get_sample_valid_config();
    config["models"]["nimbus-3-mini-20240307"]
        .as_table_mut()
        .expect("Failed to get `models.nimbus-3-mini-20240307` section")
        .remove("providers")
        .expect("Failed to remove `[providers]` section");
    let result = load_from_toml(&config);
    assert_eq!(
        result.unwrap_err(),
        Error::Config {
            message: "Failed to parse config:\nmissing field `providers`\nin `models.nimbus-3-mini-20240307`\n".to_string()
        }
    );
}

/// Ensure that the config parsing fails when the `[functions]` section is missing
#[test]
fn test_config_from_toml_table_missing_functions() {
    let mut config = get_sample_valid_config();
    config
        .remove("functions")
        .expect("Failed to remove `[functions]` section");
    let result = load_from_toml(&config);
    assert_eq!(
        result.unwrap_err(),
        Error::Config {
            message: "Failed to parse config:\nmissing field `functions`\n".to_string()
        }
    );
}

/// Ensure that the config parsing fails when the `[variants]` section is missing
#[test]
fn test_config_from_toml_table_missing_variants() {
    let mut config = get_sample_valid_config();
    config["functions"]["generate_draft"]
        .as_table_mut()
        .expect("Failed to get `functions.generate_draft` section")
        .remove("variants")
        .expect("Failed to remove `[variants]` section");
    let result = load_from_toml(&config);
    assert_eq!(
        result.unwrap_err(),
        Error::Config {
            message:
                "Failed to parse config:\nmissing field `variants`\nin `functions.generate_draft`\n"
                    .to_string()
        }
    );
}

/// Ensure that the config parsing fails when there are extra variables at the root level
#[test]
fn test_config_from_toml_table_extra_variables_root() {
    let mut config = get_sample_valid_config();
    config.insert("enable_agi".into(), true.into());
    let result = load_from_toml(&config);
    assert!(result
        .unwrap_err()
        .to_message()
        .contains("Failed to parse config:\nunknown field `enable_agi`, expected one of"));
}

/// Ensure that the config parsing fails when there are extra variables for models
#[test]
fn test_config_from_toml_table_extra_variables_models() {
    let mut config = get_sample_valid_config();
    config["models"]["nimbus-3-mini-20240307"]
        .as_table_mut()
        .expect("Failed to get `models.nimbus-3-mini-20240307` section")
        .insert("enable_agi".into(), true.into());
    let result = load_from_toml(&config);
    assert!(result
        .unwrap_err()
        .to_message()
        .contains("Failed to parse config:\nunknown field `enable_agi`, expected"));
}

/// Ensure that the config parsing fails when there are extra variables for providers
#[test]
fn test_config_from_toml_table_extra_variables_providers() {
    let mut config = get_sample_valid_config();
    config["models"]["nimbus-3-mini-20240307"]["providers"]["anthropic"]
        .as_table_mut()
        .expect("Failed to get `models.nimbus-3-mini-20240307.providers.anthropic` section")
        .insert("enable_agi".into(), true.into());
    let result = load_from_toml(&config);
    assert!(result
        .unwrap_err()
        .to_message()
        .contains("Failed to parse config:\nunknown field `enable_agi`, expected"));
}

/// Ensure that the config parsing fails when there are extra variables for functions
#[test]
fn test_config_from_toml_table_extra_variables_functions() {
    let mut config = get_sample_valid_config();
    config["functions"]["generate_draft"]
        .as_table_mut()
        .expect("Failed to get `functions.generate_draft` section")
        .insert("enable_agi".into(), true.into());
    let result = load_from_toml(&config);
    assert!(result
        .unwrap_err()
        .to_message()
        .contains("Failed to parse config:\nunknown field `enable_agi`, expected"));
}

/// Ensure that the config parsing fails when a JSON function has no output schema
#[test]
fn test_config_from_toml_table_json_function_no_output_schema() {
    let mut config = get_sample_valid_config();
    config["functions"]["json_with_schemas"]
        .as_table_mut()
        .expect("Failed to get `functions.generate_draft` section")
        .remove("output_schema");
    let result = load_from_toml(&config);
    assert!(result.unwrap_err().to_message().contains(
        "Failed to parse config:\nmissing field `output_schema`\nin `functions.json_with_schemas`\n"
    ));
}

/// Ensure that the config parsing fails when there are extra variables for variants
#[test]
fn test_config_from_toml_table_extra_variables_variants() {
    let mut config = get_sample_valid_config();
    config["functions"]["generate_draft"]["variants"]["openai_promptA"]
        .as_table_mut()
        .expect("Failed to get `functions.generate_draft.variants.openai_promptA` section")
        .insert("enable_agi".into(), true.into());
    let result = load_from_toml(&config);
    assert!(result
        .unwrap_err()
        .to_message()
        .contains("Failed to parse config:\nunknown field `enable_agi`, expected"));
}

/// Ensure that the config parsing fails when there are extra variables for metrics
#[test]
fn test_config_from_toml_table_extra_variables_metrics() {
    let mut config = get_sample_valid_config();
    config["metrics"]["task_success"]
        .as_table_mut()
        .expect("Failed to get `metrics.task_success` section")
        .insert("enable_agi".into(), true.into());
    let result = load_from_toml(&config);
    assert!(result
        .unwrap_err()
        .to_message()
        .contains("Failed to parse config:\nunknown field `enable_agi`, expected"));
}

/// Ensure that the config validation fails when a model has no providers in `routing`
#[test]
fn test_config_validate_model_empty_providers() {
    let mut config = get_sample_valid_config();
    config["models"]["gpt-3.5-turbo"]["routing"] = toml::Value::Array(vec![]);
    let result = load_from_toml(&config);
    assert_eq!(
        result.unwrap_err(),
        Error::Config {
            message: "Invalid Config: `models.gpt-3.5-turbo`: `routing` must not be empty"
                .to_string()
        }
    );
}

/// Ensure that the config validation fails when there are duplicate routing entries
#[test]
fn test_config_validate_model_duplicate_routing_entry() {
    let mut config = get_sample_valid_config();
    config["models"]["gpt-3.5-turbo"]["routing"] =
        toml::Value::Array(vec!["openai".into(), "openai".into()]);
    let result = load_from_toml(&config);
    assert_eq!(
        result.unwrap_err(),
        Error::Config {
            message: "Invalid Config: `models.gpt-3.5-turbo.routing`: duplicate entry `openai`"
                .to_string()
        }
    );
}

/// Ensure that the config validation fails when a routing entry does not exist in providers
#[test]
fn test_config_validate_model_routing_entry_not_in_providers() {
    let mut config = get_sample_valid_config();
    config["models"]["gpt-3.5-turbo"]["routing"] = toml::Value::Array(vec!["closedai".into()]);
    let result = load_from_toml(&config);
    assert_eq!(
        result.unwrap_err(),
        Error::Config {
            message: "Invalid Config: `models.gpt-3.5-turbo`: `routing` contains entry `closedai` that does not exist in `providers`"
                .to_string()
        }
    );
}

/// Ensure that the config loading fails when the system schema does not exist
#[test]
fn test_config_system_schema_does_not_exist() {
    let mut sample_config = get_sample_valid_config();
    sample_config["functions"]["templates_with_variables_chat"]["system_schema"] =
        "non_existent_file.json".into();
    let result = load_from_toml(&sample_config);
    assert_eq!(
        result.unwrap_err(),
        Error::JsonSchema {
            message: "Failed to read JSON Schema `non_existent_file.json`: No such file or directory (os error 2)".to_string()
        }
    );
    let mut sample_config = get_sample_valid_config();
    sample_config["functions"]["templates_with_variables_json"]["system_schema"] =
        "non_existent_file.json".into();
    let result = load_from_toml(&sample_config);
    assert_eq!(
        result.unwrap_err(),
        Error::JsonSchema {
            message: "Failed to read JSON Schema `non_existent_file.json`: No such file or directory (os error 2)".to_string()
        }
    );
}

/// Ensure that the config loading fails when the user schema does not exist
#[test]
fn test_config_user_schema_does_not_exist() {
    let mut sample_config = get_sample_valid_config();
    sample_config["functions"]["templates_with_variables_chat"]["user_schema"] =
        "non_existent_file.json".into();
    let result = load_from_toml(&sample_config);
    assert_eq!(
        result.unwrap_err(),
        Error::JsonSchema {
            message: "Failed to read JSON Schema `non_existent_file.json`: No such file or directory (os error 2)".to_string()
        }
    );
    let mut sample_config = get_sample_valid_config();
    sample_config["functions"]["templates_with_variables_json"]["user_schema"] =
        "non_existent_file.json".into();
    let result = load_from_toml(&sample_config);
    assert_eq!(
        result.unwrap_err(),
        Error::JsonSchema {
            message: "Failed to read JSON Schema `non_existent_file.json`: No such file or directory (os error 2)".to_string()
        }
    );
}

/// Ensure that the config loading fails when the assistant schema does not exist
#[test]
fn test_config_assistant_schema_does_not_exist() {
    let mut sample_config = get_sample_valid_config();
    sample_config["functions"]["templates_with_variables_chat"]["assistant_schema"] =
        "non_existent_file.json".into();
    let result = load_from_toml(&sample_config);
    assert_eq!(
        result.unwrap_err(),
        Error::JsonSchema {
            message: "Failed to read JSON Schema `non_existent_file.json`: No such file or directory (os error 2)".to_string()
        }
    );
    let mut sample_config = get_sample_valid_config();
    sample_config["functions"]["templates_with_variables_json"]["assistant_schema"] =
        "non_existent_file.json".into();
    let result = load_from_toml(&sample_config);
    assert_eq!(
        result.unwrap_err(),
        Error::JsonSchema {
            message: "Failed to read JSON Schema `non_existent_file.json`: No such file or directory (os error 2)".to_string()
        }
    );
}

/// Ensure that the config loading fails when the system schema is missing but is needed
#[test]
fn test_config_system_schema_is_needed() {
    let mut sample_config = get_sample_valid_config();
    sample_config["functions"]["templates_with_variables_chat"]
        .as_table_mut()
        .unwrap()
        .remove("system_schema");
    let result = load_from_toml(&sample_config);
    assert_eq!(
        result.unwrap_err(),
        Error::Config {
            message: "Invalid Config: `functions.templates_with_variables_chat.variants.variant_with_variables`: `system_schema` is required when `system_template` is specified".to_string()
        }
    );
    let mut sample_config = get_sample_valid_config();
    sample_config["functions"]["templates_with_variables_json"]
        .as_table_mut()
        .unwrap()
        .remove("system_schema");
    let result = load_from_toml(&sample_config);
    assert_eq!(
        result.unwrap_err(),
        Error::Config {
            message: "Invalid Config: `functions.templates_with_variables_json.variants.variant_with_variables`: `system_schema` is required when `system_template` is specified".to_string()
        }
    );
}

/// Ensure that the config loading fails when the user schema is missing but is needed
#[test]
fn test_config_user_schema_is_needed() {
    let mut sample_config = get_sample_valid_config();
    sample_config["functions"]["templates_with_variables_chat"]
        .as_table_mut()
        .unwrap()
        .remove("user_schema");
    let result = load_from_toml(&sample_config);
    assert_eq!(
        result.unwrap_err(),
        Error::Config {
            message: "Invalid Config: `functions.templates_with_variables_chat.variants.variant_with_variables`: `user_schema` is required when `user_template` is specified".to_string()
        }
    );

    let mut sample_config = get_sample_valid_config();
    sample_config["functions"]["templates_with_variables_json"]
        .as_table_mut()
        .unwrap()
        .remove("user_schema");
    let result = load_from_toml(&sample_config);
    assert_eq!(
        result.unwrap_err(),
        Error::Config {
            message: "Invalid Config: `functions.templates_with_variables_json.variants.variant_with_variables`: `user_schema` is required when `user_template` is specified".to_string()
        }
    );
}

/// Ensure that the config loading fails when the assistant schema is missing but is needed
#[test]
fn test_config_assistant_schema_is_needed() {
    let mut sample_config = get_sample_valid_config();
    sample_config["functions"]["templates_with_variables_chat"]
        .as_table_mut()
        .unwrap()
        .remove("assistant_schema");
    let result = load_from_toml(&sample_config);
    assert_eq!(
        result.unwrap_err(),
        Error::Config {
            message: "Invalid Config: `functions.templates_with_variables_chat.variants.variant_with_variables`: `assistant_schema` is required when `assistant_template` is specified".to_string()
        }
    );
    let mut sample_config = get_sample_valid_config();
    sample_config["functions"]["templates_with_variables_json"]
        .as_table_mut()
        .unwrap()
        .remove("assistant_schema");
    let result = load_from_toml(&sample_config);
    assert_eq!(
        result.unwrap_err(),
        Error::Config {
            message: "Invalid Config: `functions.templates_with_variables_json.variants.variant_with_variables`: `assistant_schema` is required when `assistant_template` is specified".to_string()
        }
    );
}

/// Ensure that the config validation fails when a function variant has a negative weight
#[test]
fn test_config_validate_function_variant_negative_weight() {
    let mut config = get_sample_valid_config();
    config["functions"]["generate_draft"]["variants"]["openai_promptA"]["weight"] =
        toml::Value::Float(-1.0);
    let result = load_from_toml(&config);
    assert_eq!(
        result.unwrap_err(),
        Error::Config {
            message: "Invalid Config: `functions.generate_draft.variants.openai_promptA.weight`: must be non-negative".to_string()
        }
    );
}

/// Ensure that the config validation fails when a variant has a model that does not exist in the models section
#[test]
fn test_config_validate_variant_model_not_in_models() {
    let mut config = get_sample_valid_config();
    config["functions"]["generate_draft"]["variants"]["openai_promptA"]["model"] =
        "non_existent_model".into();
    let result = load_from_toml(&config);

    assert_eq!(
        result.unwrap_err(),
        Error::Config {
            message: "Invalid Config: `functions.generate_draft.variants.openai_promptA`: `model` must be a valid model name".to_string()
        }
    );
}

/// Ensure that the config validation fails when a function references a tool that does not exist
#[test]
fn test_config_validate_variant_nonexistent_tool() {
    let mut config = get_sample_valid_config();
    config["functions"]["generate_draft"]
        .as_table_mut()
        .unwrap()
        .insert("tools".to_string(), toml::Value::Array(vec![]));
    config["functions"]["generate_draft"]["tools"] =
        toml::Value::Array(vec!["non_existent_tool".into()]);
    let result = load_from_toml(&config);

    assert_eq!(
        result.unwrap_err(),
        Error::Config {
            message: "Invalid Config: `functions.generate_draft.tools`: tool `non_existent_tool` is not present in the config".to_string()
        }
    );
}

fn template_lookup<'a>(templates: &'a [(String, String)], name: &str) -> Option<&'a String> {
    templates
        .iter()
        .find(|(n, _)| n == name)
        .map(|(_, p)| p)
}

/// Ensure that get_templates returns the correct templates
#[test]
fn test_get_all_templates() {
    let config_table = get_sample_valid_config();
    let config = load_from_toml(&config_table).expect("Failed to load config");

    // Get all templates
    let templates = config.get_templates("/base/path");

    // Check if all expected templates are present
    assert_eq!(
        template_lookup(&templates, "fixtures/config/functions/generate_draft/promptA/system_template.minijinja"),
        Some(&
            "/base/path/fixtures/config/functions/generate_draft/promptA/system_template.minijinja".to_string()
        )
    );
    assert_eq!(
        template_lookup(&templates, "fixtures/config/functions/generate_draft/promptB/system_template.minijinja"),
        Some(&
            "/base/path/fixtures/config/functions/generate_draft/promptB/system_template.minijinja".to_string()
        )
    );
    assert_eq!(
        template_lookup(&templates, "fixtures/config/functions/json_with_schemas/promptA/system_template.minijinja"),
        Some(&
            "/base/path/fixtures/config/functions/json_with_schemas/promptA/system_template.minijinja".to_string()
        )
    );
    assert_eq!(
        template_lookup(&templates, "fixtures/config/functions/json_with_schemas/promptB/system_template.minijinja"),
        Some(&
            "/base/path/fixtures/config/functions/json_with_schemas/promptB/system_template.minijinja".to_string()
        )
    );
    assert_eq!(
        template_lookup(&templates, "fixtures/config/functions/templates_without_variables/variant_without_templates/system_template.minijinja"),
        Some(&
            "/base/path/fixtures/config/functions/templates_without_variables/variant_without_templates/system_template.minijinja".to_string()
        )
    );
    assert_eq!(
        template_lookup(&templates, "fixtures/config/functions/templates_without_variables/variant_without_templates/user_template.minijinja"),
        Some(&
            "/base/path/fixtures/config/functions/templates_without_variables/variant_without_templates/user_template.minijinja".to_string()
        )
    );
    assert_eq!(
        template_lookup(&templates, "fixtures/config/functions/templates_without_variables/variant_without_templates/assistant_template.minijinja"),
        Some(&
            "/base/path/fixtures/config/functions/templates_without_variables/variant_without_templates/assistant_template.minijinja".to_string()
        )
    );
    assert_eq!(
        template_lookup(&templates, "fixtures/config/functions/templates_with_variables/variant_with_variables/assistant_template.minijinja"),
        Some(&
            "/base/path/fixtures/config/functions/templates_with_variables/variant_with_variables/assistant_template.minijinja".to_string()
        )
    );
    assert_eq!(
        template_lookup(&templates, "fixtures/config/functions/templates_with_variables/variant_with_variables/user_template.minijinja"),
        Some(&
            "/base/path/fixtures/config/functions/templates_with_variables/variant_with_variables/user_template.minijinja".to_string()
        )
    );
    assert_eq!(
        template_lookup(&templates, "fixtures/config/functions/templates_with_variables/variant_with_variables/system_template.minijinja"),
        Some(&
            "/base/path/fixtures/config/functions/templates_with_variables/variant_with_variables/system_template.minijinja".to_string()
        )
    );

    // Check the total number of templates
    assert_eq!(templates.len(), 10);
}
