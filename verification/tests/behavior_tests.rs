//! Scenario tests: minimal documents, reserved names, weight edge cases,
//! registry lookups, and repeatability of the load.

use gateway_config::config::Config;
use gateway_config::error::Error;
use gateway_config::function::FunctionConfig;
use gateway_config::metric::{MetricConfig, MetricConfigLevel, MetricConfigOptimize, MetricConfigType};
use gateway_config::raw::parse_document;
use gateway_config::schema::SchemaSource;
use gateway_config::template::TemplateSource;
use gateway_config::tool::{ToolChoice, IMPLICIT_TOOL_NAME};
use gateway_config::variant::VariantConfig;

fn load(text: &str, schemas: SchemaSource, templates: TemplateSource) -> Result<Config, Error> {
    let doc = parse_document(text).expect("parse config text");
    Config::load_from_table(&doc, "", &schemas, &templates)
}

const MINIMAL: &str = r#"
    [models.m]
    routing = ["p"]

    [models.m.providers.p]
    type = "openai"
    model_name = "m-upstream"

    [functions.f]
    type = "chat"

    [functions.f.variants.v]
    type = "chat_completion"
    weight = 1.0
    model = "m"
"#;

/// A minimal valid document: one model with one provider in its routing,
/// one chat function with one variant referencing that model.
#[test]
fn test_minimal_document_loads() {
    let config = load(MINIMAL, SchemaSource::new(), TemplateSource::new())
        .expect("minimal config should load");
    let model = config.get_model("m").expect("model m should be registered");
    assert_eq!(model.routing, vec!["p".to_string()]);
    assert_eq!(model.providers.len(), 1);
    assert!(config.get_function("f").is_ok());
}

/// A dangling routing entry: the model routes to `p2` but only declares
/// `p1`.
#[test]
fn test_dangling_routing_entry() {
    let text = r#"
        [models.m]
        routing = ["p2"]

        [models.m.providers.p1]
        type = "openai"
        model_name = "m-upstream"

        [functions.f]
        type = "chat"

        [functions.f.variants.v]
        type = "chat_completion"
        weight = 1.0
        model = "m"
    "#;
    let result = load(text, SchemaSource::new(), TemplateSource::new());
    assert_eq!(
        result.unwrap_err(),
        Error::Config {
            message: "Invalid Config: `models.m`: `routing` contains entry `p2` that does not exist in `providers`".to_string()
        }
    );
}

/// A metric named `comment` collides with a reserved name.
#[test]
fn test_metric_named_comment_is_reserved() {
    let text = r#"
        [models.m]
        routing = ["p"]

        [models.m.providers.p]
        type = "openai"
        model_name = "m-upstream"

        [functions.f]
        type = "chat"

        [functions.f.variants.v]
        type = "chat_completion"
        weight = 1.0
        model = "m"

        [metrics.comment]
        type = "boolean"
        optimize = "max"
        level = "inference"
    "#;
    let result = load(text, SchemaSource::new(), TemplateSource::new());
    assert_eq!(
        result.unwrap_err(),
        Error::Config {
            message: "Invalid Config: Metric name 'comment' is reserved and cannot be used"
                .to_string()
        }
    );
}

/// A metric named `demonstration` is reserved too.
#[test]
fn test_metric_named_demonstration_is_reserved() {
    let text = r#"
        [models.m]
        routing = ["p"]

        [models.m.providers.p]
        type = "openai"
        model_name = "m-upstream"

        [functions.f]
        type = "chat"

        [functions.f.variants.v]
        type = "chat_completion"
        weight = 1.0
        model = "m"

        [metrics.demonstration]
        type = "float"
        optimize = "min"
        level = "episode"
    "#;
    let result = load(text, SchemaSource::new(), TemplateSource::new());
    assert_eq!(
        result.unwrap_err(),
        Error::Config {
            message: "Invalid Config: Metric name 'demonstration' is reserved and cannot be used"
                .to_string()
        }
    );
}

const TEMPLATE_NO_SCHEMA: &str = r#"
    [models.m]
    routing = ["p"]

    [models.m.providers.p]
    type = "openai"
    model_name = "m-upstream"

    [functions.f]
    type = "chat"

    [functions.f.variants.v]
    type = "chat_completion"
    weight = 1.0
    model = "m"
    system_template = "sys.minijinja"
"#;

/// A system template declared without a system schema loads when the
/// template needs no variables, and fails naming `system_schema` when it
/// does.
#[test]
fn test_template_without_schema_depends_on_variables() {
    let mut templates = TemplateSource::new();
    templates.add_parsed("sys.minijinja".to_string(), false);
    load(TEMPLATE_NO_SCHEMA, SchemaSource::new(), templates)
        .expect("schema-agnostic template should load without a schema");

    let mut templates = TemplateSource::new();
    templates.add_parsed("sys.minijinja".to_string(), true);
    let result = load(TEMPLATE_NO_SCHEMA, SchemaSource::new(), templates);
    assert_eq!(
        result.unwrap_err(),
        Error::Config {
            message: "Invalid Config: `functions.f.variants.v`: `system_schema` is required when `system_template` is specified".to_string()
        }
    );
}

/// A template that the engine could not parse aborts the load.
#[test]
fn test_template_parse_failure_aborts_load() {
    let mut templates = TemplateSource::new();
    templates.add_failed("sys.minijinja".to_string(), "unexpected end of block".to_string());
    let result = load(TEMPLATE_NO_SCHEMA, SchemaSource::new(), templates);
    assert_eq!(
        result.unwrap_err(),
        Error::Config {
            message: "Failed to initialize template `sys.minijinja`: unexpected end of block"
                .to_string()
        }
    );
}

/// A template file the engine never saw is a missing file.
#[test]
fn test_template_missing_file_aborts_load() {
    let result = load(TEMPLATE_NO_SCHEMA, SchemaSource::new(), TemplateSource::new());
    assert_eq!(
        result.unwrap_err(),
        Error::Config {
            message: "Failed to initialize template `sys.minijinja`: No such file or directory (os error 2)".to_string()
        }
    );
}

/// Metric fields come back typed, and every registry lookup by an unknown
/// name reports the name it was given.
#[test]
fn test_registry_lookups() {
    let text = r#"
        [models.m]
        routing = ["p"]

        [models.m.providers.p]
        type = "anthropic"
        model_name = "m-upstream"

        [functions.f]
        type = "chat"

        [functions.f.variants.v]
        type = "chat_completion"
        weight = 1.0
        model = "m"

        [metrics.task_success]
        type = "boolean"
        optimize = "max"
        level = "inference"

        [tools.get_temperature]
        description = "Get the weather for a given location"
        parameters = "tools/get_temperature.json"
    "#;
    let mut schemas = SchemaSource::new();
    schemas.add_compiled("tools/get_temperature.json".to_string());
    let config = load(text, schemas, TemplateSource::new()).expect("config should load");

    let metric = config.get_metric("task_success").unwrap();
    assert_eq!(
        *metric,
        MetricConfig {
            kind: MetricConfigType::Boolean,
            optimize: MetricConfigOptimize::Max,
            level: MetricConfigLevel::Inference,
        }
    );
    assert_eq!(metric.level.as_name(), "inference");
    assert_eq!(MetricConfigLevel::Episode.as_name(), "episode");

    let tool = config.get_tool("get_temperature").unwrap();
    assert_eq!(tool.name, "get_temperature");
    assert_eq!(tool.description, "Get the weather for a given location");
    assert_eq!(tool.parameters.path, "tools/get_temperature.json");
    assert!(!tool.strict);

    assert_eq!(
        config.get_model("nope").unwrap_err(),
        Error::UnknownModel { name: "nope".to_string() }
    );
    assert_eq!(
        config.get_function("nope").unwrap_err(),
        Error::UnknownFunction { name: "nope".to_string() }
    );
    assert_eq!(
        config.get_metric("nope").unwrap_err(),
        Error::UnknownMetric { name: "nope".to_string() }
    );
    assert_eq!(
        config.get_tool("nope").unwrap_err(),
        Error::UnknownTool { name: "nope".to_string() }
    );
    assert_eq!(
        config.get_model("nope").unwrap_err().to_message(),
        "Unknown model: nope"
    );
}

/// A JSON function synthesizes the implicit tool: one implicit tool
/// carrying the output schema, a specific tool choice naming the reserved
/// identifier, and no parallel calls.
#[test]
fn test_json_function_synthesizes_implicit_tool() {
    let text = r#"
        [models.m]
        routing = ["p"]

        [models.m.providers.p]
        type = "openai"
        model_name = "m-upstream"

        [functions.f]
        type = "json"
        output_schema = "out.json"

        [functions.f.variants.v]
        type = "chat_completion"
        weight = 1.0
        model = "m"
    "#;
    let mut schemas = SchemaSource::new();
    schemas.add_compiled("out.json".to_string());
    let config = load(text, schemas, TemplateSource::new()).expect("config should load");
    match config.get_function("f").unwrap() {
        FunctionConfig::Json(j) => {
            assert_eq!(j.output_schema.path, "out.json");
            let itc = &j.implicit_tool_call_config;
            assert_eq!(itc.tools_available.len(), 1);
            match &itc.tools_available[0] {
                gateway_config::tool::ToolConfig::Implicit(it) => {
                    assert_eq!(it.parameters.path, "out.json");
                }
                _ => panic!("expected the implicit tool"),
            }
            assert_eq!(itc.tool_choice, ToolChoice::Specific(IMPLICIT_TOOL_NAME.to_string()));
            assert!(!itc.parallel_tool_calls);
        }
        _ => panic!("expected a json function"),
    }
}

/// A schema path is resolved against the base directory before the
/// collaborator's report is consulted.
#[test]
fn test_schema_paths_resolve_against_base() {
    let text = r#"
        [models.m]
        routing = ["p"]

        [models.m.providers.p]
        type = "openai"
        model_name = "m-upstream"

        [functions.f]
        type = "json"
        output_schema = "out.json"

        [functions.f.variants.v]
        type = "chat_completion"
        weight = 1.0
        model = "m"
    "#;
    let doc = parse_document(text).expect("parse config text");
    let mut schemas = SchemaSource::new();
    schemas.add_compiled("/etc/gw/out.json".to_string());
    let config = Config::load_from_table(&doc, "/etc/gw", &schemas, &TemplateSource::new())
        .expect("config should load");
    match config.get_function("f").unwrap() {
        FunctionConfig::Json(j) => assert_eq!(j.output_schema.path, "/etc/gw/out.json"),
        _ => panic!("expected a json function"),
    }
    let unrelated = SchemaSource::new();
    let result = Config::load_from_table(&doc, "/other", &unrelated, &TemplateSource::new());
    assert_eq!(
        result.unwrap_err(),
        Error::JsonSchema {
            message: "Failed to read JSON Schema `/other/out.json`: No such file or directory (os error 2)".to_string()
        }
    );
}

/// A schema file the collaborator rejected surfaces its cause.
#[test]
fn test_schema_compile_failure_surfaces_cause() {
    let text = r#"
        [models.m]
        routing = ["p"]

        [models.m.providers.p]
        type = "openai"
        model_name = "m-upstream"

        [functions.f]
        type = "json"
        output_schema = "out.json"

        [functions.f.variants.v]
        type = "chat_completion"
        weight = 1.0
        model = "m"
    "#;
    let mut schemas = SchemaSource::new();
    schemas.add_failed("out.json".to_string(), "expected value at line 1 column 1".to_string());
    let result = load(text, schemas, TemplateSource::new());
    assert_eq!(
        result.unwrap_err(),
        Error::JsonSchema {
            message: "Failed to read JSON Schema `out.json`: expected value at line 1 column 1"
                .to_string()
        }
    );
}

fn minimal_with_weight(weight: &str) -> String {
    MINIMAL.replace("weight = 1.0", &format!("weight = {}", weight))
}

/// Weight edges: negative zero and positive infinity are at least zero and
/// load; a NaN or negative-infinity weight is not and fails; an integer
/// weight is a type error.
#[test]
fn test_weight_edge_cases() {
    load(&minimal_with_weight("-0.0"), SchemaSource::new(), TemplateSource::new())
        .expect("negative zero weight should load");
    load(&minimal_with_weight("inf"), SchemaSource::new(), TemplateSource::new())
        .expect("positive infinity should load");
    let not_nonnegative = Error::Config {
        message: "Invalid Config: `functions.f.variants.v.weight`: must be non-negative"
            .to_string(),
    };
    let result = load(&minimal_with_weight("nan"), SchemaSource::new(), TemplateSource::new());
    assert_eq!(result.unwrap_err(), not_nonnegative);
    let result = load(&minimal_with_weight("-nan"), SchemaSource::new(), TemplateSource::new());
    assert_eq!(result.unwrap_err(), not_nonnegative);
    let result = load(&minimal_with_weight("-inf"), SchemaSource::new(), TemplateSource::new());
    assert_eq!(result.unwrap_err(), not_nonnegative);
    let result = load(&minimal_with_weight("1"), SchemaSource::new(), TemplateSource::new());
    assert_eq!(
        result.unwrap_err(),
        Error::Config {
            message: "Failed to parse config:\ninvalid type: integer, expected a float\nin `functions.f.variants.v.weight`\n".to_string()
        }
    );
}

/// Tool references are checked per function: a chat function that declares
/// no variants still may not reference an undeclared tool.
#[test]
fn test_tools_checked_without_variants() {
    let text = r#"
        [models.m]
        routing = ["p"]

        [models.m.providers.p]
        type = "openai"
        model_name = "m-upstream"

        [functions.f]
        type = "chat"
        tools = ["nope"]
        variants = {}
    "#;
    let result = load(text, SchemaSource::new(), TemplateSource::new());
    assert_eq!(
        result.unwrap_err(),
        Error::Config {
            message: "Invalid Config: `functions.f.tools`: tool `nope` is not present in the config".to_string()
        }
    );
}

/// Tool-choice values: the bare strings and the single-key map.
#[test]
fn test_tool_choice_values() {
    for (written, expected) in [
        ("\"none\"", ToolChoice::NoTool),
        ("\"auto\"", ToolChoice::Auto),
    ] {
        let text = MINIMAL.replace(
            "type = \"chat\"\n",
            &format!("type = \"chat\"\n    tool_choice = {}\n", written),
        );
        let config = load(&text, SchemaSource::new(), TemplateSource::new())
            .expect("tool choice should load");
        match config.get_function("f").unwrap() {
            FunctionConfig::Chat(c) => assert_eq!(c.tool_choice, expected),
            _ => panic!("expected a chat function"),
        }
    }
    let text = MINIMAL.replace(
        "type = \"chat\"\n",
        "type = \"chat\"\n    tool_choice = \"sometimes\"\n",
    );
    let result = load(&text, SchemaSource::new(), TemplateSource::new());
    assert!(result
        .unwrap_err()
        .to_message()
        .contains("unknown variant `sometimes`, expected one of `none`, `auto`, `specific`"));
}

/// An unknown function discriminant names the received value and the
/// allowed set.
#[test]
fn test_unknown_function_kind() {
    let text = MINIMAL.replace("type = \"chat\"\n", "type = \"embedding\"\n");
    let result = load(&text, SchemaSource::new(), TemplateSource::new());
    assert_eq!(
        result.unwrap_err(),
        Error::Config {
            message: "Failed to parse config:\nunknown variant `embedding`, expected `chat` or `json`\nin `functions.f.type`\n".to_string()
        }
    );
}

/// An unknown metric discriminant names the received value and the allowed
/// set.
#[test]
fn test_unknown_metric_type() {
    let text = format!(
        "{}\n    [metrics.quality]\n    type = \"percentile\"\n    optimize = \"max\"\n    level = \"inference\"\n",
        MINIMAL
    );
    let result = load(&text, SchemaSource::new(), TemplateSource::new());
    assert_eq!(
        result.unwrap_err(),
        Error::Config {
            message: "Failed to parse config:\nunknown variant `percentile`, expected `boolean` or `float`\nin `metrics.quality.type`\n".to_string()
        }
    );
}

/// Text that is not TOML is rejected by the document parser.
#[test]
fn test_document_syntax_error() {
    assert!(parse_document("models = [unclosed").is_err());
    assert!(parse_document("").is_ok());
}

/// Resolving the same document twice yields registries with identical
/// entity sets and identical field values.
#[test]
fn test_load_is_repeatable() {
    let doc = parse_document(MINIMAL).expect("parse config text");
    let a = Config::load_from_table(&doc, "", &SchemaSource::new(), &TemplateSource::new())
        .expect("first load");
    let b = Config::load_from_table(&doc, "", &SchemaSource::new(), &TemplateSource::new())
        .expect("second load");
    assert_eq!(a.models.len(), b.models.len());
    assert_eq!(a.get_model("m").unwrap().routing, b.get_model("m").unwrap().routing);
    assert_eq!(a.functions.len(), b.functions.len());
    assert_eq!(a.gateway.bind_address, b.gateway.bind_address);
    assert_eq!(a.templates.templates.len(), b.templates.templates.len());
}

/// The observability switch defaults to off and reads back when set.
#[test]
fn test_disable_observability() {
    let config = load(MINIMAL, SchemaSource::new(), TemplateSource::new()).unwrap();
    assert!(!config.gateway.disable_observability);
    let text = format!("[gateway]\ndisable_observability = true\n{}", MINIMAL);
    let config = load(&text, SchemaSource::new(), TemplateSource::new()).unwrap();
    assert!(config.gateway.disable_observability);
}

/// Provider declarations parse per kind, and an unknown kind names the
/// allowed set.
#[test]
fn test_provider_kinds() {
    let text = r#"
        [models.m]
        routing = ["a", "b", "c"]

        [models.m.providers.a]
        type = "azure"
        deployment_id = "dep-1"
        endpoint = "https://example.invalid"

        [models.m.providers.b]
        type = "dummy"
        model_name = "echo"

        [models.m.providers.c]
        type = "anthropic"
        model_name = "m-upstream"

        [functions.f]
        type = "chat"

        [functions.f.variants.v]
        type = "chat_completion"
        weight = 1.0
        model = "m"
    "#;
    let config = load(text, SchemaSource::new(), TemplateSource::new()).expect("load providers");
    let model = config.get_model("m").unwrap();
    assert_eq!(model.providers.len(), 3);
    match &model.providers[0].1 {
        gateway_config::model::ProviderConfig::Azure { deployment_id, endpoint } => {
            assert_eq!(deployment_id, "dep-1");
            assert_eq!(endpoint, "https://example.invalid");
        }
        _ => panic!("expected the azure provider first"),
    }

    let bad = text.replace("type = \"dummy\"", "type = \"aws\"");
    let result = load(&bad, SchemaSource::new(), TemplateSource::new());
    assert_eq!(
        result.unwrap_err(),
        Error::Config {
            message: "Failed to parse config:\nunknown variant `aws`, expected one of `anthropic`, `azure`, `dummy`, `openai`\nin `models.m.providers.b.type`\n".to_string()
        }
    );
}

/// A value of the wrong shape names what was found and what was expected.
#[test]
fn test_wrong_value_shapes() {
    let text = MINIMAL.replace("routing = [\"p\"]", "routing = \"p\"");
    let result = load(&text, SchemaSource::new(), TemplateSource::new());
    assert_eq!(
        result.unwrap_err(),
        Error::Config {
            message: "Failed to parse config:\ninvalid type: string, expected an array\nin `models.m.routing`\n".to_string()
        }
    );

    let text = MINIMAL.replace("routing = [\"p\"]", "routing = [\"p\", 7]");
    let result = load(&text, SchemaSource::new(), TemplateSource::new());
    assert_eq!(
        result.unwrap_err(),
        Error::Config {
            message: "Failed to parse config:\ninvalid type: integer, expected a string\nin `models.m.routing`\n".to_string()
        }
    );

    let text = MINIMAL.replace("model = \"m\"", "model = 1979-05-27");
    let result = load(&text, SchemaSource::new(), TemplateSource::new());
    assert_eq!(
        result.unwrap_err(),
        Error::Config {
            message: "Failed to parse config:\ninvalid type: datetime, expected a string\nin `functions.f.variants.v.model`\n".to_string()
        }
    );
}

/// An unknown key in the `[gateway]` table is rejected.
#[test]
fn test_gateway_unknown_field() {
    let text = format!("[gateway]\nlisten = true\n{}", MINIMAL);
    let result = load(&text, SchemaSource::new(), TemplateSource::new());
    assert_eq!(
        result.unwrap_err(),
        Error::Config {
            message: "Failed to parse config:\nunknown field `listen`, expected one of `bind_address`, `disable_observability`\nin `gateway`\n".to_string()
        }
    );
}

/// A tool's strictness flag reads back, and the variant accessors expose
/// weight and template paths.
#[test]
fn test_tool_strict_and_variant_accessors() {
    let text = r#"
        [models.m]
        routing = ["p"]

        [models.m.providers.p]
        type = "openai"
        model_name = "m-upstream"

        [functions.f]
        type = "chat"

        [functions.f.variants.v]
        type = "chat_completion"
        weight = 0.25
        model = "m"
        user_template = "user.minijinja"

        [tools.lookup_accounts]
        description = "Look an account up"
        parameters = "tools/lookup_accounts.json"
        strict = true
    "#;
    let mut schemas = SchemaSource::new();
    schemas.add_compiled("tools/lookup_accounts.json".to_string());
    let mut templates = TemplateSource::new();
    templates.add_parsed("user.minijinja".to_string(), false);
    let config = load(text, schemas, templates).expect("load tool config");
    assert!(config.get_tool("lookup_accounts").unwrap().strict);

    let function = config.get_function("f").unwrap();
    let (_, v) = &function.variants()[0];
    assert_eq!(v.weight_bits(), (0.25f64).to_bits());
    assert_eq!(v.system_template(), &None);
    assert_eq!(v.user_template(), &Some("user.minijinja".to_string()));
    assert_eq!(v.assistant_template(), &None);
}

/// A metric table missing one of its required fields names that field and
/// the table.
#[test]
fn test_metric_missing_field() {
    let text = format!(
        "{}\n    [metrics.quality]\n    type = \"float\"\n    level = \"inference\"\n",
        MINIMAL
    );
    let result = load(&text, SchemaSource::new(), TemplateSource::new());
    assert_eq!(
        result.unwrap_err(),
        Error::Config {
            message: "Failed to parse config:\nmissing field `optimize`\nin `metrics.quality`\n"
                .to_string()
        }
    );
}
