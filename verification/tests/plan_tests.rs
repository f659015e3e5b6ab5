use tamatoa::load_model;
use tamatoa::model::ChangeAction;
use tamatoa::terraform::tfplan::PlanError;

fn plan(format_version: &str, resources: &str, changes: &str) -> String {
    format!(
        "{{\"format_version\":\"{}\",\"terraform_version\":\"1.5.0\",\"configuration\":{{\"root_module\":{{\"resources\":[{}]}}}},\"planned_values\":{{\"root_module\":{{}}}},\"resource_changes\":[{}]}}",
        format_version, resources, changes
    )
}

fn config_resource(address: &str) -> String {
    format!(
        "{{\"address\":\"{}\",\"mode\":\"managed\",\"type\":\"null_resource\",\"name\":\"x\",\"provider_config_key\":\"null\",\"expressions\":{{}}}}",
        address
    )
}

fn resource_change(address: &str, actions: &str, before: &str, after: &str) -> String {
    format!(
        "{{\"address\":\"{}\",\"mode\":\"managed\",\"type\":\"null_resource\",\"name\":\"x\",\"provider_name\":\"registry.terraform.io/hashicorp/null\",\"change\":{{\"actions\":{},\"before\":{},\"after\":{},\"after_unknown\":{{}},\"before_sensitive\":false,\"after_sensitive\":{{}}}}}}",
        address, actions, before, after
    )
}

#[test]
fn example_00_empty() {
    let json = plan("1.0", "", "");
    assert!(load_model(&json).is_ok());
}

#[test]
fn example_01_create() {
    let json = plan(
        "1.0",
        &config_resource("null_resource.foo"),
        &resource_change("null_resource.foo", "[\"create\"]", "null", "{\"triggers\":null}"),
    );
    assert!(load_model(&json).is_ok());
}

#[test]
fn example_02_update() {
    let json = plan(
        "1.0",
        &config_resource("null_resource.foo"),
        &resource_change("null_resource.foo", "[\"update\"]", "{\"a\":1}", "{\"a\":2}"),
    );
    assert!(load_model(&json).is_ok());
}

#[test]
fn example_03_replace() {
    let json = plan(
        "1.0",
        &config_resource("null_resource.foo"),
        &resource_change("null_resource.foo", "[\"delete\",\"create\"]", "{\"a\":1}", "{\"a\":2}"),
    );
    assert!(load_model(&json).is_ok());
}

#[test]
fn classifies_each_action_sequence() {
    assert_eq!(ChangeAction::from_actions(&["create"]), ChangeAction::Create);
    assert_eq!(ChangeAction::from_actions(&["delete"]), ChangeAction::Delete);
    assert_eq!(ChangeAction::from_actions(&["update"]), ChangeAction::Update);
    assert_eq!(ChangeAction::from_actions(&["delete", "create"]), ChangeAction::Replace);
    assert_eq!(ChangeAction::from_actions(&["create", "delete"]), ChangeAction::Replace);
    assert_eq!(ChangeAction::from_actions(&["no-op"]), ChangeAction::Noop);
    assert_eq!(ChangeAction::from_actions(&["read"]), ChangeAction::Noop);
    assert_eq!(ChangeAction::from_actions(&[]), ChangeAction::Noop);
    assert_eq!(ChangeAction::from_actions(&["move"]), ChangeAction::Noop);
    assert_eq!(ChangeAction::from_actions(&["create", "create"]), ChangeAction::Noop);
    assert_eq!(ChangeAction::from_actions(&["create", "delete", "create"]), ChangeAction::Noop);
}

#[test]
fn rejects_unsupported_major_version() {
    let json = plan("2.0", "", "");
    assert!(matches!(load_model(&json), Err(PlanError::UnsupportedVersion)));
    let json = plan("0.1", "", "");
    assert!(matches!(load_model(&json), Err(PlanError::UnsupportedVersion)));
    let json = plan("10.0", "", "");
    assert!(matches!(load_model(&json), Err(PlanError::UnsupportedVersion)));
    let json = plan("1.1", "", "");
    assert!(load_model(&json).is_ok());
    let json = plan("1", "", "");
    assert!(load_model(&json).is_ok());
}

#[test]
fn rejects_malformed_documents() {
    assert!(matches!(load_model("{not json"), Err(PlanError::Syntax)));
    // terraform_version is required
    let json = "{\"format_version\":\"1.0\",\"configuration\":{\"root_module\":{}},\"planned_values\":{\"root_module\":{}}}";
    assert!(matches!(load_model(json), Err(PlanError::Structure { .. })));
    // a configuration resource missing its address, reported with its path
    let json = plan(
        "1.0",
        "{\"mode\":\"managed\",\"type\":\"t\",\"name\":\"x\",\"provider_config_key\":\"k\",\"expressions\":{}}",
        "",
    );
    match load_model(&json) {
        Err(PlanError::Structure { field }) => {
            assert_eq!(field, "configuration.root_module.resources[0].address");
        }
        other => panic!("expected a structure error, got {:?}", other.is_ok()),
    }
    // a change entry whose action token is not a string, reported with its path
    let json = plan(
        "1.0",
        &config_resource("null_resource.foo"),
        &resource_change("null_resource.foo", "[7]", "null", "null"),
    );
    match load_model(&json) {
        Err(PlanError::Structure { field }) => {
            assert_eq!(field, "resource_changes[0].change.actions");
        }
        other => panic!("expected a structure error, got {:?}", other.is_ok()),
    }
}

#[test]
fn empty_configuration_yields_empty_module() {
    // resource_changes may hold entries; with no configuration resources the
    // module still comes out empty
    let json = plan(
        "1.0",
        "",
        &resource_change("null_resource.ghost", "[\"create\"]", "null", "{}"),
    );
    let model = load_model(&json).unwrap();
    assert_eq!(model.id().as_str(), "root");
    assert_eq!(model.resources().len(), 0);
}

#[test]
fn unmatched_resource_gets_default_change() {
    let json = plan("1.0", &config_resource("null_resource.lone"), "");
    let model = load_model(&json).unwrap();
    assert_eq!(model.resources().len(), 1);
    let resource = &model.resources()[0];
    assert_eq!(resource.id().as_str(), "null_resource.lone");
    assert_eq!(resource.change().action(), &ChangeAction::Noop);
    assert_eq!(resource.change().before(), &serde_json::Value::Null);
    assert_eq!(resource.change().after(), &serde_json::Value::Null);
}

#[test]
fn order_follows_configuration_not_changes() {
    let resources = format!(
        "{},{},{}",
        config_resource("null_resource.a"),
        config_resource("null_resource.b"),
        config_resource("null_resource.c")
    );
    let changes = format!(
        "{},{},{}",
        resource_change("null_resource.c", "[\"delete\"]", "{}", "null"),
        resource_change("null_resource.a", "[\"create\"]", "null", "{}"),
        resource_change("null_resource.b", "[\"update\"]", "{}", "{}")
    );
    let model = load_model(&plan("1.0", &resources, &changes)).unwrap();
    let ids: Vec<&str> = model.resources().iter().map(|r| r.id().as_str()).collect();
    assert_eq!(ids, vec!["null_resource.a", "null_resource.b", "null_resource.c"]);
    assert_eq!(model.resources()[0].change().action(), &ChangeAction::Create);
    assert_eq!(model.resources()[1].change().action(), &ChangeAction::Update);
    assert_eq!(model.resources()[2].change().action(), &ChangeAction::Delete);
}

#[test]
fn noop_and_read_still_copy_payloads() {
    for actions in ["[\"no-op\"]", "[\"read\"]"] {
        let json = plan(
            "1.0",
            &config_resource("null_resource.foo"),
            &resource_change("null_resource.foo", actions, "{\"a\":1}", "{\"a\":1}"),
        );
        let model = load_model(&json).unwrap();
        let change = model.resources()[0].change();
        assert_eq!(change.action(), &ChangeAction::Noop);
        let expected: serde_json::Value = serde_json::from_str("{\"a\":1}").unwrap();
        assert_eq!(change.before(), &expected);
        assert_eq!(change.after(), &expected);
    }
}

#[test]
fn update_copies_payloads_verbatim() {
    let json = plan(
        "1.0",
        &config_resource("null_resource.foo"),
        &resource_change("null_resource.foo", "[\"update\"]", "{\"a\":[1,2]}", "{\"a\":[3]}"),
    );
    let model = load_model(&json).unwrap();
    let change = model.resources()[0].change();
    assert_eq!(change.action(), &ChangeAction::Update);
    let before: serde_json::Value = serde_json::from_str("{\"a\":[1,2]}").unwrap();
    let after: serde_json::Value = serde_json::from_str("{\"a\":[3]}").unwrap();
    assert_eq!(change.before(), &before);
    assert_eq!(change.after(), &after);
}

#[test]
fn duplicate_addresses_take_the_last_change() {
    let changes = format!(
        "{},{}",
        resource_change("null_resource.dup", "[\"create\"]", "null", "{}"),
        resource_change("null_resource.dup", "[\"delete\"]", "{}", "null")
    );
    let model = load_model(&plan("1.0", &config_resource("null_resource.dup"), &changes)).unwrap();
    assert_eq!(model.resources()[0].change().action(), &ChangeAction::Delete);
}
