use tamatoa::load_model;
use tamatoa::model::ChangeAction;
use tamatoa::model::Module;
use tamatoa::output::d2::write_to_string;

fn assert_string(json: &str, expected: &str) {
    let root: Module = Module::from_json(json).unwrap();
    assert_eq!(expected, write_to_string(&root));
}

#[test]
fn string_empty() {
    assert_string(
        "{\"id\":\"root\"}",
        "root {\n  shape: package\n\n}\n",
    );
}

#[test]
fn string_single_resource() {
    assert_string(
        "{\"id\":\"root\",\"resources\":[{\"id\":\"null_resource.foo\"}]}",
        "root {\n  shape: package\n\n  \"null_resource.foo\"\n}\n",
    );
}

#[test]
fn string_two_resources() {
    assert_string(
        "{\"id\":\"root\",\"resources\":[{\"id\":\"null_resource.foo\"},{\"id\":\"null_resource.bar\"}]}",
        "root {\n  shape: package\n\n  \"null_resource.foo\"\n  \"null_resource.bar\"\n}\n",
    );
}

#[test]
fn quoting_escapes_special_characters() {
    assert_string(
        "{\"id\":\"root\",\"resources\":[{\"id\":\"a\\\"b\\\\c\\nd\"}]}",
        "root {\n  shape: package\n\n  \"a\\\"b\\\\c\\nd\"\n}\n",
    );
}

#[test]
fn serialized_model_round_trips() {
    let json = "{\"format_version\":\"1.0\",\"terraform_version\":\"1.5.0\",\"configuration\":{\"root_module\":{\"resources\":[{\"address\":\"null_resource.foo\",\"mode\":\"managed\",\"type\":\"null_resource\",\"name\":\"foo\",\"provider_config_key\":\"null\",\"expressions\":{}},{\"address\":\"null_resource.bar\",\"mode\":\"managed\",\"type\":\"null_resource\",\"name\":\"bar\",\"provider_config_key\":\"null\",\"expressions\":{}}]}},\"planned_values\":{\"root_module\":{}},\"resource_changes\":[{\"address\":\"null_resource.bar\",\"mode\":\"managed\",\"type\":\"null_resource\",\"name\":\"bar\",\"provider_name\":\"null\",\"change\":{\"actions\":[\"delete\",\"create\"],\"before\":{\"triggers\":1},\"after\":{\"triggers\":2},\"after_unknown\":{},\"before_sensitive\":false,\"after_sensitive\":{}}}]}";
    let model = load_model(json).unwrap();
    let text = model.to_json();
    let back = Module::from_json(&text).unwrap();

    assert_eq!(back.id(), model.id());
    assert_eq!(back.resources().len(), model.resources().len());
    for (a, b) in model.resources().iter().zip(back.resources().iter()) {
        assert_eq!(a.id(), b.id());
        assert_eq!(a.change().action(), b.change().action());
        assert_eq!(a.change().before(), b.change().before());
        assert_eq!(a.change().after(), b.change().after());
    }
    assert_eq!(back.resources()[1].change().action(), &ChangeAction::Replace);
}

#[test]
fn serialized_form_has_the_documented_fields() {
    let json = "{\"format_version\":\"1.0\",\"terraform_version\":\"1.5.0\",\"configuration\":{\"root_module\":{\"resources\":[{\"address\":\"null_resource.foo\",\"mode\":\"managed\",\"type\":\"null_resource\",\"name\":\"foo\",\"provider_config_key\":\"null\",\"expressions\":{}}]}},\"planned_values\":{\"root_module\":{}},\"resource_changes\":[{\"address\":\"null_resource.foo\",\"mode\":\"managed\",\"type\":\"null_resource\",\"name\":\"foo\",\"provider_name\":\"null\",\"change\":{\"actions\":[\"create\"],\"before\":null,\"after\":{\"x\":true},\"after_unknown\":{},\"before_sensitive\":false,\"after_sensitive\":{}}}]}";
    let model = load_model(json).unwrap();
    let text = model.to_json();
    let v: serde_json::Value = serde_json::from_str(&text).unwrap();
    assert_eq!(v.get("id").unwrap(), &serde_json::Value::String(String::from("root")));
    let resources = v.get("resources").unwrap().as_array().unwrap();
    assert_eq!(resources.len(), 1);
    let change = resources[0].get("change").unwrap();
    assert_eq!(
        change.get("action").unwrap(),
        &serde_json::Value::String(String::from("Create"))
    );
    assert_eq!(change.get("before").unwrap(), &serde_json::Value::Null);
    assert!(v.get("modules").unwrap().as_array().unwrap().is_empty());
}

#[test]
fn module_reader_defaults_and_rejects() {
    // collections default to empty, a change defaults field by field
    let m = Module::from_json("{\"id\":\"m\"}").unwrap();
    assert_eq!(m.id().as_str(), "m");
    assert_eq!(m.resources().len(), 0);
    let m = Module::from_json(
        "{\"id\":\"m\",\"resources\":[{\"id\":\"r\",\"change\":{\"action\":\"Delete\"}}]}",
    )
    .unwrap();
    assert_eq!(m.resources()[0].change().action(), &ChangeAction::Delete);
    assert_eq!(m.resources()[0].change().before(), &serde_json::Value::Null);
    // a missing id, a misshapen change, or an unknown action name is refused
    assert!(Module::from_json("{}").is_err());
    assert!(Module::from_json("{\"id\":\"m\",\"resources\":[{\"id\":\"r\",\"change\":3}]}").is_err());
    assert!(
        Module::from_json(
            "{\"id\":\"m\",\"resources\":[{\"id\":\"r\",\"change\":{\"action\":\"Move\"}}]}"
        )
        .is_err()
    );
}
