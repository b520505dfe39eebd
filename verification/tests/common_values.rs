use llmaap::config::{config_path, load_config, Config};

fn base() -> Config {
    Config {
        endpoint: String::from("http://localhost:8080/v1"),
        token: None,
        model: String::from("base-model"),
        webhook: String::from("http://hook"),
        context_size: 4,
        system_prompt: String::from("You are an agent."),
        data_path: None,
    }
}

#[test]
fn config_path_defaults_to_config_toml() {
    assert_eq!(config_path(None), "config.toml");
    assert_eq!(config_path(Some(String::from("other.toml"))), "other.toml");
}

#[test]
fn load_config_applies_each_override() {
    let c = load_config(
        base(),
        Some(String::from("http://remote")),
        Some(String::from("secret")),
        Some(String::from("big-model")),
        Some(String::from("save.json")),
    );
    assert_eq!(c.endpoint, "http://remote");
    assert_eq!(c.token.as_deref(), Some("secret"));
    assert_eq!(c.model, "big-model");
    assert_eq!(c.data_path.as_deref(), Some("save.json"));
    assert_eq!(c.webhook, "http://hook");
    assert_eq!(c.context_size, 4);
    assert_eq!(c.system_prompt, "You are an agent.");
}

#[test]
fn load_config_without_overrides_keeps_config() {
    let c = load_config(base(), None, None, None, None);
    let b = base();
    assert_eq!(c.endpoint, b.endpoint);
    assert_eq!(c.token, b.token);
    assert_eq!(c.model, b.model);
    assert_eq!(c.data_path, b.data_path);
}

#[test]
fn load_config_twice_is_once() {
    let once = load_config(base(), None, Some(String::from("t")), None, Some(String::from("d")));
    let twice = load_config(
        load_config(base(), None, Some(String::from("t")), None, Some(String::from("d"))),
        None,
        Some(String::from("t")),
        None,
        Some(String::from("d")),
    );
    assert_eq!(once.token, twice.token);
    assert_eq!(once.data_path, twice.data_path);
    assert_eq!(once.endpoint, twice.endpoint);
    assert_eq!(once.model, twice.model);
}
