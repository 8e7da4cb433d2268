use webhook::{greeting_record, message_record, Command, Plan, WebhookConfig};

#[test]
fn new_sets_only_the_destination() {
    let config = WebhookConfig::new("https://example.test/hook".to_string());
    assert_eq!(config.webhook_url, "https://example.test/hook");
    assert_eq!(config.username, None);
    assert_eq!(config.avatar_url, None);
    assert_eq!(config.content, None);
}

#[test]
fn new_accepts_an_empty_destination() {
    let config = WebhookConfig::new(String::new());
    assert_eq!(config.webhook_url, "");
    assert_eq!(config.content, None);
}

#[test]
fn only_a_non_empty_destination_counts() {
    assert!(WebhookConfig::new("https://example.test/hook".to_string()).has_destination());
    assert!(WebhookConfig::new(" ".to_string()).has_destination());
    assert!(!WebhookConfig::new(String::new()).has_destination());
}

#[test]
fn clone_keeps_every_field() {
    let record = greeting_record(
        "https://example.test/hook".to_string(),
        Some("Bot".to_string()),
        None,
    );
    let copy = record.clone();
    assert_eq!(copy.webhook_url, record.webhook_url);
    assert_eq!(copy.username, record.username);
    assert_eq!(copy.avatar_url, record.avatar_url);
    assert_eq!(copy.content, record.content);
}

#[test]
fn greeting_record_carries_the_confirmation() {
    let record = greeting_record(
        "https://example.test/hook".to_string(),
        Some("Bot".to_string()),
        None,
    );
    assert_eq!(record.webhook_url, "https://example.test/hook");
    assert_eq!(record.username.as_deref(), Some("Bot"));
    assert_eq!(record.avatar_url, None);
    assert_eq!(record.content.as_deref(), Some("You have configured the webhook"));
}

#[test]
fn greeting_record_keeps_both_overrides() {
    let record = greeting_record(
        "https://example.test/hook".to_string(),
        Some("Bot".to_string()),
        Some("https://example.test/bot.png".to_string()),
    );
    assert_eq!(record.username.as_deref(), Some("Bot"));
    assert_eq!(record.avatar_url.as_deref(), Some("https://example.test/bot.png"));
}

#[test]
fn message_record_replaces_only_the_content() {
    let stored = greeting_record(
        "https://example.test/hook".to_string(),
        Some("Bot".to_string()),
        Some("https://example.test/bot.png".to_string()),
    );
    let record = message_record(stored, Some("hello".to_string()));
    assert_eq!(record.webhook_url, "https://example.test/hook");
    assert_eq!(record.username.as_deref(), Some("Bot"));
    assert_eq!(record.avatar_url.as_deref(), Some("https://example.test/bot.png"));
    assert_eq!(record.content.as_deref(), Some("hello"));
}

#[test]
fn message_record_without_content_clears_it() {
    let stored = greeting_record("https://example.test/hook".to_string(), None, None);
    let record = message_record(stored, None);
    assert_eq!(record.content, None);
    assert_eq!(record.webhook_url, "https://example.test/hook");
}

#[test]
fn config_plans_to_store_and_send_the_greeting() {
    let command = Command::Config {
        webhook_url: "https://example.test/hook".to_string(),
        username: Some("Bot".to_string()),
        avatar_url: None,
    };
    match command.plan() {
        Plan::StoreThenSend(record) => {
            assert_eq!(record.webhook_url, "https://example.test/hook");
            assert_eq!(record.username.as_deref(), Some("Bot"));
            assert_eq!(record.avatar_url, None);
            assert_eq!(record.content.as_deref(), Some("You have configured the webhook"));
        }
        Plan::LoadThenSend(_) => panic!("config must store a record"),
    }
}

#[test]
fn update_plans_what_config_plans() {
    let update = Command::Update {
        webhook_url: "https://example.test/hook".to_string(),
        username: None,
        avatar_url: Some("https://example.test/bot.png".to_string()),
    };
    let config = Command::Config {
        webhook_url: "https://example.test/hook".to_string(),
        username: None,
        avatar_url: Some("https://example.test/bot.png".to_string()),
    };
    match (update.plan(), config.plan()) {
        (Plan::StoreThenSend(updated), Plan::StoreThenSend(configured)) => {
            assert_eq!(updated.webhook_url, configured.webhook_url);
            assert_eq!(updated.username, configured.username);
            assert_eq!(updated.avatar_url, configured.avatar_url);
            assert_eq!(updated.content, configured.content);
            assert_eq!(updated.content.as_deref(), Some("You have configured the webhook"));
        }
        _ => panic!("both commands must store a record"),
    }
}

#[test]
fn send_plans_to_load_with_the_given_content() {
    let command = Command::Send { content: Some("hello".to_string()) };
    match command.plan() {
        Plan::LoadThenSend(content) => assert_eq!(content.as_deref(), Some("hello")),
        Plan::StoreThenSend(_) => panic!("send must not store a record"),
    }
    match (Command::Send { content: None }).plan() {
        Plan::LoadThenSend(content) => assert_eq!(content, None),
        Plan::StoreThenSend(_) => panic!("send must not store a record"),
    }
}

#[test]
fn each_command_has_its_own_success_message() {
    let config = Command::Config { webhook_url: String::new(), username: None, avatar_url: None };
    let update = Command::Update { webhook_url: String::new(), username: None, avatar_url: None };
    let send = Command::Send { content: None };
    assert_eq!(config.success_message(), "Webhook configuration saved successfully.");
    assert_eq!(update.success_message(), "Webhook configuration updated successfully.");
    assert_eq!(send.success_message(), "Message sent successfully.");
}
