use discord_hook::flags;
use discord_hook::json_code_block;
use discord_hook::{AllowedMentionType, AllowedMentions, Embed, WebhookError, WebhookMessage};
use std::collections::BTreeMap;

#[test]
fn build_requires_content_or_embed() {
    assert!(matches!(WebhookMessage::builder().build(), Err(WebhookError::EmptyMessage)));
    assert!(matches!(
        WebhookMessage::builder().username("bot").tts(true).build(),
        Err(WebhookError::EmptyMessage)
    ));
    let m = WebhookMessage::builder().content("hi").build().unwrap();
    assert_eq!(m.content.as_deref(), Some("hi"));
    let m = WebhookMessage::builder().embed(Embed::builder().build()).build().unwrap();
    assert_eq!(m.embeds.len(), 1);
}

#[test]
fn message_setters_set_one_field_each() {
    let m = WebhookMessage::builder()
        .content("Hello")
        .username("MyBot")
        .avatar_url("https://example.com/a.png")
        .tts(false)
        .thread_name("release")
        .applied_tag("1")
        .applied_tag("2")
        .allowed_mentions(AllowedMentions::none())
        .build()
        .unwrap();
    assert_eq!(m.content.as_deref(), Some("Hello"));
    assert_eq!(m.username.as_deref(), Some("MyBot"));
    assert_eq!(m.avatar_url.as_deref(), Some("https://example.com/a.png"));
    assert_eq!(m.tts, Some(false));
    assert_eq!(m.thread_name.as_deref(), Some("release"));
    assert_eq!(m.applied_tags, vec!["1".to_string(), "2".to_string()]);
    let am = m.allowed_mentions.unwrap();
    assert!(am.parse.is_empty() && am.roles.is_empty() && am.users.is_empty());
    assert_eq!(m.flags, None);
    assert!(m.embeds.is_empty());
}

#[test]
fn flags_or_together() {
    let m = WebhookMessage::builder()
        .content("Quiet alert")
        .flag(flags::SUPPRESS_NOTIFICATIONS)
        .flag(flags::SUPPRESS_EMBEDS)
        .flag(flags::SUPPRESS_NOTIFICATIONS)
        .build()
        .unwrap();
    assert_eq!(m.flags, Some(4096 | 4));
    assert_eq!(flags::IS_COMPONENTS_V2, 32768);
}

#[test]
fn embed_setters_set_one_field_each() {
    let e = Embed::builder()
        .title("Title")
        .description("Body")
        .url("https://example.com")
        .color(0x5865F2)
        .footer_with_icon("Footer", "https://example.com/icon.png")
        .thumbnail("https://example.com/thumb.png")
        .image("https://example.com/big.png")
        .author_full("Author", Some("https://url"), None)
        .field("Name", "Value", true)
        .field("Other", "Field", false)
        .timestamp("2025-01-01T00:00:00.000Z")
        .build();
    assert_eq!(e.title.as_deref(), Some("Title"));
    assert_eq!(e.description.as_deref(), Some("Body"));
    assert_eq!(e.url.as_deref(), Some("https://example.com"));
    assert_eq!(e.color, Some(0x5865F2));
    let footer = e.footer.unwrap();
    assert_eq!(footer.text, "Footer");
    assert_eq!(footer.icon_url.as_deref(), Some("https://example.com/icon.png"));
    assert_eq!(e.thumbnail.unwrap().url, "https://example.com/thumb.png");
    assert_eq!(e.image.unwrap().url, "https://example.com/big.png");
    let author = e.author.unwrap();
    assert_eq!(author.name, "Author");
    assert_eq!(author.url.as_deref(), Some("https://url"));
    assert_eq!(author.icon_url, None);
    assert_eq!(e.fields.len(), 2);
    assert_eq!(e.fields[0].name, "Name");
    assert_eq!(e.fields[0].value, "Value");
    assert_eq!(e.fields[0].inline, Some(true));
    assert_eq!(e.fields[1].inline, Some(false));
    assert_eq!(e.timestamp.as_deref(), Some("2025-01-01T00:00:00.000Z"));
}

#[test]
fn later_setters_replace_earlier_ones() {
    let e = Embed::builder().footer("a").footer("b").author("x").title("1").title("2").build();
    assert_eq!(e.footer.unwrap().text, "b");
    assert_eq!(e.title.as_deref(), Some("2"));
    let a = e.author.unwrap();
    assert_eq!((a.name.as_str(), a.url, a.icon_url), ("x", None, None));
}

#[test]
fn allowed_mentions_constructors() {
    let all = AllowedMentions::all();
    assert!(matches!(
        all.parse.as_slice(),
        [AllowedMentionType::Everyone, AllowedMentionType::Roles, AllowedMentionType::Users]
    ));
    let users = AllowedMentions::users(&["1", "22"]);
    assert_eq!(users.users, vec!["1".to_string(), "22".to_string()]);
    assert!(users.parse.is_empty() && users.roles.is_empty());
    let d = AllowedMentions::default();
    assert!(d.parse.is_empty() && d.roles.is_empty() && d.users.is_empty());
}

#[test]
fn json_code_block_frames_pretty_json() {
    let mut map = BTreeMap::new();
    map.insert("key".to_string(), "value".to_string());
    assert_eq!(json_code_block(&map).unwrap(), "```json\n{\n  \"key\": \"value\"\n}\n```");
    assert_eq!(json_code_block(&vec![1u32, 2]).unwrap(), "```json\n[\n  1,\n  2\n]\n```");
}

#[test]
fn json_code_block_reports_serialisation_errors() {
    let mut map = BTreeMap::new();
    map.insert(vec![1u8], 1u8);
    assert!(matches!(json_code_block(&map), Err(WebhookError::Json(_))));
}

#[test]
fn json_content_appends_on_new_line() {
    let m = WebhookMessage::builder()
        .content("Build result:")
        .json_content(&vec![true])
        .unwrap()
        .build()
        .unwrap();
    assert_eq!(m.content.as_deref(), Some("Build result:\n```json\n[\n  true\n]\n```"));
    let m = WebhookMessage::builder().json_content(&7u8).unwrap().build().unwrap();
    assert_eq!(m.content.as_deref(), Some("```json\n7\n```"));
}

#[test]
fn json_description_and_field() {
    let e = Embed::builder()
        .json_description(&1u8)
        .unwrap()
        .json_field("payload", &"s", true)
        .unwrap()
        .build();
    assert_eq!(e.description.as_deref(), Some("```json\n1\n```"));
    assert_eq!(e.fields[0].name, "payload");
    assert_eq!(e.fields[0].value, "```json\n\"s\"\n```");
    assert_eq!(e.fields[0].inline, Some(true));
}
