//! Webhook message payloads and their builders.
use vstd::prelude::*;

use crate::error::WebhookError;
use crate::json::{json_block, json_code_block};

verus! {

/// The view of an optional string.
pub open spec fn opt_str(o: Option<String>) -> Option<Seq<char>> {
    match o {
        Some(s) => Some(s@),
        None => None,
    }
}

/// The view of a list of strings.
pub open spec fn str_list(v: Seq<String>) -> Seq<Seq<char>> {
    v.map_values(|s: String| s@)
}

/// An owned copy of a borrowed string, with the same characters.
fn owned(s: &str) -> (r: String)
    ensures
        r@ == s@,
{
    s.to_string()
}

/// The categories of mentions Discord can auto-parse from message text.
#[derive(Debug, Clone, Copy)]
pub enum AllowedMentionType {
    Roles,
    Users,
    Everyone,
}

/// Controls which mentions Discord will actually notify.
#[derive(Debug, Clone)]
pub struct AllowedMentions {
    /// Parse types to auto-detect and notify.  Empty = no auto-parsing.
    pub parse: Vec<AllowedMentionType>,
    /// Explicit role IDs whose mentions should be notified.
    pub roles: Vec<String>,
    /// Explicit user IDs whose mentions should be notified.
    pub users: Vec<String>,
}

/// The mathematical content of an [`AllowedMentions`].
pub struct AllowedMentionsView {
    pub parse: Seq<AllowedMentionType>,
    pub roles: Seq<Seq<char>>,
    pub users: Seq<Seq<char>>,
}

impl View for AllowedMentions {
    type V = AllowedMentionsView;

    open spec fn view(&self) -> AllowedMentionsView {
        AllowedMentionsView { parse: self.parse@, roles: str_list(self.roles@), users: str_list(self.users@) }
    }
}

impl Default for AllowedMentions {
    fn default() -> (r: Self)
        ensures
            r@.parse.len() == 0,
            r@.roles.len() == 0,
            r@.users.len() == 0,
    {
        AllowedMentions { parse: Vec::new(), roles: Vec::new(), users: Vec::new() }
    }
}

impl AllowedMentions {
    /// Allow no mentions at all: the safe choice for user-generated content.
    pub fn none() -> (r: Self)
        ensures
            r@.parse.len() == 0,
            r@.roles.len() == 0,
            r@.users.len() == 0,
    {
        AllowedMentions { parse: Vec::new(), roles: Vec::new(), users: Vec::new() }
    }

    /// Allow mentions for the given user IDs only.
    pub fn users(ids: &[&str]) -> (r: Self)
        ensures
            r@.parse.len() == 0,
            r@.roles.len() == 0,
            r@.users == ids@.map_values(|s: &str| s@),
    {
        let mut users: Vec<String> = Vec::new();
        let mut i: usize = 0;
        while i < ids.len()
            invariant
                i <= ids@.len(),
                str_list(users@) == ids@.take(i as int).map_values(|s: &str| s@),
            decreases ids@.len() - i,
        {
            let ghost before = users@;
            users.push(owned(ids[i]));
            assert(str_list(users@) =~= str_list(before).push(ids@[i as int]@));
            assert(ids@.take(i + 1).map_values(|s: &str| s@) =~= ids@.take(i as int).map_values(
                |s: &str| s@,
            ).push(ids@[i as int]@));
            i = i + 1;
        }
        assert(ids@.take(ids@.len() as int) =~= ids@);
        AllowedMentions { parse: Vec::new(), roles: Vec::new(), users }
    }

    /// Allow `@everyone` / `@here`, role mentions and user mentions.
    pub fn all() -> (r: Self)
        ensures
            r@.parse == seq![
                AllowedMentionType::Everyone,
                AllowedMentionType::Roles,
                AllowedMentionType::Users,
            ],
            r@.roles.len() == 0,
            r@.users.len() == 0,
    {
        let mut parse: Vec<AllowedMentionType> = Vec::new();
        parse.push(AllowedMentionType::Everyone);
        parse.push(AllowedMentionType::Roles);
        parse.push(AllowedMentionType::Users);
        AllowedMentions { parse, roles: Vec::new(), users: Vec::new() }
    }
}

/// A named value shown inside an embed.
#[derive(Debug, Clone)]
pub struct EmbedField {
    pub name: String,
    pub value: String,
    pub inline: Option<bool>,
}

/// The mathematical content of an [`EmbedField`].
pub struct EmbedFieldView {
    pub name: Seq<char>,
    pub value: Seq<char>,
    pub inline: Option<bool>,
}

impl View for EmbedField {
    type V = EmbedFieldView;

    open spec fn view(&self) -> EmbedFieldView {
        EmbedFieldView { name: self.name@, value: self.value@, inline: self.inline }
    }
}

/// The footer line of an embed.
#[derive(Debug, Clone)]
pub struct EmbedFooter {
    pub text: String,
    pub icon_url: Option<String>,
}

/// The mathematical content of an [`EmbedFooter`].
pub struct EmbedFooterView {
    pub text: Seq<char>,
    pub icon_url: Option<Seq<char>>,
}

impl View for EmbedFooter {
    type V = EmbedFooterView;

    open spec fn view(&self) -> EmbedFooterView {
        EmbedFooterView { text: self.text@, icon_url: opt_str(self.icon_url) }
    }
}

/// The author line of an embed.
#[derive(Debug, Clone)]
pub struct EmbedAuthor {
    pub name: String,
    pub url: Option<String>,
    pub icon_url: Option<String>,
}

/// The mathematical content of an [`EmbedAuthor`].
pub struct EmbedAuthorView {
    pub name: Seq<char>,
    pub url: Option<Seq<char>>,
    pub icon_url: Option<Seq<char>>,
}

impl View for EmbedAuthor {
    type V = EmbedAuthorView;

    open spec fn view(&self) -> EmbedAuthorView {
        EmbedAuthorView { name: self.name@, url: opt_str(self.url), icon_url: opt_str(self.icon_url) }
    }
}

/// The large image of an embed.
#[derive(Debug, Clone)]
pub struct EmbedImage {
    pub url: String,
}

impl View for EmbedImage {
    type V = Seq<char>;

    open spec fn view(&self) -> Seq<char> {
        self.url@
    }
}

/// The thumbnail of an embed.
#[derive(Debug, Clone)]
pub struct EmbedThumbnail {
    pub url: String,
}

impl View for EmbedThumbnail {
    type V = Seq<char>;

    open spec fn view(&self) -> Seq<char> {
        self.url@
    }
}

/// The view of an optional value that has a view.
pub open spec fn opt_view<T: View>(o: Option<T>) -> Option<T::V> {
    match o {
        Some(t) => Some(t@),
        None => None,
    }
}

/// A Discord rich embed.  Build one with [`Embed::builder()`].
#[derive(Debug, Clone)]
pub struct Embed {
    pub title: Option<String>,
    pub description: Option<String>,
    pub url: Option<String>,
    /// Colour as a 24-bit integer, e.g. `0xFF5733`.
    pub color: Option<u32>,
    pub footer: Option<EmbedFooter>,
    pub thumbnail: Option<EmbedThumbnail>,
    pub image: Option<EmbedImage>,
    pub author: Option<EmbedAuthor>,
    pub fields: Vec<EmbedField>,
    /// ISO 8601 timestamp string, e.g. `"2024-01-01T00:00:00.000Z"`.
    pub timestamp: Option<String>,
}

/// The mathematical content of an [`Embed`].
pub struct EmbedView {
    pub title: Option<Seq<char>>,
    pub description: Option<Seq<char>>,
    pub url: Option<Seq<char>>,
    pub color: Option<u32>,
    pub footer: Option<EmbedFooterView>,
    pub thumbnail: Option<Seq<char>>,
    pub image: Option<Seq<char>>,
    pub author: Option<EmbedAuthorView>,
    pub fields: Seq<EmbedFieldView>,
    pub timestamp: Option<Seq<char>>,
}

/// The view of a list of embed fields.
pub open spec fn field_list(v: Seq<EmbedField>) -> Seq<EmbedFieldView> {
    v.map_values(|f: EmbedField| f@)
}

impl View for Embed {
    type V = EmbedView;

    open spec fn view(&self) -> EmbedView {
        EmbedView {
            title: opt_str(self.title),
            description: opt_str(self.description),
            url: opt_str(self.url),
            color: self.color,
            footer: opt_view(self.footer),
            thumbnail: opt_view(self.thumbnail),
            image: opt_view(self.image),
            author: opt_view(self.author),
            fields: field_list(self.fields@),
            timestamp: opt_str(self.timestamp),
        }
    }
}

/// The view of an embed with nothing set.
pub open spec fn empty_embed() -> EmbedView {
    EmbedView {
        title: None,
        description: None,
        url: None,
        color: None,
        footer: None,
        thumbnail: None,
        image: None,
        author: None,
        fields: Seq::empty(),
        timestamp: None,
    }
}

impl Default for Embed {
    fn default() -> (r: Self)
        ensures
            r@ == empty_embed(),
    {
        let r = Embed {
            title: None,
            description: None,
            url: None,
            color: None,
            footer: None,
            thumbnail: None,
            image: None,
            author: None,
            fields: Vec::new(),
            timestamp: None,
        };
        assert(r@.fields =~= Seq::<EmbedFieldView>::empty());
        r
    }
}

impl Embed {
    /// A builder for an embed with nothing set yet.
    pub fn builder() -> (b: EmbedBuilder)
        ensures
            b@ == empty_embed(),
    {
        EmbedBuilder { inner: Embed::default() }
    }
}

/// Builds an [`Embed`] one property at a time.
#[derive(Debug)]
pub struct EmbedBuilder {
    inner: Embed,
}

impl View for EmbedBuilder {
    type V = EmbedView;

    closed spec fn view(&self) -> EmbedView {
        self.inner@
    }
}

impl Default for EmbedBuilder {
    fn default() -> (b: Self)
        ensures
            b@ == empty_embed(),
    {
        EmbedBuilder { inner: Embed::default() }
    }
}

impl EmbedBuilder {
    pub fn title(self, title: &str) -> (b: Self)
        ensures
            b@ == (EmbedView { title: Some(title@), ..self@ }),
    {
        let mut inner = self.inner;
        inner.title = Some(owned(title));
        EmbedBuilder { inner }
    }

    pub fn description(self, description: &str) -> (b: Self)
        ensures
            b@ == (EmbedView { description: Some(description@), ..self@ }),
    {
        let mut inner = self.inner;
        inner.description = Some(owned(description));
        EmbedBuilder { inner }
    }

    pub fn url(self, url: &str) -> (b: Self)
        ensures
            b@ == (EmbedView { url: Some(url@), ..self@ }),
    {
        let mut inner = self.inner;
        inner.url = Some(owned(url));
        EmbedBuilder { inner }
    }

    /// Set the sidebar colour as a 24-bit integer, e.g. `0xFF5733`.
    pub fn color(self, color: u32) -> (b: Self)
        ensures
            b@ == (EmbedView { color: Some(color), ..self@ }),
    {
        let mut inner = self.inner;
        inner.color = Some(color);
        EmbedBuilder { inner }
    }

    pub fn footer(self, text: &str) -> (b: Self)
        ensures
            b@ == (EmbedView { footer: Some(EmbedFooterView { text: text@, icon_url: None }), ..self@ }),
    {
        let mut inner = self.inner;
        inner.footer = Some(EmbedFooter { text: owned(text), icon_url: None });
        EmbedBuilder { inner }
    }

    pub fn footer_with_icon(self, text: &str, icon_url: &str) -> (b: Self)
        ensures
            b@ == (EmbedView {
                footer: Some(EmbedFooterView { text: text@, icon_url: Some(icon_url@) }),
                ..self@
            }),
    {
        let mut inner = self.inner;
        inner.footer = Some(EmbedFooter { text: owned(text), icon_url: Some(owned(icon_url)) });
        EmbedBuilder { inner }
    }

    pub fn thumbnail(self, url: &str) -> (b: Self)
        ensures
            b@ == (EmbedView { thumbnail: Some(url@), ..self@ }),
    {
        let mut inner = self.inner;
        inner.thumbnail = Some(EmbedThumbnail { url: owned(url) });
        EmbedBuilder { inner }
    }

    pub fn image(self, url: &str) -> (b: Self)
        ensures
            b@ == (EmbedView { image: Some(url@), ..self@ }),
    {
        let mut inner = self.inner;
        inner.image = Some(EmbedImage { url: owned(url) });
        EmbedBuilder { inner }
    }

    pub fn author(self, name: &str) -> (b: Self)
        ensures
            b@ == (EmbedView {
                author: Some(EmbedAuthorView { name: name@, url: None, icon_url: None }),
                ..self@
            }),
    {
        let mut inner = self.inner;
        inner.author = Some(EmbedAuthor { name: owned(name), url: None, icon_url: None });
        EmbedBuilder { inner }
    }

    pub fn author_full(self, name: &str, url: Option<&str>, icon_url: Option<&str>) -> (b: Self)
        ensures
            b@ == (EmbedView {
                author: Some(
                    EmbedAuthorView {
                        name: name@,
                        url: match url {
                            Some(u) => Some(u@),
                            None => None,
                        },
                        icon_url: match icon_url {
                            Some(u) => Some(u@),
                            None => None,
                        },
                    },
                ),
                ..self@
            }),
    {
        let url = match url {
            Some(u) => Some(owned(u)),
            None => None,
        };
        let icon_url = match icon_url {
            Some(u) => Some(owned(u)),
            None => None,
        };
        let mut inner = self.inner;
        inner.author = Some(EmbedAuthor { name: owned(name), url, icon_url });
        EmbedBuilder { inner }
    }

    /// Add a field.  Pass `inline: true` to render side-by-side with adjacent fields.
    pub fn field(self, name: &str, value: &str, inline: bool) -> (b: Self)
        ensures
            b@ == (EmbedView {
                fields: self@.fields.push(
                    EmbedFieldView { name: name@, value: value@, inline: Some(inline) },
                ),
                ..self@
            }),
    {
        let mut inner = self.inner;
        let ghost before = inner.fields@;
        inner.fields.push(EmbedField { name: owned(name), value: owned(value), inline: Some(inline) });
        assert(field_list(inner.fields@) =~= field_list(before).push(
            EmbedFieldView { name: name@, value: value@, inline: Some(inline) },
        ));
        EmbedBuilder { inner }
    }

    /// ISO 8601 timestamp shown in the embed footer, e.g. `"2024-01-01T00:00:00.000Z"`.
    pub fn timestamp(self, timestamp: &str) -> (b: Self)
        ensures
            b@ == (EmbedView { timestamp: Some(timestamp@), ..self@ }),
    {
        let mut inner = self.inner;
        inner.timestamp = Some(owned(timestamp));
        EmbedBuilder { inner }
    }

    /// Set the description to a pretty-printed JSON code block of `value`.
    pub fn json_description<T: serde::Serialize>(self, value: &T) -> (r: Result<Self, WebhookError>)
        ensures
            match r {
                Ok(b) => exists|pretty: Seq<char>|
                    b@ == (EmbedView { description: Some(#[trigger] json_block(pretty)), ..self@ }),
                Err(e) => e is Json,
            },
    {
        match json_code_block(value) {
            Ok(block) => {
                let ghost pretty = choose|p: Seq<char>| block@ == json_block(p);
                let b = self.description(block.as_str());
                assert(b@ == (EmbedView { description: Some(json_block(pretty)), ..self@ }));
                Ok(b)
            },
            Err(e) => Err(e),
        }
    }

    /// Add a field whose value is a pretty-printed JSON code block of `value`.
    pub fn json_field<T: serde::Serialize>(self, name: &str, value: &T, inline: bool) -> (r: Result<
        Self,
        WebhookError,
    >)
        ensures
            match r {
                Ok(b) => exists|pretty: Seq<char>|
                    b@ == (EmbedView {
                        fields: self@.fields.push(
                            EmbedFieldView {
                                name: name@,
                                value: #[trigger] json_block(pretty),
                                inline: Some(inline),
                            },
                        ),
                        ..self@
                    }),
                Err(e) => e is Json,
            },
    {
        match json_code_block(value) {
            Ok(block) => {
                let ghost pretty = choose|p: Seq<char>| block@ == json_block(p);
                let b = self.field(name, block.as_str(), inline);
                assert(b@ == (EmbedView {
                    fields: self@.fields.push(
                        EmbedFieldView { name: name@, value: json_block(pretty), inline: Some(inline) },
                    ),
                    ..self@
                }));
                Ok(b)
            },
            Err(e) => Err(e),
        }
    }

    /// The finished embed.
    pub fn build(self) -> (e: Embed)
        ensures
            e@ == self@,
    {
        self.inner
    }
}

/// The top-level payload sent to a Discord webhook.  Build one with [`WebhookMessage::builder()`].
#[derive(Debug, Clone)]
pub struct WebhookMessage {
    /// Plain-text message content (up to 2000 characters).
    pub content: Option<String>,
    /// Override the webhook's display name for this message.
    pub username: Option<String>,
    /// Override the webhook's avatar URL for this message.
    pub avatar_url: Option<String>,
    /// Send as a text-to-speech message.
    pub tts: Option<bool>,
    /// Rich embeds (up to 10 per message).
    pub embeds: Vec<Embed>,
    /// Controls which `@mentions` in `content` actually ping someone.
    pub allowed_mentions: Option<AllowedMentions>,
    /// Message flags bitfield; see the `flags` module.
    pub flags: Option<u64>,
    /// Create a new thread with this name and post the message into it.
    pub thread_name: Option<String>,
    /// Tag IDs to apply to the newly-created thread.
    pub applied_tags: Vec<String>,
}

/// The mathematical content of a [`WebhookMessage`].
pub struct WebhookMessageView {
    pub content: Option<Seq<char>>,
    pub username: Option<Seq<char>>,
    pub avatar_url: Option<Seq<char>>,
    pub tts: Option<bool>,
    pub embeds: Seq<EmbedView>,
    pub allowed_mentions: Option<AllowedMentionsView>,
    pub flags: Option<u64>,
    pub thread_name: Option<Seq<char>>,
    pub applied_tags: Seq<Seq<char>>,
}

/// The view of a list of embeds.
pub open spec fn embed_list(v: Seq<Embed>) -> Seq<EmbedView> {
    v.map_values(|e: Embed| e@)
}

impl View for WebhookMessage {
    type V = WebhookMessageView;

    open spec fn view(&self) -> WebhookMessageView {
        WebhookMessageView {
            content: opt_str(self.content),
            username: opt_str(self.username),
            avatar_url: opt_str(self.avatar_url),
            tts: self.tts,
            embeds: embed_list(self.embeds@),
            allowed_mentions: opt_view(self.allowed_mentions),
            flags: self.flags,
            thread_name: opt_str(self.thread_name),
            applied_tags: str_list(self.applied_tags@),
        }
    }
}

/// The view of a message with nothing set.
pub open spec fn empty_message() -> WebhookMessageView {
    WebhookMessageView {
        content: None,
        username: None,
        avatar_url: None,
        tts: None,
        embeds: Seq::empty(),
        allowed_mentions: None,
        flags: None,
        thread_name: None,
        applied_tags: Seq::empty(),
    }
}

/// A message may be sent only when it has content or at least one embed.
pub open spec fn sendable(m: WebhookMessageView) -> bool {
    m.content is Some || m.embeds.len() > 0
}

/// The flags after OR-ing `flag` into `flags` (absent flags count as 0).
pub open spec fn with_flag(flags: Option<u64>, flag: u64) -> Option<u64> {
    Some(
        match flags {
            Some(f) => f,
            None => 0u64,
        } | flag,
    )
}

/// The content after adding `block`: on a new line after existing content, or alone.
pub open spec fn appended_content(content: Option<Seq<char>>, block: Seq<char>) -> Seq<char> {
    match content {
        Some(existing) => existing + "\n"@ + block,
        None => block,
    }
}

impl Default for WebhookMessage {
    fn default() -> (r: Self)
        ensures
            r@ == empty_message(),
    {
        let r = WebhookMessage {
            content: None,
            username: None,
            avatar_url: None,
            tts: None,
            embeds: Vec::new(),
            allowed_mentions: None,
            flags: None,
            thread_name: None,
            applied_tags: Vec::new(),
        };
        assert(r@.embeds =~= Seq::<EmbedView>::empty());
        assert(r@.applied_tags =~= Seq::<Seq<char>>::empty());
        r
    }
}

impl WebhookMessage {
    /// A builder for a message with nothing set yet.
    pub fn builder() -> (b: WebhookMessageBuilder)
        ensures
            b@ == empty_message(),
    {
        WebhookMessageBuilder { inner: WebhookMessage::default() }
    }
}

/// Builds a [`WebhookMessage`] one property at a time.
#[derive(Debug)]
pub struct WebhookMessageBuilder {
    inner: WebhookMessage,
}

impl View for WebhookMessageBuilder {
    type V = WebhookMessageView;

    closed spec fn view(&self) -> WebhookMessageView {
        self.inner@
    }
}

impl Default for WebhookMessageBuilder {
    fn default() -> (b: Self)
        ensures
            b@ == empty_message(),
    {
        WebhookMessageBuilder { inner: WebhookMessage::default() }
    }
}

impl WebhookMessageBuilder {
    pub fn content(self, content: &str) -> (b: Self)
        ensures
            b@ == (WebhookMessageView { content: Some(content@), ..self@ }),
    {
        let mut inner = self.inner;
        inner.content = Some(owned(content));
        WebhookMessageBuilder { inner }
    }

    pub fn username(self, username: &str) -> (b: Self)
        ensures
            b@ == (WebhookMessageView { username: Some(username@), ..self@ }),
    {
        let mut inner = self.inner;
        inner.username = Some(owned(username));
        WebhookMessageBuilder { inner }
    }

    pub fn avatar_url(self, url: &str) -> (b: Self)
        ensures
            b@ == (WebhookMessageView { avatar_url: Some(url@), ..self@ }),
    {
        let mut inner = self.inner;
        inner.avatar_url = Some(owned(url));
        WebhookMessageBuilder { inner }
    }

    pub fn tts(self, tts: bool) -> (b: Self)
        ensures
            b@ == (WebhookMessageView { tts: Some(tts), ..self@ }),
    {
        let mut inner = self.inner;
        inner.tts = Some(tts);
        WebhookMessageBuilder { inner }
    }

    /// Set the allowed mentions; use `AllowedMentions::none()` for user-submitted text.
    pub fn allowed_mentions(self, allowed_mentions: AllowedMentions) -> (b: Self)
        ensures
            b@ == (WebhookMessageView { allowed_mentions: Some(allowed_mentions@), ..self@ }),
    {
        let mut inner = self.inner;
        inner.allowed_mentions = Some(allowed_mentions);
        WebhookMessageBuilder { inner }
    }

    /// OR a flag from the `flags` module into the message flags.
    pub fn flag(self, flag: u64) -> (b: Self)
        ensures
            b@ == (WebhookMessageView { flags: with_flag(self@.flags, flag), ..self@ }),
    {
        let mut inner = self.inner;
        let current = match inner.flags {
            Some(f) => f,
            None => 0,
        };
        inner.flags = Some(current | flag);
        WebhookMessageBuilder { inner }
    }

    /// Create a new thread with this name and post the message into it.
    pub fn thread_name(self, name: &str) -> (b: Self)
        ensures
            b@ == (WebhookMessageView { thread_name: Some(name@), ..self@ }),
    {
        let mut inner = self.inner;
        inner.thread_name = Some(owned(name));
        WebhookMessageBuilder { inner }
    }

    /// Apply a forum/media channel tag ID to the thread created by `thread_name`.
    pub fn applied_tag(self, tag_id: &str) -> (b: Self)
        ensures
            b@ == (WebhookMessageView { applied_tags: self@.applied_tags.push(tag_id@), ..self@ }),
    {
        let mut inner = self.inner;
        let ghost before = inner.applied_tags@;
        inner.applied_tags.push(owned(tag_id));
        assert(str_list(inner.applied_tags@) =~= str_list(before).push(tag_id@));
        WebhookMessageBuilder { inner }
    }

    /// Set the content to a pretty-printed JSON code block of `value`, on a new line
    /// after any content already set.
    pub fn json_content<T: serde::Serialize>(self, value: &T) -> (r: Result<Self, WebhookError>)
        ensures
            match r {
                Ok(b) => exists|pretty: Seq<char>|
                    b@ == (WebhookMessageView {
                        content: Some(appended_content(self@.content, #[trigger] json_block(pretty))),
                        ..self@
                    }),
                Err(e) => e is Json,
            },
    {
        match json_code_block(value) {
            Ok(block) => {
                let ghost pretty = choose|p: Seq<char>| block@ == json_block(p);
                Ok(self.append_content(block))
            },
            Err(e) => Err(e),
        }
    }

    /// Put `block` after the existing content on a new line, or set it as the content.
    pub fn append_content(self, block: String) -> (b: Self)
        ensures
            b@ == (WebhookMessageView {
                content: Some(appended_content(self@.content, block@)),
                ..self@
            }),
    {
        let mut inner = self.inner;
        let content = match inner.content {
            Some(existing) => {
                let joined = existing.concat("\n");
                joined.concat(block.as_str())
            },
            None => block,
        };
        inner.content = Some(content);
        WebhookMessageBuilder { inner }
    }

    /// Attach an embed.  Up to 10 embeds are allowed per message.
    pub fn embed(self, embed: Embed) -> (b: Self)
        ensures
            b@ == (WebhookMessageView { embeds: self@.embeds.push(embed@), ..self@ }),
    {
        let mut inner = self.inner;
        let ghost before = inner.embeds@;
        let ghost e = embed@;
        inner.embeds.push(embed);
        assert(embed_list(inner.embeds@) =~= embed_list(before).push(e));
        WebhookMessageBuilder { inner }
    }

    /// Validate and return the finished message: it needs content or at least one embed.
    pub fn build(self) -> (r: Result<WebhookMessage, WebhookError>)
        ensures
            sendable(self@) ==> (r matches Ok(m) && m@ == self@),
            !sendable(self@) ==> r matches Err(WebhookError::EmptyMessage),
    {
        if self.inner.content.is_none() && self.inner.embeds.len() == 0 {
            return Err(WebhookError::EmptyMessage);
        }
        Ok(self.inner)
    }
}

} // verus!
