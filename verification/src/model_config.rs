//! Model configurations and the prompts given to a bot's model.

use vstd::prelude::*;

use crate::errors::AmallgamError;
use crate::users::{User, UserView};

verus! {

/// The id of a model configuration.
#[derive(Debug)]
pub struct ModelId(pub String);

impl View for ModelId {
    type V = Seq<char>;

    open spec fn view(&self) -> Seq<char> {
        self.0@
    }
}

impl Clone for ModelId {
    fn clone(&self) -> (res: Self)
        ensures
            res@ == self@,
    {
        ModelId(self.0.clone())
    }
}

/// A model configuration as the database stores it.
#[derive(Debug)]
pub struct ModelConfig {
    pub id: ModelId,
    pub file_name: String,
    pub prompt_template: String,
}

/// The view of a model configuration.
pub struct ModelConfigView {
    pub id: Seq<char>,
    pub file_name: Seq<char>,
    pub prompt_template: Seq<char>,
}

impl View for ModelConfig {
    type V = ModelConfigView;

    open spec fn view(&self) -> ModelConfigView {
        ModelConfigView { id: self.id@, file_name: self.file_name@, prompt_template: self.prompt_template@ }
    }
}

/// What a bot's model is run with: the bot's user id, its model and its
/// system prompt.
#[derive(Debug)]
pub struct BotModelInputs {
    pub user_id: String,
    pub model_id: ModelId,
    pub system_prompt: String,
}

/// The inputs of a bot's model; only a local bot has a model.
pub fn bot_model_inputs(bot: &User) -> (res: Result<BotModelInputs, AmallgamError>)
    ensures
        match bot@ {
            UserView::Local { user_id, model_id, system_prompt, .. } => res matches Ok(i) && i.user_id@ == user_id
                && i.model_id@ == model_id && i.system_prompt@ == system_prompt,
            UserView::Remote(_) => res matches Err(e) && e is RemoteUserAsBot,
        },
{
    match bot {
        User::Local { user_id, model_id, system_prompt, .. } => Ok(BotModelInputs {
            user_id: user_id.clone(),
            model_id: model_id.clone(),
            system_prompt: system_prompt.clone(),
        }),
        User::Remote(_) => Err(AmallgamError::RemoteUserAsBot),
    }
}

/// A chat message given to a prompt template.
#[derive(Debug)]
pub struct PromptMessage {
    pub role: String,
    pub content: String,
}

/// The context that a prompt template is rendered with.
#[derive(Debug)]
pub struct PromptContext {
    pub messages: Vec<PromptMessage>,
    pub add_generation_prompt: bool,
    pub bos_token: String,
    pub eos_token: String,
}

pub struct PromptContextView {
    /// `(role, content)` of each message.
    pub messages: Seq<(Seq<char>, Seq<char>)>,
    pub add_generation_prompt: bool,
    pub bos_token: Seq<char>,
    pub eos_token: Seq<char>,
}

impl View for PromptContext {
    type V = PromptContextView;

    open spec fn view(&self) -> PromptContextView {
        PromptContextView {
            messages: self.messages@.map_values(|m: PromptMessage| (m.role@, m.content@)),
            add_generation_prompt: self.add_generation_prompt,
            bos_token: self.bos_token@,
            eos_token: self.eos_token@,
        }
    }
}

/// The messages of a prompt: the system prompt, then the user's message where
/// there is one. Both carry the role `system`.
pub open spec fn prompt_messages(system_prompt: Seq<char>, user_message: Option<Seq<char>>) -> Seq<(Seq<char>, Seq<char>)> {
    match user_message {
        Some(m) => seq![("system"@, system_prompt), ("system"@, m)],
        None => seq![("system"@, system_prompt)],
    }
}

impl PromptContext {
    /// The context of a bot's prompt: its messages, the model's begin and end
    /// of sequence tokens, and a request for the generation prompt.
    pub fn new(system_prompt: &str, bos_token: &str, eos_token: &str, user_message: Option<&str>) -> (res: PromptContext)
        ensures
            res@.messages == prompt_messages(system_prompt@, match user_message {
                Some(m) => Some(m@),
                None => None,
            }),
            res@.add_generation_prompt,
            res@.bos_token == bos_token@,
            res@.eos_token == eos_token@,
    {
        let mut messages: Vec<PromptMessage> = Vec::new();
        messages.push(PromptMessage { role: String::from_str("system"), content: String::from_str(system_prompt) });
        match user_message {
            Some(m) => {
                messages.push(PromptMessage { role: String::from_str("system"), content: String::from_str(m) });
            },
            None => {},
        }
        let res = PromptContext {
            messages,
            add_generation_prompt: true,
            bos_token: String::from_str(bos_token),
            eos_token: String::from_str(eos_token),
        };
        assert(res@.messages =~= prompt_messages(system_prompt@, match user_message {
            Some(m) => Some(m@),
            None => None,
        }));
        res
    }
}

/// Whether `minijinja::Environment::add_template_owned` accepts `source` as a
/// template.
pub uninterp spec fn template_compiles(source: Seq<char>) -> bool;

/// What `minijinja::Template::render` makes of the template compiled from
/// `source` and of the context; `None` where rendering fails.
pub uninterp spec fn rendered_prompt(source: Seq<char>, ctx: PromptContextView) -> Option<Seq<char>>;

#[verifier::external_type_specification]
#[verifier::external_body]
pub struct ExEnvironment<'a>(minijinja::Environment<'a>);

#[verifier::external_type_specification]
#[verifier::external_body]
pub struct ExValue(minijinja::Value);

/// Why a prompt template could not be compiled or rendered.
#[derive(Debug)]
pub struct TemplateError {
    pub message: String,
}

/// A model's prompt template, compiled.
pub struct PromptTemplate {
    source: String,
    env: minijinja::Environment<'static>,
}

/// Converts a prompt context into a `minijinja::Value`: a map with the
/// messages (each a map of `role` and `content`), `add_generation_prompt`,
/// `bos_token` and `eos_token`.
#[verifier::external_body]
fn prompt_value(ctx: &PromptContext) -> minijinja::Value {
    let messages: Vec<minijinja::Value> = ctx.messages.iter().map(|m| minijinja::Value::from_iter(
        [("role", minijinja::Value::from(m.role.clone())), ("content", minijinja::Value::from(m.content.clone()))])).collect();
    minijinja::Value::from_iter([
        ("messages", minijinja::Value::from(messages)),
        ("add_generation_prompt", minijinja::Value::from(ctx.add_generation_prompt)),
        ("bos_token", minijinja::Value::from(ctx.bos_token.clone())),
        ("eos_token", minijinja::Value::from(ctx.eos_token.clone())),
    ])
}

impl PromptTemplate {
    /// The template's source.
    pub closed spec fn source(&self) -> Seq<char> {
        self.source@
    }

    /// Calls `minijinja::Environment::new` and
    /// `minijinja::Environment::add_template_owned`: the template compiles
    /// exactly where minijinja accepts its source.
    #[verifier::external_body]
    fn compile(source: String) -> (res: Result<PromptTemplate, TemplateError>)
        ensures
            res is Ok <==> template_compiles(source@),
            res matches Ok(t) ==> t.source() == source@,
    {
        let mut env = minijinja::Environment::new();
        match env.add_template_owned("prompt_template", source.clone()) {
            Ok(()) => Ok(PromptTemplate { source, env }),
            Err(e) => Err(TemplateError { message: e.to_string() }),
        }
    }

    /// Calls `minijinja::Environment::get_template` for the compiled template
    /// and `minijinja::Template::render` with the context.
    #[verifier::external_body]
    fn render(&self, ctx: &PromptContext) -> (res: Result<String, TemplateError>)
        ensures
            match res {
                Ok(s) => rendered_prompt(self.source(), ctx@) == Some(s@),
                Err(_) => rendered_prompt(self.source(), ctx@) is None,
            },
    {
        let template = match self.env.get_template("prompt_template") {
            Ok(t) => t,
            Err(e) => return Err(TemplateError { message: e.to_string() }),
        };
        match template.render(prompt_value(ctx)) {
            Ok(s) => Ok(s),
            Err(e) => Err(TemplateError { message: e.to_string() }),
        }
    }
}

impl PromptTemplate {
    /// The prompt template of a model configuration, compiled; an error where
    /// minijinja refuses it.
    pub fn for_model(config: &ModelConfig) -> (res: Result<PromptTemplate, TemplateError>)
        ensures
            res is Ok <==> template_compiles(config.prompt_template@),
            res matches Ok(t) ==> t.source() == config.prompt_template@,
    {
        PromptTemplate::compile(config.prompt_template.clone())
    }

    /// The prompt for a bot: the template rendered with the bot's system
    /// prompt, the model's tokens and, where given, the user's message.
    pub fn render_prompt(&self, system_prompt: &str, bos_token: &str, eos_token: &str, user_message: Option<&str>) -> (res: Result<String, TemplateError>)
        ensures
            ({
                let ctx = PromptContextView {
                    messages: prompt_messages(system_prompt@, match user_message {
                        Some(m) => Some(m@),
                        None => None,
                    }),
                    add_generation_prompt: true,
                    bos_token: bos_token@,
                    eos_token: eos_token@,
                };
                match res {
                    Ok(s) => rendered_prompt(self.source(), ctx) == Some(s@),
                    Err(_) => rendered_prompt(self.source(), ctx) is None,
                }
            }),
    {
        let ctx = PromptContext::new(system_prompt, bos_token, eos_token, user_message);
        self.render(&ctx)
    }
}

} // verus!
