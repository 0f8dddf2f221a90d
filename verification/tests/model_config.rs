use amallgam::model_config::{bot_model_inputs, ModelConfig, ModelId, PromptContext, PromptTemplate};
use amallgam::errors::AmallgamError;
use amallgam::users::{ProtocolUser, PublicKey, User};

#[test]
fn prompt_context_messages() {
    let c = PromptContext::new("be nice", "<s>", "</s>", None);
    assert_eq!(c.messages.len(), 1);
    assert_eq!(c.messages[0].role, "system");
    assert_eq!(c.messages[0].content, "be nice");
    assert!(c.add_generation_prompt);
    assert_eq!(c.bos_token, "<s>");
    assert_eq!(c.eos_token, "</s>");
    let c = PromptContext::new("be nice", "<s>", "</s>", Some("hi"));
    assert_eq!(c.messages.len(), 2);
    assert_eq!(c.messages[1].role, "system");
    assert_eq!(c.messages[1].content, "hi");
}

#[test]
fn prompt_template_renders_context() {
    let config = ModelConfig {
        id: ModelId("m".to_string()),
        file_name: "m.gguf".to_string(),
        prompt_template: "{{ bos_token }}{% for m in messages %}[{{ m.role }}]{{ m.content }}{% endfor %}{% if add_generation_prompt %}>{% endif %}{{ eos_token }}".to_string(),
    };
    let t = PromptTemplate::for_model(&config).ok().unwrap();
    assert_eq!(t.render_prompt("sys", "<s>", "</s>", Some("hello")).ok().unwrap(), "<s>[system]sys[system]hello></s>");
    assert_eq!(t.render_prompt("sys", "<s>", "</s>", None).ok().unwrap(), "<s>[system]sys></s>");
}

#[test]
fn broken_template_is_refused() {
    let config = ModelConfig { id: ModelId("m".to_string()), file_name: "f".to_string(), prompt_template: "{% for %}".to_string() };
    assert!(PromptTemplate::for_model(&config).is_err());
}

#[test]
fn only_bots_have_model_inputs() {
    let bot = User::Local {
        base_url: "https://example.com/user/abc/".to_string(),
        user_id: "abc".to_string(),
        display_name: "abc".to_string(),
        public_key_pem: "P".to_string(),
        private_key_pem: "Q".to_string(),
        model_id: ModelId("m".to_string()),
        system_prompt: "s".to_string(),
    };
    let i = bot_model_inputs(&bot).ok().unwrap();
    assert_eq!(i.user_id, "abc");
    assert_eq!(i.model_id.0, "m");
    assert_eq!(i.system_prompt, "s");
    let remote = User::Remote(ProtocolUser {
        id: "https://o.org/u".to_string(),
        preferred_username: "u".to_string(),
        name: "u".to_string(),
        inbox: "https://o.org/u/i".to_string(),
        outbox: "https://o.org/u/o".to_string(),
        public_key: PublicKey { id: "k".to_string(), owner: "o".to_string(), public_key_pem: "p".to_string() },
        endpoints: None,
    });
    assert!(matches!(bot_model_inputs(&remote), Err(AmallgamError::RemoteUserAsBot)));
}
