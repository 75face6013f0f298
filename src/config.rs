use vstd::prelude::*;

verus! {

/// Which generation backend answers a question.
#[derive(Clone, Copy, Debug, PartialEq, Eq, Structural)]
pub enum AiChat {
    ChatGPT,
    Grok,
    Deepseek,
    Ollama,
}

/// Language hint for speech recognition.
#[derive(Clone, Copy, Debug, PartialEq, Eq, Structural)]
pub enum Language {
    EN,
    PL,
    CN,
    DE,
    FR,
    ES,
    RU,
    TR,
    JP,
}

impl AiChat {
    /// The backend at position `i` of the selector: ChatGPT, Grok, Deepseek, Ollama.
    pub fn from_index(i: usize) -> (r: Option<AiChat>)
        ensures
            i == 0 ==> r == Some(AiChat::ChatGPT),
            i == 1 ==> r == Some(AiChat::Grok),
            i == 2 ==> r == Some(AiChat::Deepseek),
            i == 3 ==> r == Some(AiChat::Ollama),
            i > 3 ==> r is None,
    {
        if i == 0 {
            Some(AiChat::ChatGPT)
        } else if i == 1 {
            Some(AiChat::Grok)
        } else if i == 2 {
            Some(AiChat::Deepseek)
        } else if i == 3 {
            Some(AiChat::Ollama)
        } else {
            None
        }
    }
}

pub open spec fn language_code_spec(l: Language) -> Seq<char> {
    match l {
        Language::EN => seq!['e', 'n'],
        Language::PL => seq!['p', 'l'],
        Language::CN => seq!['c', 'n'],
        Language::DE => seq!['d', 'e'],
        Language::FR => seq!['f', 'r'],
        Language::ES => seq!['e', 's'],
        Language::RU => seq!['r', 'u'],
        Language::TR => seq!['t', 'r'],
        Language::JP => seq!['j', 'p'],
    }
}

impl Language {
    /// The language at position `i` of the selector.
    pub fn from_index(i: usize) -> (r: Option<Language>)
        ensures
            i < 9 <==> r is Some,
            i == 0 ==> r == Some(Language::EN),
            i == 1 ==> r == Some(Language::PL),
            i == 2 ==> r == Some(Language::CN),
            i == 3 ==> r == Some(Language::DE),
            i == 4 ==> r == Some(Language::FR),
            i == 5 ==> r == Some(Language::ES),
            i == 6 ==> r == Some(Language::RU),
            i == 7 ==> r == Some(Language::TR),
            i == 8 ==> r == Some(Language::JP),
    {
        match i {
            0 => Some(Language::EN),
            1 => Some(Language::PL),
            2 => Some(Language::CN),
            3 => Some(Language::DE),
            4 => Some(Language::FR),
            5 => Some(Language::ES),
            6 => Some(Language::RU),
            7 => Some(Language::TR),
            8 => Some(Language::JP),
            _ => None,
        }
    }

    /// The lowercase two-letter hint handed to the recognizer.
    pub fn code(&self) -> (r: String)
        ensures
            r@ == language_code_spec(*self),
    {
        let s: &str = match self {
            Language::EN => "en",
            Language::PL => "pl",
            Language::CN => "cn",
            Language::DE => "de",
            Language::FR => "fr",
            Language::ES => "es",
            Language::RU => "ru",
            Language::TR => "tr",
            Language::JP => "jp",
        };
        proof {
            reveal_strlit("en");
            reveal_strlit("pl");
            reveal_strlit("cn");
            reveal_strlit("de");
            reveal_strlit("fr");
            reveal_strlit("es");
            reveal_strlit("ru");
            reveal_strlit("tr");
            reveal_strlit("jp");
        }
        let r = String::from_str(s);
        assert(r@ =~= language_code_spec(*self));
        r
    }
}

/// Access to one online service.
#[derive(Debug)]
pub struct AiApi {
    pub key: String,
    pub url: String,
    pub model: String,
}

pub struct AiApiView {
    pub key: Seq<char>,
    pub url: Seq<char>,
    pub model: Seq<char>,
}

impl View for AiApi {
    type V = AiApiView;

    open spec fn view(&self) -> AiApiView {
        AiApiView { key: self.key@, url: self.url@, model: self.model@ }
    }
}

impl AiApi {
    pub fn new(key: String, url: String, model: String) -> (r: AiApi)
        ensures
            r.key@ == key@,
            r.url@ == url@,
            r.model@ == model@,
    {
        AiApi { key, url, model }
    }

    /// A copy with the same fields.
    pub fn duplicate(&self) -> (r: AiApi)
        ensures
            r@ == self@,
    {
        AiApi { key: self.key.clone(), url: self.url.clone(), model: self.model.clone() }
    }
}

/// Settings read once at startup; window geometry stays with the window.
#[derive(Debug)]
pub struct Config {
    pub record_device: Option<String>,
    pub ollama_url: String,
    pub ollama_port: u16,
    pub ollama_model: String,
    pub gpt: Option<AiApi>,
    pub deepseek: Option<AiApi>,
    pub grok: Option<AiApi>,
    pub eleven: Option<AiApi>,
    pub whisper_model: String,
    /// Poll wait of a stream with nothing available, in milliseconds.
    pub chat_msg_wait: u64,
}

/// The online service settings for a backend, if any are configured.
pub open spec fn api_for(conf: Config, ai: AiChat) -> Option<AiApi> {
    match ai {
        AiChat::ChatGPT => conf.gpt,
        AiChat::Grok => conf.grok,
        AiChat::Deepseek => conf.deepseek,
        AiChat::Ollama => None,
    }
}

/// Where one request goes, with only that backend's settings.
pub enum Backend {
    Online { api: AiApi },
    Local { url: String, port: u16, model: String },
}

#[derive(Debug, Clone, Copy, PartialEq, Eq, Structural)]
pub enum ChatError {
    /// No backend is selected.
    NoBackend,
    /// The selected online backend has no settings.
    NotConfigured(AiChat),
}

fn copy_api(a: &Option<AiApi>) -> (r: Option<AiApi>)
    ensures
        a is None <==> r is None,
        a is Some ==> r->0@ == a->0@,
{
    match a {
        Some(x) => Some(x.duplicate()),
        None => None,
    }
}

/// Resolves the selected backend against the settings.
pub fn select_backend(sel: Option<AiChat>, conf: &Config) -> (r: Result<Backend, ChatError>)
    ensures
        sel is None ==> r == Err::<Backend, ChatError>(ChatError::NoBackend),
        sel == Some(AiChat::Ollama) ==> (r matches Ok(Backend::Local { url, port, model }) && url@
            == conf.ollama_url@ && port == conf.ollama_port && model@ == conf.ollama_model@),
        sel is Some && sel != Some(AiChat::Ollama) ==> match api_for(*conf, sel->0) {
            Some(a) => (r matches Ok(Backend::Online { api }) && api@ == a@),
            None => r == Err::<Backend, ChatError>(ChatError::NotConfigured(sel->0)),
        },
{
    match sel {
        None => Err(ChatError::NoBackend),
        Some(AiChat::Ollama) => Ok(
            Backend::Local {
                url: conf.ollama_url.clone(),
                port: conf.ollama_port,
                model: conf.ollama_model.clone(),
            },
        ),
        Some(ai) => {
            let api = match ai {
                AiChat::ChatGPT => copy_api(&conf.gpt),
                AiChat::Grok => copy_api(&conf.grok),
                _ => copy_api(&conf.deepseek),
            };
            match api {
                Some(api) => Ok(Backend::Online { api }),
                None => Err(ChatError::NotConfigured(ai)),
            }
        },
    }
}

} // verus!
