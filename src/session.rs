use vstd::prelude::*;
use crate::chunker::DEFAULT_MIN_FRAGMENTS;
use crate::config::{api_for, AiChat, Backend, ChatError, Config, select_backend};
use crate::stream::StreamIngestor;

verus! {

/// Everything one ask needs, fixed when it starts: later changes of the
/// shared selections do not reach a request in flight.
pub struct AskPlan {
    pub backend: Backend,
    pub ingestor: StreamIngestor,
    /// Poll wait in milliseconds when the stream has nothing yet.
    pub poll_wait_ms: u64,
}

/// Plans one ask from snapshots of the backend selection and the narration flag.
pub fn plan_ask(sel: Option<AiChat>, narrate: bool, conf: &Config) -> (r: Result<AskPlan, ChatError>)
    ensures
        r is Ok <==> (sel == Some(AiChat::Ollama) || (sel is Some && api_for(*conf, sel->0) is Some)),
        sel is None ==> r == Err::<AskPlan, ChatError>(ChatError::NoBackend),
        sel is Some && sel != Some(AiChat::Ollama) && api_for(*conf, sel->0) is None ==> r == Err::<
            AskPlan,
            ChatError,
        >(ChatError::NotConfigured(sel->0)),
        r is Ok ==> ({
            let p = r->Ok_0;
            &&& p.poll_wait_ms == conf.chat_msg_wait
            &&& p.ingestor@.narrate == narrate
            &&& !p.ingestor@.finished
            &&& p.ingestor@.chunker.pending.len() == 0
            &&& p.ingestor@.chunker.min_fragments == DEFAULT_MIN_FRAGMENTS
            &&& p.ingestor@.chunker.terminators == seq!['.', '。']
            &&& (sel == Some(AiChat::Ollama) ==> (p.backend matches Backend::Local { url, port, model }
                && url@ == conf.ollama_url@ && port == conf.ollama_port && model@
                == conf.ollama_model@))
            &&& (sel != Some(AiChat::Ollama) ==> (p.backend matches Backend::Online { api } && api@
                == api_for(*conf, sel->0)->0@))
        }),
{
    match select_backend(sel, conf) {
        Ok(backend) => Ok(
            AskPlan {
                backend,
                ingestor: StreamIngestor::new(narrate, DEFAULT_MIN_FRAGMENTS),
                poll_wait_ms: conf.chat_msg_wait,
            },
        ),
        Err(e) => Err(e),
    }
}

} // verus!
