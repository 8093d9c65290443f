use vstd::prelude::*;
use vstd::string::StringExecFns;
use crate::selection::{Selection, SelectionView};
use crate::wire::{
    generate_body, generate_body_text, generate_url, generate_url_text, opt_texts, tags_url,
    tags_url_text,
};

verus! {

pub open spec fn no_model_text() -> Seq<char> {
    "Nenhum modelo selecionado"@
}

pub open spec fn host_not_set_text() -> Seq<char> {
    "Host não foi definido"@
}

pub open spec fn parse_error_prefix() -> Seq<char> {
    "Erro ao analisar resposta: "@
}

/// The error shown when a chat is sent before any model was selected.
pub fn no_model_error() -> (r: String)
    ensures
        r@ == no_model_text(),
{
    String::from_str("Nenhum modelo selecionado")
}

/// The error shown when a server call needs a host and none is known.
pub fn host_not_set_error() -> (r: String)
    ensures
        r@ == host_not_set_text(),
{
    String::from_str("Host não foi definido")
}

/// A chat message from the user: the prompt and optional images, each
/// encoded as a string (base64).
pub struct ChatRequest {
    pub prompt: String,
    pub images: Option<Vec<String>>,
}

/// A generation request ready to be posted: where to, and its JSON body.
pub struct GenerateCall {
    pub url: String,
    pub body: String,
}

/// What a chat is sent as, from the selection held at the time: the model
/// must be selected first, then the host must be known.
pub open spec fn generate_plan(
    sel: SelectionView,
    prompt: Seq<char>,
    images: Option<Seq<Seq<char>>>,
) -> Result<(Seq<char>, Seq<char>), Seq<char>> {
    match sel.model {
        None => Err(no_model_text()),
        Some(model) => match sel.host {
            None => Err(host_not_set_text()),
            Some(host) => Ok(
                (generate_url_text(host), generate_body_text(model, prompt, images)),
            ),
        },
    }
}

pub open spec fn call_view(r: Result<GenerateCall, String>) -> Result<
    (Seq<char>, Seq<char>),
    Seq<char>,
> {
    match r {
        Ok(c) => Ok((c.url@, c.body@)),
        Err(e) => Err(e@),
    }
}

pub open spec fn text_result(r: Result<String, String>) -> Result<Seq<char>, Seq<char>> {
    match r {
        Ok(s) => Ok(s@),
        Err(e) => Err(e@),
    }
}

/// The host that a catalog request goes to, and the new selection: a given
/// host is stored first; without one the stored host is used.
pub open spec fn fetch_plan(sel: SelectionView, host: Option<Seq<char>>) -> (
    SelectionView,
    Result<Seq<char>, Seq<char>>,
) {
    match host {
        Some(h) => (sel.with_host(h), Ok(tags_url_text(h))),
        None => match sel.host {
            Some(h) => (sel, Ok(tags_url_text(h))),
            None => (sel, Err(host_not_set_text())),
        },
    }
}

/// A chat sent while no model is selected fails with the no-model error,
/// whether or not a host is known.
pub proof fn lemma_chat_needs_model(
    sel: SelectionView,
    prompt: Seq<char>,
    images: Option<Seq<Seq<char>>>,
)
    requires
        sel.model is None,
    ensures
        generate_plan(sel, prompt, images) == Err::<(Seq<char>, Seq<char>), Seq<char>>(
            no_model_text(),
        ),
{
}

/// Asking for the catalog without a host while none is stored fails with
/// the host-not-set error and leaves the selection as it was.
pub proof fn lemma_catalog_needs_host(sel: SelectionView)
    requires
        sel.host is None,
    ensures
        fetch_plan(sel, None) == (sel, Err::<Seq<char>, Seq<char>>(host_not_set_text())),
{
}

/// A host given to a catalog request is stored before the request goes
/// out, so it is the selected host whatever the network does afterwards;
/// the request goes to that host.
pub proof fn lemma_given_host_is_stored(sel: SelectionView, host: Seq<char>)
    ensures
        fetch_plan(sel, Some(host)).0.host == Some(host),
        fetch_plan(sel, Some(host)).0.model == sel.model,
        fetch_plan(sel, Some(host)).1 == Ok::<Seq<char>, Seq<char>>(tags_url_text(host)),
{
}

impl Selection {
    /// The generation request for `request` under the current selection.
    /// Fails without a selected model, and otherwise without a known host.
    pub fn prepare_generate(&self, request: &ChatRequest) -> (r: Result<GenerateCall, String>)
        ensures
            call_view(r) == generate_plan(self@, request.prompt@, opt_texts(request.images)),
    {
        let model = match self.get_selected_model() {
            Some(m) => m,
            None => return Err(no_model_error()),
        };
        let host = match self.get_selected_host() {
            Some(h) => h,
            None => return Err(host_not_set_error()),
        };
        let url = generate_url(host.as_str());
        let body = generate_body(model.as_str(), request.prompt.as_str(), &request.images);
        Ok(GenerateCall { url, body })
    }

    /// The catalog address for `host`, or for the stored host when `host` is
    /// absent. A given host is stored before anything else happens, so it
    /// stays selected whatever the request then meets.
    pub fn prepare_fetch_models(&mut self, host: Option<String>) -> (r: Result<String, String>)
        ensures
            (final(self)@, text_result(r)) == fetch_plan(
                old(self)@,
                crate::selection::opt_text(host),
            ),
    {
        let h = match host {
            Some(h) => h,
            None => match self.get_selected_host() {
                Some(h) => h,
                None => return Err(host_not_set_error()),
            },
        };
        let url = tags_url(h.as_str());
        self.set_selected_host(h);
        Ok(url)
    }
}

/// The reply to a chat from the decoded generation response: its text, or
/// the decoder's description of what was wrong after a fixed prefix.
pub fn generate_outcome(decoded: Result<String, String>) -> (r: Result<String, String>)
    ensures
        match decoded {
            Ok(text) => r matches Ok(t) && t@ == text@,
            Err(why) => r matches Err(e) && e@ == parse_error_prefix() + why@,
        },
{
    match decoded {
        Ok(text) => Ok(text),
        Err(why) => {
            let mut e = String::from_str("Erro ao analisar resposta: ");
            e.append(why.as_str());
            Err(e)
        },
    }
}

} // verus!
