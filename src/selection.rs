use vstd::prelude::*;

verus! {

/// The value of an optional string, as a sequence of characters.
pub open spec fn opt_text(o: Option<String>) -> Option<Seq<char>> {
    match o {
        Some(s) => Some(s@),
        None => None,
    }
}

/// What a `Selection` holds: the selected host and the selected model.
pub struct SelectionView {
    pub host: Option<Seq<char>>,
    pub model: Option<Seq<char>>,
}

impl SelectionView {
    pub open spec fn with_model(self, model: Seq<char>) -> SelectionView {
        SelectionView { host: self.host, model: Some(model) }
    }

    pub open spec fn with_host(self, host: Seq<char>) -> SelectionView {
        SelectionView { host: Some(host), model: self.model }
    }

    /// The selection after selecting each model of `models` in turn.
    pub open spec fn after_models(self, models: Seq<Seq<char>>) -> SelectionView
        decreases models.len(),
    {
        if models.len() == 0 {
            self
        } else {
            self.after_models(models.drop_last()).with_model(models.last())
        }
    }
}

/// The host and model that the client currently works with. Each is absent
/// until first set and is then only ever overwritten.
pub struct Selection {
    host: Option<String>,
    model: Option<String>,
}

impl View for Selection {
    type V = SelectionView;

    closed spec fn view(&self) -> SelectionView {
        SelectionView { host: opt_text(self.host), model: opt_text(self.model) }
    }
}

impl Selection {
    /// A selection with neither host nor model.
    pub fn new() -> (r: Selection)
        ensures
            r@.host is None,
            r@.model is None,
    {
        Selection { host: None, model: None }
    }

    /// Selects `model`, replacing any earlier choice; the host is kept.
    pub fn set_selected_model(&mut self, model: String)
        ensures
            final(self)@ == old(self)@.with_model(model@),
    {
        self.model = Some(model);
    }

    /// The model selected last, if any.
    pub fn get_selected_model(&self) -> (r: Option<String>)
        ensures
            opt_text(r) == self@.model,
    {
        match &self.model {
            Some(m) => Some(m.clone()),
            None => None,
        }
    }

    /// Makes `host` the selected host; the model is kept.
    pub fn set_selected_host(&mut self, host: String)
        ensures
            final(self)@ == old(self)@.with_host(host@),
    {
        self.host = Some(host);
    }

    /// The host stored last, if any.
    pub fn get_selected_host(&self) -> (r: Option<String>)
        ensures
            opt_text(r) == self@.host,
    {
        match &self.host {
            Some(h) => Some(h.clone()),
            None => None,
        }
    }
}

/// After any non-empty run of model selections, the selected model is the
/// last one chosen, and the host is untouched.
pub proof fn lemma_last_selected_model_wins(start: SelectionView, models: Seq<Seq<char>>)
    requires
        models.len() > 0,
    ensures
        start.after_models(models).model == Some(models.last()),
        start.after_models(models).host == start.host,
{
    lemma_models_keep_host(start, models);
}

/// Selecting models never changes the selected host.
pub proof fn lemma_models_keep_host(start: SelectionView, models: Seq<Seq<char>>)
    ensures
        start.after_models(models).host == start.host,
    decreases models.len(),
{
    if models.len() > 0 {
        lemma_models_keep_host(start, models.drop_last());
    }
}

} // verus!
