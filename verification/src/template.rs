//! Values gathered for a request, and the page rendered from them.
//!
//! Before a request is handled, every provider registered with a
//! [`TemplateConfig`] contributes one named value: what was extracted from
//! the request, or the provider's fallback where extraction failed. The
//! values go into one context, which is published in the request's
//! [`ContextCache`]. A [`Template`] later drains the cache, adds what the
//! handler supplied, and has the page rendered.
//!
//! The render engine is the caller's: it comes as a function from a
//! template's name and a context to the rendered text.

use crate::errors::{Status, STATUS_INTERNAL};
use crate::json::no_entries;
use serde_json::Value;
use vstd::prelude::*;

verus! {

/// `tera::Context`: the named values that a template is rendered with.
#[verifier::external_type_specification]
#[verifier::external_body]
pub struct ExContext(tera::Context);

/// `tera::Error`: why the engine gave no context or no text.
#[verifier::external_type_specification]
#[verifier::external_body]
pub struct ExRenderFault(tera::Error);

/// What a context holds: each name with its value.
pub uninterp spec fn context_entries(context: tera::Context) -> Map<Seq<char>, Value>;

/// `tera::Context::new`: a context that holds nothing.
#[verifier::external_body]
fn context_new() -> (context: tera::Context)
    ensures
        context_entries(context) == no_entries(),
{
    tera::Context::new()
}

/// `tera::Context::insert`: puts a copy of `value` under `key`, in place of
/// what was there. A JSON value always serializes to itself, so the call
/// does not panic.
#[verifier::external_body]
fn context_insert(context: &mut tera::Context, key: &str, value: &Value)
    ensures
        context_entries(*final(context)) == context_entries(*old(context)).insert(key@, *value),
{
    context.insert(key, value)
}

/// `tera::Context::extend`: adds every entry of `source`; where both hold a
/// name, the value of `source` stays.
#[verifier::external_body]
fn context_extend(context: &mut tera::Context, source: tera::Context)
    ensures
        context_entries(*final(context)) == context_entries(*old(context)).union_prefer_right(
            context_entries(source),
        ),
{
    context.extend(source)
}

/// The value that a provider contributes: what was extracted, or its
/// fallback where nothing was.
pub open spec fn resolved(fallback: Value, extracted: Option<Value>) -> Value {
    match extracted {
        Some(value) => value,
        None => fallback,
    }
}

/// What was extracted for the provider at `index`. A provider for which no
/// outcome is given counts as one whose extraction failed.
pub open spec fn outcome_at(outcomes: Seq<Option<Value>>, index: int) -> Option<Value> {
    if 0 <= index < outcomes.len() {
        outcomes[index]
    } else {
        None
    }
}

/// The context gathered from the first `count` providers, in the order of
/// their registration: each puts its value under its name, over what an
/// earlier provider of the same name put there.
pub open spec fn aggregate(
    providers: Seq<(Seq<char>, Value)>,
    outcomes: Seq<Option<Value>>,
    count: nat,
) -> Map<Seq<char>, Value>
    decreases count,
{
    if count == 0 {
        no_entries()
    } else {
        let last = (count - 1) as nat;
        aggregate(providers, outcomes, last).insert(
            providers[last as int].0,
            resolved(providers[last as int].1, outcome_at(outcomes, last as int)),
        )
    }
}

/// What lies in a cache slot after a drain, and what the drain hands out.
pub open spec fn drained(slot: Option<Map<Seq<char>, Value>>) -> (
    Option<Map<Seq<char>, Value>>,
    Option<Map<Seq<char>, Value>>,
) {
    (None, slot)
}

/// Why no page was rendered. To the client each is an internal fault; the
/// cause is kept for the server's log.
#[derive(Debug)]
pub enum PageFault {
    /// The server has no render engine.
    EngineMissing,
    /// The request's cache held no context: none was published, or it was
    /// drained before.
    ContextAbsent,
    /// What the handler supplied could not be made a context.
    MergeFailed(tera::Error),
    /// The engine could not render the template.
    RenderFailed(tera::Error),
}

/// The entries to render, or why there are none: the cached entries with
/// the handler's entries over them. The engine is asked for first, then the
/// cache, then the handler's data.
pub open spec fn prepared(
    has_engine: bool,
    cached: Option<Map<Seq<char>, Value>>,
    supplied: Result<Map<Seq<char>, Value>, tera::Error>,
) -> Result<Map<Seq<char>, Value>, PageFault> {
    if !has_engine {
        Err(PageFault::EngineMissing)
    } else {
        match cached {
            None => Err(PageFault::ContextAbsent),
            Some(cached) => match supplied {
                Err(cause) => Err(PageFault::MergeFailed(cause)),
                Ok(supplied) => Ok(cached.union_prefer_right(supplied)),
            },
        }
    }
}

/// What the handler offers for a page: the entries of its context, or why
/// its data could not be made one.
pub open spec fn offered(context: Result<tera::Context, tera::Error>) -> Result<
    Map<Seq<char>, Value>,
    tera::Error,
> {
    match context {
        Ok(context) => Ok(context_entries(context)),
        Err(cause) => Err(cause),
    }
}

/// What a context that may be missing holds.
pub open spec fn entries_of(context: Option<tera::Context>) -> Option<Map<Seq<char>, Value>> {
    match context {
        Some(context) => Some(context_entries(context)),
        None => None,
    }
}

/// A registered provider: the name its value goes under, and the value to
/// use where extraction fails.
struct Provider {
    name: String,
    fallback: Value,
}

/// The providers of a server, in the order of their registration, and the
/// place its templates are loaded from.
pub struct TemplateConfig {
    registry: Vec<Provider>,
    dir: String,
}

impl TemplateConfig {
    /// The registered providers, each as its name and its fallback.
    pub closed spec fn providers(&self) -> Seq<(Seq<char>, Value)> {
        Seq::new(
            self.registry@.len(),
            |i: int| (self.registry@[i].name@, self.registry@[i].fallback),
        )
    }

    /// Where the templates are loaded from.
    pub closed spec fn dir(&self) -> Seq<char> {
        self.dir@
    }

    /// A configuration without providers.
    pub fn new(dir: &str) -> (config: Self)
        ensures
            config.providers() == Seq::<(Seq<char>, Value)>::empty(),
            config.dir() == dir@,
    {
        Self { registry: Vec::new(), dir: dir.to_owned() }
    }

    /// Registers one more provider, after those already there.
    pub fn register(self, name: &str, fallback: Value) -> (config: Self)
        ensures
            config.providers() == self.providers().push((name@, fallback)),
            config.dir() == self.dir(),
    {
        let mut config = self;
        config.registry.push(Provider { name: name.to_owned(), fallback });
        assert(config.providers() =~= self.providers().push((name@, fallback)));
        config
    }

    /// The number of registered providers.
    pub fn len(&self) -> (count: usize)
        ensures
            count == self.providers().len(),
    {
        self.registry.len()
    }

    /// The name of the provider at `index`.
    pub fn name(&self, index: usize) -> (name: &str)
        requires
            index < self.providers().len(),
        ensures
            name@ == self.providers()[index as int].0,
    {
        self.registry[index].name.as_str()
    }

    /// The place the templates are loaded from.
    pub fn template_dir(&self) -> (dir: &str)
        ensures
            dir@ == self.dir(),
    {
        self.dir.as_str()
    }

    /// Gathers the context for one request and publishes it in the
    /// request's cache, over what the cache held.
    pub fn on_request(&self, outcomes: &Vec<Option<Value>>, cache: &mut ContextCache)
        ensures
            final(cache).held() == Some(
                aggregate(self.providers(), outcomes@, self.providers().len()),
            ),
    {
        cache.publish(self.run(outcomes));
    }

    /// Gathers the context for one request. `outcomes` holds, for each
    /// provider in the order of registration, what was extracted from the
    /// request, or `None` where extraction failed.
    pub fn run(&self, outcomes: &Vec<Option<Value>>) -> (context: tera::Context)
        ensures
            context_entries(context) == aggregate(
                self.providers(),
                outcomes@,
                self.providers().len(),
            ),
    {
        let mut context = context_new();
        let mut i: usize = 0;
        while i < self.registry.len()
            invariant
                i <= self.registry.len(),
                context_entries(context) == aggregate(self.providers(), outcomes@, i as nat),
            decreases self.registry.len() - i,
        {
            let provider = &self.registry[i];
            if i < outcomes.len() {
                match &outcomes[i] {
                    Some(value) => context_insert(&mut context, provider.name.as_str(), value),
                    None => context_insert(
                        &mut context,
                        provider.name.as_str(),
                        &provider.fallback,
                    ),
                }
            } else {
                context_insert(&mut context, provider.name.as_str(), &provider.fallback);
            }
            i += 1;
        }
        context
    }
}

/// The slot of one request: it holds the gathered context from the moment it
/// is published until it is drained.
pub struct ContextCache {
    slot: Option<tera::Context>,
}

impl ContextCache {
    /// What the slot holds.
    pub closed spec fn held(&self) -> Option<Map<Seq<char>, Value>> {
        entries_of(self.slot)
    }

    /// An empty slot.
    pub fn new() -> (cache: Self)
        ensures
            cache.held() is None,
    {
        Self { slot: None }
    }

    /// Stores the context, in place of one stored before.
    pub fn publish(&mut self, context: tera::Context)
        ensures
            final(self).held() == Some(context_entries(context)),
    {
        self.slot = Some(context);
    }

    /// Takes the context out of the slot, which is empty afterwards.
    pub fn drain(&mut self) -> (context: Option<tera::Context>)
        ensures
            (final(self).held(), entries_of(context)) == drained(old(self).held()),
    {
        self.slot.take()
    }
}

/// What kind of text a page is.
#[derive(Debug, Clone, Copy, PartialEq, Eq, Structural)]
pub enum ContentType {
    HTML,
}

/// A rendered page.
#[derive(Debug, Clone, PartialEq, Eq)]
pub struct Rendered {
    pub content_type: ContentType,
    pub body: String,
}

/// The page for what the engine gave: its text as HTML, or the engine's
/// error as the cause of a fault.
pub open spec fn page_of(rendered: Result<String, tera::Error>) -> Result<Rendered, PageFault> {
    match rendered {
        Ok(body) => Ok(Rendered { content_type: ContentType::HTML, body }),
        Err(cause) => Err(PageFault::RenderFailed(cause)),
    }
}

impl PageFault {
    /// The status that the client sees: an internal fault, whatever the
    /// cause.
    pub fn status(&self) -> (status: Status)
        ensures
            status == (Status { code: STATUS_INTERNAL }),
    {
        Status::new(STATUS_INTERNAL)
    }
}

/// A page to be rendered: the template's name and what the handler supplies
/// for it.
pub struct Template {
    path: String,
    context: Result<tera::Context, tera::Error>,
}

impl Template {
    /// The name of the template.
    pub closed spec fn path(&self) -> Seq<char> {
        self.path@
    }

    /// What the handler supplied: the entries of its context, or why its
    /// data could not be made one.
    pub closed spec fn supplied(&self) -> Result<Map<Seq<char>, Value>, tera::Error> {
        offered(self.context)
    }

    /// A page of the template `path` with the handler's data, which arrives
    /// as the outcome of making a context of it.
    pub fn render(path: &str, context: Result<tera::Context, tera::Error>) -> (template: Self)
        ensures
            template.path() == path@,
            template.supplied() == offered(context),
    {
        Self { path: path.to_owned(), context }
    }

    /// The cached context with the handler's entries added; where both hold
    /// a name, the handler's value stays.
    pub fn merge(cached: tera::Context, supplied: tera::Context) -> (context: tera::Context)
        ensures
            context_entries(context) == context_entries(cached).union_prefer_right(
                context_entries(supplied),
            ),
    {
        let mut context = cached;
        context_extend(&mut context, supplied);
        context
    }

    /// The page for what the engine gave.
    pub fn page(rendered: Result<String, tera::Error>) -> (outcome: Result<Rendered, PageFault>)
        ensures
            outcome == page_of(rendered),
    {
        match rendered {
            Ok(body) => Ok(Rendered { content_type: ContentType::HTML, body }),
            Err(cause) => Err(PageFault::RenderFailed(cause)),
        }
    }

    /// Drains the cache and makes the context to render. Without an engine
    /// nothing is done and the cache stays as it is. With one the cache is
    /// drained, whatever comes of it; an empty cache and handler data that
    /// could not be made a context are faults.
    pub fn prepare(self, cache: &mut ContextCache, has_engine: bool) -> (outcome: Result<
        (String, tera::Context),
        PageFault,
    >)
        ensures
            final(cache).held() == if has_engine {
                None
            } else {
                old(cache).held()
            },
            match prepared(has_engine, old(cache).held(), self.supplied()) {
                Ok(entries) => outcome matches Ok((path, context)) && path@ == self.path()
                    && context_entries(context) == entries,
                Err(fault) => outcome == Err::<(String, tera::Context), PageFault>(fault),
            },
    {
        if !has_engine {
            return Err(PageFault::EngineMissing);
        }
        let cached = match cache.drain() {
            Some(cached) => cached,
            None => {
                return Err(PageFault::ContextAbsent);
            },
        };
        match self.context {
            Ok(supplied) => Ok((self.path, Self::merge(cached, supplied))),
            Err(cause) => Err(PageFault::MergeFailed(cause)),
        }
    }

    /// Renders the page from the request's context and the handler's data.
    /// `render` is the engine, if the server has one: it is handed the
    /// template's name and the merged context, once, and only where there
    /// is something to render. Its text is the page, its error the fault.
    /// Where there is nothing to render, the fault says why. A page is
    /// rendered only from a context that was published, and with an engine
    /// the cache is empty afterwards.
    pub fn respond_to<F: FnOnce(String, tera::Context) -> Result<String, tera::Error>>(
        self,
        cache: &mut ContextCache,
        render: Option<F>,
    ) -> (outcome: Result<Rendered, PageFault>)
        requires
            render matches Some(engine) ==> forall|path: String, context: tera::Context|
                engine.requires((path, context)),
        ensures
            final(cache).held() == if render is Some {
                None
            } else {
                old(cache).held()
            },
            match prepared(render is Some, old(cache).held(), self.supplied()) {
                Ok(entries) => exists|
                    path: String,
                    context: tera::Context,
                    rendered: Result<String, tera::Error>,
                |
                    {
                        &&& path@ == self.path()
                        &&& context_entries(context) == entries
                        &&& #[trigger] render->0.ensures((path, context), rendered)
                        &&& outcome == page_of(rendered)
                    },
                Err(fault) => outcome == Err::<Rendered, PageFault>(fault),
            },
            old(cache).held() is None ==> outcome is Err,
    {
        match render {
            None => match self.prepare(cache, false) {
                Ok(_) => unreached(),
                Err(fault) => Err(fault),
            },
            Some(engine) => match self.prepare(cache, true) {
                Ok((path, context)) => {
                    let rendered = engine(path, context);
                    Self::page(rendered)
                },
                Err(fault) => Err(fault),
            },
        }
    }
}

/// Nothing is rendered for a request whose cache holds no context, whether
/// none was published or it was drained before.
pub proof fn lemma_no_page_without_context(
    has_engine: bool,
    supplied: Result<Map<Seq<char>, Value>, tera::Error>,
)
    ensures
        prepared(has_engine, None, supplied) is Err,
        prepared(has_engine, drained(None).0, supplied) is Err,
{
}

/// Draining twice: the first drain hands out what was published, the second
/// finds the slot empty.
pub proof fn lemma_drain_once(slot: Option<Map<Seq<char>, Value>>)
    ensures
        drained(slot).1 == slot,
        drained(drained(slot).0).1 is None,
{
}

/// Of the providers registered under one name, the last decides the value:
/// the context holds that name once, with the value of the provider at
/// `index`, if no later provider has its name.
pub proof fn lemma_last_registration_wins(
    providers: Seq<(Seq<char>, Value)>,
    outcomes: Seq<Option<Value>>,
    count: nat,
    index: int,
)
    requires
        0 <= index < count <= providers.len(),
        forall|later: int| index < later < count ==> providers[later].0 != providers[index].0,
    ensures
        aggregate(providers, outcomes, count).contains_key(providers[index].0),
        aggregate(providers, outcomes, count)[providers[index].0] == resolved(
            providers[index].1,
            outcome_at(outcomes, index),
        ),
    decreases count,
{
    if index < count - 1 {
        lemma_last_registration_wins(providers, outcomes, (count - 1) as nat, index);
    }
}

/// A provider whose extraction failed contributes its fallback.
pub proof fn lemma_failure_gives_fallback(
    providers: Seq<(Seq<char>, Value)>,
    outcomes: Seq<Option<Value>>,
    index: int,
)
    requires
        0 <= index < providers.len(),
        outcome_at(outcomes, index) is None,
        forall|later: int|
            index < later < providers.len() ==> providers[later].0 != providers[index].0,
    ensures
        aggregate(providers, outcomes, providers.len())[providers[index].0]
            == providers[index].1,
{
    lemma_last_registration_wins(providers, outcomes, providers.len(), index);
}

/// What one provider extracts touches no name but its own: two runs that
/// differ only in the outcome of the provider at `index` gather the same
/// names, and the same value under every name but that provider's.
pub proof fn lemma_outcome_is_local(
    providers: Seq<(Seq<char>, Value)>,
    first: Seq<Option<Value>>,
    second: Seq<Option<Value>>,
    count: nat,
    index: int,
    name: Seq<char>,
)
    requires
        count <= providers.len(),
        0 <= index < providers.len(),
        forall|other: int|
            0 <= other < providers.len() && other != index ==> outcome_at(first, other)
                == outcome_at(second, other),
    ensures
        aggregate(providers, first, count).dom() == aggregate(providers, second, count).dom(),
        name != providers[index].0 ==> aggregate(providers, first, count).contains_key(name)
            ==> aggregate(providers, first, count)[name] == aggregate(
            providers,
            second,
            count,
        )[name],
    decreases count,
{
    if count > 0 {
        lemma_outcome_is_local(providers, first, second, (count - 1) as nat, index, name);
    }
}

/// The gathered context holds the registered names and no other: a name is
/// a key of it exactly if a provider was registered under it.
pub proof fn lemma_names_are_the_keys(
    providers: Seq<(Seq<char>, Value)>,
    outcomes: Seq<Option<Value>>,
    count: nat,
    name: Seq<char>,
)
    requires
        count <= providers.len(),
    ensures
        aggregate(providers, outcomes, count).contains_key(name) <==> exists|index: int|
            0 <= index < count && (#[trigger] providers[index]).0 == name,
    decreases count,
{
    if count > 0 {
        let last = (count - 1) as nat;
        lemma_names_are_the_keys(providers, outcomes, last, name);
        if aggregate(providers, outcomes, last).contains_key(name) {
            let index = choose|index: int|
                0 <= index < last && (#[trigger] providers[index]).0 == name;
            assert(0 <= index < count && providers[index].0 == name);
        } else if providers[last as int].0 == name {
            assert(0 <= last < count && providers[last as int].0 == name);
        }
    }
}

} // verus!
