//! The address of the service and the key that opens it.
//!
//! The host keeps each key in an entity of its own, which it loads and reads.
//! Which entity is used, and for which address, is decided here. What only the
//! host can do comes in as a function.

use vstd::prelude::*;
use vstd::string::*;

use crate::settings::{OpenAiEditPredictionSettings, OPEN_AI_API_URL};

verus! {

/// The host's entity that holds an API key.
#[derive(Clone, Copy, Debug, PartialEq, Eq, Structural)]
pub struct ApiKeyEntity {
    pub id: u64,
}

/// What the host holds for edit predictions.
#[derive(Debug, PartialEq, Eq)]
pub struct App {
    /// The settings for this service, if there are any.
    pub open_ai: Option<OpenAiEditPredictionSettings>,
    /// The one entity that holds the service's key, once it was asked for.
    pub open_ai_api_key: Option<ApiKeyEntity>,
}

impl App {
    /// The address of the service.
    pub open spec fn api_url(self) -> Seq<char> {
        crate::settings::api_url_text(self.open_ai)
    }

    /// Whether `token` is the key's entity after `new_entity` was at hand to
    /// make one: the entity that there was, or else a new one made for the
    /// address of the service.
    pub open spec fn provides<N: FnOnce(String) -> ApiKeyEntity>(
        self,
        new_entity: N,
        token: ApiKeyEntity,
    ) -> bool {
        match self.open_ai_api_key {
            Some(entity) => token == entity,
            None => exists|url: String|
                url@ == self.api_url() && #[trigger] call_ensures(new_entity, (url,), token),
        }
    }

    /// Whether `new_entity` may be called where an entity is to be made: if none
    /// is held, and for the address of the service. Where one is held, or for
    /// another address, it need not stand a call.
    pub open spec fn may_make<N: FnOnce(String) -> ApiKeyEntity>(self, new_entity: N) -> bool {
        self.open_ai_api_key is None ==> forall|url: String|
            url@ == self.api_url() ==> #[trigger] call_requires(new_entity, (url,))
    }

    /// Whether `load` may be called where a key is to be loaded: into the key's
    /// entity, and for the address of the service. Elsewhere it need not stand a
    /// call.
    pub open spec fn may_load<
        N: FnOnce(String) -> ApiKeyEntity,
        L: FnOnce(ApiKeyEntity, String) -> T,
        T,
    >(self, new_entity: N, load: L) -> bool {
        forall|token: ApiKeyEntity, url: String|
            url@ == self.api_url() && self.provides(new_entity, token) ==> #[trigger] call_requires(
                load,
                (token, url),
            )
    }

    /// Whether `key` may be called where a key is to be read: from an entity
    /// that `load` was called with, and for the address of the service. Before
    /// that call it need not stand one.
    pub open spec fn may_read<
        L: FnOnce(ApiKeyEntity, String) -> T,
        T,
        K: FnOnce(ApiKeyEntity, String) -> Option<String>,
    >(self, load: L, key: K) -> bool {
        forall|token: ApiKeyEntity, loaded: String, task: T, url: String|
            #![trigger call_ensures(load, (token, loaded), task), call_requires(key, (token, url))]
            loaded@ == self.api_url() && url@ == self.api_url() && call_ensures(
                load,
                (token, loaded),
                task,
            ) ==> call_requires(key, (token, url))
    }
}

/// The address of the service: that of the settings, or the usual one where
/// there are none.
pub fn open_ai_api_url(cx: &App) -> (url: String)
    ensures
        url@ == cx.api_url(),
{
    match &cx.open_ai {
        Some(settings) => settings.api_url.clone(),
        None => OPEN_AI_API_URL.to_string(),
    }
}

/// The entity that holds the service's key.
///
/// There is one for the whole application. The first call has `new_entity` make
/// it, once and for the address of the service; later calls find it and make
/// none.
pub fn open_ai_api_token<N: FnOnce(String) -> ApiKeyEntity>(cx: &mut App, new_entity: N) -> (token:
    ApiKeyEntity)
    requires
        old(cx).may_make(new_entity),
    ensures
        old(cx).provides(new_entity, token),
        final(cx).open_ai == old(cx).open_ai,
        final(cx).open_ai_api_key == Some(token),
{
    if let Some(entity) = cx.open_ai_api_key {
        return entity;
    }
    let entity = new_entity(open_ai_api_url(cx));
    cx.open_ai_api_key = Some(entity);
    entity
}

/// Has `load` load the service's key, once and for the address of the service,
/// into the entity that holds it.
pub fn load_open_ai_api_token<
    N: FnOnce(String) -> ApiKeyEntity,
    L: FnOnce(ApiKeyEntity, String) -> T,
    T,
>(cx: &mut App, new_entity: N, load: L) -> (task: T)
    requires
        old(cx).may_make(new_entity),
        old(cx).may_load(new_entity, load),
    ensures
        exists|token: ApiKeyEntity, url: String|
            {
                &&& #[trigger] call_ensures(load, (token, url), task)
                &&& url@ == old(cx).api_url()
                &&& old(cx).provides(new_entity, token)
                &&& final(cx).open_ai_api_key == Some(token)
            },
        final(cx).open_ai == old(cx).open_ai,
{
    let api_url = open_ai_api_url(cx);
    let token = open_ai_api_token(cx, new_entity);
    load(token, api_url)
}

/// The service's key, if it is at hand.
///
/// Has `load` begin to load it, and then has `key` read it, each once, from the
/// same entity and for the same address.
pub fn load_open_ai_api_key_if_needed<
    N: FnOnce(String) -> ApiKeyEntity,
    L: FnOnce(ApiKeyEntity, String) -> T,
    T,
    K: FnOnce(ApiKeyEntity, String) -> Option<String>,
>(cx: &mut App, new_entity: N, load: L, key: K) -> (api_key: Option<String>)
    requires
        old(cx).may_make(new_entity),
        old(cx).may_load(new_entity, load),
        old(cx).may_read(load, key),
    ensures
        final(cx).open_ai_api_key matches Some(token) && {
            &&& old(cx).provides(new_entity, token)
            &&& exists|url: String, task: T|
                url@ == old(cx).api_url() && #[trigger] call_ensures(load, (token, url), task)
            &&& exists|url: String|
                url@ == old(cx).api_url() && #[trigger] call_ensures(key, (token, url), api_key)
        },
        final(cx).open_ai == old(cx).open_ai,
{
    let _task = load_open_ai_api_token(cx, new_entity, load);
    let url = open_ai_api_url(cx);
    let token = cx.open_ai_api_key.unwrap();
    key(token, url)
}

} // verus!
