//! Gemini provider bookkeeping: which provider a switch selects, whose live
//! configuration is backfilled first, in which order a stored common-config
//! snippet is migrated out of the provider snapshots, what the live write
//! does, and how the incoming `settings.json` configuration is built.
//!
//! Reading and writing the live files, and the common-config and
//! live-merge machinery, belong to the caller; providers are identified by
//! their index in the manager's provider list.

use vstd::prelude::*;
use crate::json::{
    key_index, attach_value, detach_object, entries_set, find_key, lemma_key_index_sound, lemma_set_then_get,
    object_child, set_entry, str_eq, value_at_key, ChildSlot, Entries, Json,
};
use crate::text::{trim, trim_str};

verus! {

/// How a Gemini provider authenticates.
#[derive(Debug, Clone, Copy, PartialEq, Eq, Structural)]
pub enum GeminiAuthType {
    GoogleOfficial,
    ApiKey,
}

/// The `security.auth.selectedType` value Gemini CLI uses for an
/// authentication kind.
pub fn gemini_security_selected_type(auth_type: GeminiAuthType) -> (s: &'static str)
    ensures
        s@ == (match auth_type {
            GeminiAuthType::GoogleOfficial => "oauth-personal"@,
            GeminiAuthType::ApiKey => "gemini-api-key"@,
        }),
{
    match auth_type {
        GeminiAuthType::GoogleOfficial => "oauth-personal",
        GeminiAuthType::ApiKey => "gemini-api-key",
    }
}

/// Why the provider configuration cannot be written to `settings.json`.
#[derive(Debug, Clone, Copy, PartialEq, Eq, Structural)]
pub enum GeminiConfigError {
    /// `config` is neither an object nor null.
    InvalidConfig,
    /// `config.security` is not an object.
    InvalidSecurity,
    /// `config.security.auth` is not an object.
    InvalidSecurityAuth,
}

/// The entries of the provider's `config` object: empty when it is absent
/// or null.
pub open spec fn config_base(content: Json) -> Result<Seq<(String, Json)>, GeminiConfigError> {
    let config = match content {
        Json::Object(e) => value_at_key(e@, "config"@),
        _ => None,
    };
    match config {
        None => Ok(Seq::empty()),
        Some(Json::Null) => Ok(Seq::empty()),
        Some(Json::Object(v)) => Ok(v@),
        Some(_) => Err(GeminiConfigError::InvalidConfig),
    }
}

/// `out` is `base` with `security.auth.selectedType` set to `selected`,
/// creating `security` and `auth` (from `security` and `auth`, the objects
/// found there before) when they were missing.
pub open spec fn security_auth_set(
    base: Seq<(String, Json)>,
    security: Seq<(String, Json)>,
    auth: Seq<(String, Json)>,
    selected: Seq<char>,
    out: Json,
) -> bool {
    &&& out matches Json::Object(b2)
    &&& value_at_key(b2@, "security"@) matches Some(Json::Object(s2))
    &&& entries_set(base, "security"@, Json::Object(s2), b2@)
    &&& value_at_key(s2@, "auth"@) matches Some(Json::Object(a2))
    &&& entries_set(security, "auth"@, Json::Object(a2), s2@)
    &&& value_at_key(a2@, "selectedType"@) matches Some(Json::Str(t))
    &&& t@ == selected
    &&& entries_set(auth, "selectedType"@, Json::Str(t), a2@)
}

/// The incoming `settings.json` configuration for a provider whose live
/// snapshot is `content`: its `config` object (or `{}` when absent or null)
/// with `security.auth.selectedType` set for the authentication kind.
pub open spec fn spec_incoming_config_ok(content: Json, selected: Seq<char>, out: Json) -> bool {
    match config_base(content) {
        Ok(base) => match object_child(base, "security"@) {
            Ok(security) => match object_child(security, "auth"@) {
                Ok(auth) => security_auth_set(base, security, auth, selected, out),
                Err(_) => false,
            },
            Err(_) => false,
        },
        Err(_) => false,
    }
}

/// The error building the incoming configuration gives, if any.
pub open spec fn spec_incoming_config_error(content: Json) -> Option<GeminiConfigError> {
    match config_base(content) {
        Err(e) => Some(e),
        Ok(base) => match object_child(base, "security"@) {
            Err(_) => Some(GeminiConfigError::InvalidSecurity),
            Ok(security) => match object_child(security, "auth"@) {
                Err(_) => Some(GeminiConfigError::InvalidSecurityAuth),
                Ok(_) => None,
            },
        },
    }
}

proof fn lemma_remove_insert(s: Seq<(String, Json)>, i: int, x: (String, Json))
    requires
        0 <= i < s.len(),
    ensures
        s.remove(i).insert(i, x) == s.update(i, x),
{
    assert(s.remove(i).insert(i, x) =~= s.update(i, x));
}

/// Re-attaching a detached child object is setting its key.
proof fn lemma_attach_is_set(
    old: Seq<(String, Json)>,
    key: Seq<char>,
    slot: Option<ChildSlot>,
    removed: Seq<(String, Json)>,
    value: Json,
    new: Seq<(String, Json)>,
)
    requires
        match slot {
            Some(s) => key_index_is(old, key, s.index as int) && s.key == old[s.index as int].0
                && removed == old.remove(s.index as int) && new == removed.insert(
                s.index as int,
                (s.key, value),
            ),
            None => key_index(old, key) is None && removed == old && new
                == removed.push((new.last().0, value)) && new.last().0@ == key,
        },
    ensures
        entries_set(old, key, value, new),
{
    match slot {
        Some(s) => {
            lemma_remove_insert(old, s.index as int, (s.key, value));
        },
        None => {
            assert(new.drop_last() =~= old);
        },
    }
}

pub open spec fn key_index_is(e: Seq<(String, Json)>, key: Seq<char>, i: int) -> bool {
    key_index(e, key) == Some(i) && 0 <= i < e.len()
}

/// Builds the incoming `settings.json` configuration from the provider's
/// effective live snapshot.
pub fn build_incoming_gemini_config(content: Json, auth_type: GeminiAuthType) -> (r: Result<
    Json,
    GeminiConfigError,
>)
    ensures
        match spec_incoming_config_error(content) {
            Some(e) => r == Err::<Json, GeminiConfigError>(e),
            None => r matches Ok(out) && spec_incoming_config_ok(
                content,
                match auth_type {
                    GeminiAuthType::GoogleOfficial => "oauth-personal"@,
                    GeminiAuthType::ApiKey => "gemini-api-key"@,
                },
                out,
            ),
        },
{
    let ghost content0 = content;
    let mut base: Entries = match content {
        Json::Object(mut entries) => {
            let found = find_key(&entries, "config");
            match found {
                None => Vec::new(),
                Some(i) => {
                    proof {
                        lemma_key_index_sound(entries@, "config"@);
                    }
                    let (_k, v) = entries.remove(i);
                    match v {
                        Json::Null => Vec::new(),
                        Json::Object(m) => m,
                        _ => {
                            return Err(GeminiConfigError::InvalidConfig);
                        },
                    }
                },
            }
        },
        _ => Vec::new(),
    };
    assert(config_base(content0) == Ok::<Seq<(String, Json)>, GeminiConfigError>(base@));
    let ghost base0 = base@;
    let (sec_slot, mut security) = match detach_object(&mut base, "security") {
        Ok(x) => x,
        Err(()) => {
            return Err(GeminiConfigError::InvalidSecurity);
        },
    };
    let ghost base_removed = base@;
    let ghost security0 = security@;
    let (auth_slot, mut auth) = match detach_object(&mut security, "auth") {
        Ok(x) => x,
        Err(()) => {
            return Err(GeminiConfigError::InvalidSecurityAuth);
        },
    };
    let ghost security_removed = security@;
    let ghost auth0 = auth@;
    let selected = gemini_security_selected_type(auth_type);
    let value = Json::Str(selected.to_owned());
    let ghost selected_value = value;
    set_entry(&mut auth, "selectedType", value);
    attach_value(&mut security, auth_slot, "auth", Json::Object(auth));
    let ghost auth_obj = Json::Object(auth);
    proof {
        lemma_attach_is_set(security0, "auth"@, auth_slot, security_removed, auth_obj, security@);
        lemma_set_then_get(security0, "auth"@, auth_obj, security@);
        lemma_set_then_get(auth0, "selectedType"@, selected_value, auth@);
    }
    attach_value(&mut base, sec_slot, "security", Json::Object(security));
    proof {
        lemma_attach_is_set(base0, "security"@, sec_slot, base_removed, Json::Object(security), base@);
        lemma_set_then_get(base0, "security"@, Json::Object(security), base@);
    }
    Ok(Json::Object(base))
}

/// Keys a Google-official login must not inherit from the local `.env`.
pub open spec fn is_official_excluded_key(key: Seq<char>) -> bool {
    ||| key == "GEMINI_API_KEY"@
    ||| key == "GOOGLE_GEMINI_BASE_URL"@
    ||| key == "GEMINI_BASE_URL"@
    ||| key == "GEMINI_MODEL"@
}

fn official_excluded_key(key: &str) -> (b: bool)
    ensures
        b == is_official_excluded_key(key@),
{
    str_eq(key, "GEMINI_API_KEY") || str_eq(key, "GOOGLE_GEMINI_BASE_URL") || str_eq(
        key,
        "GEMINI_BASE_URL",
    ) || str_eq(key, "GEMINI_MODEL")
}

/// `env` without the entries whose key is excluded for a Google-official
/// login, in order.
pub open spec fn without_excluded_keys(env: Seq<(String, String)>) -> Seq<(String, String)>
    decreases env.len(),
{
    if env.len() == 0 {
        env
    } else {
        let rest = without_excluded_keys(env.drop_last());
        if is_official_excluded_key(env.last().0@) {
            rest
        } else {
            rest.push(env.last())
        }
    }
}

/// The local `.env` entries the merge keeps: for a Google-official login
/// the API key, base URLs and model are dropped; an API-key provider keeps
/// them all.
pub fn strip_official_env_keys(env: Vec<(String, String)>, auth_type: GeminiAuthType) -> (r: Vec<
    (String, String),
>)
    ensures
        auth_type == GeminiAuthType::ApiKey ==> r@ == env@,
        auth_type == GeminiAuthType::GoogleOfficial ==> r@ == without_excluded_keys(env@),
{
    if auth_type == GeminiAuthType::ApiKey {
        return env;
    }
    let ghost env0 = env@;
    let mut kept: Vec<(String, String)> = Vec::new();
    let rest = env;
    let n = rest.len();
    let mut i: usize = 0;
    while i < n
        invariant
            n == env0.len(),
            i <= n,
            rest@ == env0,
            kept@ == without_excluded_keys(env0.subrange(0, i as int)),
        decreases n - i,
    {
        let ghost prefix = env0.subrange(0, i + 1);
        assert(prefix.drop_last() =~= env0.subrange(0, i as int));
        assert(prefix.last() == env0[i as int]);
        if !official_excluded_key(rest[i].0.as_str()) {
            let entry = (rest[i].0.clone(), rest[i].1.clone());
            kept.push(entry);
        }
        i = i + 1;
    }
    assert(env0.subrange(0, n as int) =~= env0);
    kept
}

/// What a live write of a Gemini provider does.
#[derive(Debug, Clone, Copy, PartialEq, Eq, Structural)]
pub enum GeminiLiveWrite {
    /// Merge and write `.env` and `settings.json`, then the security flag.
    Files { auth_type: GeminiAuthType },
    /// Live sync is off: only make sure the security flag is set.
    SecurityFlag { auth_type: GeminiAuthType },
}

/// Live files are written when the write is forced or live sync is on.
pub fn gemini_live_write_mode(force_sync: bool, should_sync_live: bool, auth_type: GeminiAuthType) -> (w:
    GeminiLiveWrite)
    ensures
        w == (if !force_sync && !should_sync_live {
            GeminiLiveWrite::SecurityFlag { auth_type }
        } else {
            GeminiLiveWrite::Files { auth_type }
        }),
{
    if !force_sync && !should_sync_live {
        GeminiLiveWrite::SecurityFlag { auth_type }
    } else {
        GeminiLiveWrite::Files { auth_type }
    }
}

/// The incoming `.env` of an API-key provider comes from its settings;
/// a Google-official login brings none.
pub fn gemini_incoming_env_from_settings(auth_type: GeminiAuthType) -> (b: bool)
    ensures
        b == (auth_type == GeminiAuthType::ApiKey),
{
    match auth_type {
        GeminiAuthType::GoogleOfficial => false,
        GeminiAuthType::ApiKey => true,
    }
}

/// The steps of applying a prepared live write.
#[derive(Debug, Clone, Copy, PartialEq, Eq, Structural)]
pub struct GeminiApplySteps {
    /// Write the merged `.env` and `settings.json`.
    pub write_files: bool,
    /// Ensure the app's security flag for this authentication kind.
    pub security_flag: Option<GeminiAuthType>,
}

/// Applying a write: the files when they were prepared, and the security
/// flag in every case; nothing for a write that is not Gemini's.
pub fn apply_gemini_live_write_steps(prepared: Option<GeminiLiveWrite>) -> (s: GeminiApplySteps)
    ensures
        s == (match prepared {
            Some(GeminiLiveWrite::Files { auth_type }) => GeminiApplySteps {
                write_files: true,
                security_flag: Some(auth_type),
            },
            Some(GeminiLiveWrite::SecurityFlag { auth_type }) => GeminiApplySteps {
                write_files: false,
                security_flag: Some(auth_type),
            },
            None => GeminiApplySteps { write_files: false, security_flag: None },
        }),
{
    match prepared {
        Some(GeminiLiveWrite::Files { auth_type }) => GeminiApplySteps {
            write_files: true,
            security_flag: Some(auth_type),
        },
        Some(GeminiLiveWrite::SecurityFlag { auth_type }) => GeminiApplySteps {
            write_files: false,
            security_flag: Some(auth_type),
        },
        None => GeminiApplySteps { write_files: false, security_flag: None },
    }
}

/// The providers of the Gemini app: their ids in the manager's order, and
/// the current one.
#[derive(Debug, Clone)]
pub struct ProviderManager {
    pub provider_ids: Vec<String>,
    pub current: String,
}

/// `id` is the `i`-th provider and none before it has that id.
pub open spec fn provider_at(ids: Seq<String>, id: Seq<char>, i: int) -> bool {
    &&& 0 <= i < ids.len()
    &&& ids[i]@ == id
    &&& forall|j: int| 0 <= j < i ==> (#[trigger] ids[j])@ != id
}

/// No provider has `id`.
pub open spec fn no_provider(ids: Seq<String>, id: Seq<char>) -> bool {
    forall|j: int| 0 <= j < ids.len() ==> (#[trigger] ids[j])@ != id
}

/// The index of the provider `id`.
pub fn provider_index(ids: &Vec<String>, id: &str) -> (r: Option<usize>)
    ensures
        r matches Some(i) ==> provider_at(ids@, id@, i as int),
        r is None ==> no_provider(ids@, id@),
{
    let mut i: usize = 0;
    while i < ids.len()
        invariant
            i <= ids@.len(),
            forall|j: int| 0 <= j < i ==> (#[trigger] ids@[j])@ != id@,
        decreases ids@.len() - i,
    {
        if str_eq(ids[i].as_str(), id) {
            return Some(i);
        }
        i = i + 1;
    }
    None
}

/// Why a switch cannot start.
#[derive(Debug, Clone)]
pub enum ProviderError {
    /// The config has no Gemini app.
    AppNotFound,
    /// No Gemini provider has this id.
    ProviderNotFound { id: String },
}

/// The provider a switch selects: an error when the Gemini app or the
/// provider is missing.
pub fn gemini_switch_target(manager: Option<&ProviderManager>, provider_id: &str) -> (r: Result<
    usize,
    ProviderError,
>)
    ensures
        manager is None ==> r matches Err(ProviderError::AppNotFound),
        manager matches Some(m) ==> match r {
            Ok(i) => provider_at(m.provider_ids@, provider_id@, i as int),
            Err(ProviderError::ProviderNotFound { id }) => id@ == provider_id@ && no_provider(
                m.provider_ids@,
                provider_id@,
            ),
            Err(ProviderError::AppNotFound) => false,
        },
{
    match manager {
        None => Err(ProviderError::AppNotFound),
        Some(m) => match provider_index(&m.provider_ids, provider_id) {
            Some(i) => Ok(i),
            None => Err(ProviderError::ProviderNotFound { id: provider_id.to_owned() }),
        },
    }
}

impl ProviderManager {
    /// Makes `provider_id` the current provider.
    pub fn set_current(&mut self, provider_id: &str)
        ensures
            final(self).current@ == provider_id@,
            final(self).provider_ids == old(self).provider_ids,
    {
        self.current = provider_id.to_owned();
    }
}

/// Before switching to `next_provider`, the live configuration is copied
/// back into the snapshot of the provider that is current now: only when the
/// live `.env` exists, a current provider is known, differs from the next
/// one, and is one of the Gemini providers.
pub open spec fn spec_backfill_target(
    env_exists: bool,
    current: Option<Seq<char>>,
    next_provider: Seq<char>,
    ids: Option<Seq<String>>,
    r: Option<usize>,
) -> bool {
    if !env_exists || current is None || current->0.len() == 0 || current->0 == next_provider
        || ids is None {
        r is None
    } else {
        match r {
            Some(i) => provider_at(ids->0, current->0, i as int),
            None => no_provider(ids->0, current->0),
        }
    }
}

pub fn backfill_target(
    env_exists: bool,
    effective_current_provider: Option<&str>,
    next_provider: &str,
    manager: Option<&ProviderManager>,
) -> (r: Option<usize>)
    ensures
        spec_backfill_target(
            env_exists,
            match effective_current_provider {
                Some(c) => Some(c@),
                None => None,
            },
            next_provider@,
            match manager {
                Some(m) => Some(m.provider_ids@),
                None => None,
            },
            r,
        ),
{
    if !env_exists {
        return None;
    }
    let current_id = match effective_current_provider {
        Some(c) => c,
        None => {
            return None;
        },
    };
    if current_id.unicode_len() == 0 || str_eq(current_id, next_provider) {
        return None;
    }
    match manager {
        None => None,
        Some(m) => provider_index(&m.provider_ids, current_id),
    }
}

/// One provider snapshot to migrate, and whether a failure aborts the
/// migration (otherwise it is logged and skipped).
#[derive(Debug, Clone, Copy, PartialEq, Eq, Structural)]
pub struct MigrationStep {
    pub index: usize,
    pub stop_on_error: bool,
}

/// Every provider in order, each failure aborting.
pub open spec fn all_steps(n: nat) -> Seq<MigrationStep> {
    Seq::new(n, |j: int| MigrationStep { index: j as usize, stop_on_error: true })
}

/// The current provider first (its failure aborts), then every other one in
/// order (their failures are skipped).
pub open spec fn current_first_steps(n: nat, current: int) -> Seq<MigrationStep> {
    seq![MigrationStep { index: current as usize, stop_on_error: true }] + Seq::new(
        (n - 1) as nat,
        |j: int|
            MigrationStep {
                index: (if j < current {
                    j
                } else {
                    j + 1
                }) as usize,
                stop_on_error: false,
            },
    )
}

/// Migrating a stored common-config snippet out of the provider snapshots:
/// nothing for a blank snippet; when the strict current provider is a
/// Gemini provider, it goes first and the others follow with failures
/// skipped; otherwise every provider is migrated and any failure aborts
/// (nothing when there is no Gemini app).
pub open spec fn spec_migration_plan(
    snippet: Seq<char>,
    current: Option<Seq<char>>,
    ids: Option<Seq<String>>,
    steps: Seq<MigrationStep>,
) -> bool {
    if trim(snippet).len() == 0 || ids is None {
        steps.len() == 0
    } else {
        match current {
            Some(c) => match provider_position(ids->0, c) {
                Some(i) => steps == current_first_steps(ids->0.len(), i),
                None => steps == all_steps(ids->0.len()),
            },
            None => steps == all_steps(ids->0.len()),
        }
    }
}

/// The index of the provider `id`, if there is one.
pub open spec fn provider_position(ids: Seq<String>, id: Seq<char>) -> Option<int> {
    if exists|i: int| provider_at(ids, id, i) {
        Some(choose|i: int| provider_at(ids, id, i))
    } else {
        None
    }
}

pub proof fn lemma_provider_position(ids: Seq<String>, id: Seq<char>, i: int)
    requires
        provider_at(ids, id, i),
    ensures
        provider_position(ids, id) == Some(i),
{
    let k = choose|k: int| provider_at(ids, id, k);
    assert(provider_at(ids, id, k));
    if k < i {
        assert(ids[k]@ != id);
    } else if i < k {
        assert(ids[i]@ != id);
    }
}

pub proof fn lemma_no_provider_position(ids: Seq<String>, id: Seq<char>)
    requires
        no_provider(ids, id),
    ensures
        provider_position(ids, id) is None,
{
    if exists|i: int| provider_at(ids, id, i) {
        let i = choose|i: int| provider_at(ids, id, i);
        assert(ids[i]@ == id);
    }
}

/// The trimmed snippet to migrate and the order of the migration.
pub fn plan_snippet_migration<'a>(
    old_snippet: &'a str,
    strict_current_provider_id: Option<&str>,
    manager: Option<&ProviderManager>,
) -> (r: (&'a str, Vec<MigrationStep>))
    ensures
        r.0@ == trim(old_snippet@),
        spec_migration_plan(
            old_snippet@,
            match strict_current_provider_id {
                Some(c) => Some(c@),
                None => None,
            },
            match manager {
                Some(m) => Some(m.provider_ids@),
                None => None,
            },
            r.1@,
        ),
{
    let snippet = trim_str(old_snippet);
    let mut steps: Vec<MigrationStep> = Vec::new();
    if snippet.unicode_len() == 0 {
        return (snippet, steps);
    }
    let m = match manager {
        None => {
            return (snippet, steps);
        },
        Some(m) => m,
    };
    let n = m.provider_ids.len();
    let current = match strict_current_provider_id {
        Some(c) => provider_index(&m.provider_ids, c),
        None => None,
    };
    match current {
        Some(ci) => {
            steps.push(MigrationStep { index: ci, stop_on_error: true });
            let mut j: usize = 0;
            while j < n
                invariant
                    n == m.provider_ids@.len(),
                    ci < n,
                    j <= n,
                    steps@.len() == 1 + (if j <= ci {
                        j as int
                    } else {
                        j - 1
                    }),
                    steps@[0] == (MigrationStep { index: ci, stop_on_error: true }),
                    forall|k: int|
                        1 <= k < steps@.len() ==> #[trigger] steps@[k] == (MigrationStep {
                            index: (if k - 1 < ci {
                                k - 1
                            } else {
                                k
                            }) as usize,
                            stop_on_error: false,
                        }),
                decreases n - j,
            {
                if j != ci {
                    steps.push(MigrationStep { index: j, stop_on_error: false });
                }
                j = j + 1;
            }
            proof {
                let expected = current_first_steps(n as nat, ci as int);
                assert(steps@ =~= expected);
                let c = strict_current_provider_id->0;
                lemma_provider_position(m.provider_ids@, c@, ci as int);
            }
        },
        None => {
            let mut j: usize = 0;
            while j < n
                invariant
                    n == m.provider_ids@.len(),
                    j <= n,
                    steps@ == all_steps(j as nat),
                decreases n - j,
            {
                steps.push(MigrationStep { index: j, stop_on_error: true });
                j = j + 1;
                assert(steps@ =~= all_steps(j as nat));
            }
            proof {
                match strict_current_provider_id {
                    Some(c) => {
                        lemma_no_provider_position(m.provider_ids@, c@);
                    },
                    None => {},
                }
            }
        },
    }
    (snippet, steps)
}

/// The step at which a run of `steps` aborts, given whether each executed
/// step succeeded: the first failed step whose failure aborts.
pub open spec fn first_abort(steps: Seq<MigrationStep>, outcomes: Seq<bool>) -> Option<int>
    decreases outcomes.len(),
{
    if outcomes.len() == 0 {
        None
    } else {
        match first_abort(steps, outcomes.drop_last()) {
            Some(i) => Some(i),
            None => if !outcomes.last() && steps[outcomes.len() - 1].stop_on_error {
                Some(outcomes.len() - 1)
            } else {
                None
            },
        }
    }
}

/// Recording one more outcome while no step has aborted: the run aborts at
/// this step exactly when it failed and its failure aborts.
pub proof fn lemma_first_abort_push(steps: Seq<MigrationStep>, outcomes: Seq<bool>, ok: bool)
    requires
        first_abort(steps, outcomes) is None,
    ensures
        first_abort(steps, outcomes.push(ok)) == (if !ok && steps[outcomes.len() as int].stop_on_error {
            Some(outcomes.len() as int)
        } else {
            None
        }),
{
    assert(outcomes.push(ok).drop_last() =~= outcomes);
}

/// A run of a migration plan: it hands out the steps in order and stops at
/// the first failure of a step whose failure aborts; failures of the other
/// steps are skipped.
pub struct MigrationRun {
    pub steps: Vec<MigrationStep>,
    pub next: usize,
    pub failed_at: Option<usize>,
}

impl MigrationRun {
    /// The run has executed the steps before `next`, with these outcomes.
    pub open spec fn after(&self, outcomes: Seq<bool>) -> bool {
        &&& self.next == outcomes.len()
        &&& self.next <= self.steps@.len()
        &&& self.failed_at == match first_abort(self.steps@, outcomes) {
            Some(i) => Some(i as usize),
            None => None,
        }
    }

    pub fn new(steps: Vec<MigrationStep>) -> (r: Self)
        ensures
            r.steps@ == steps@,
            r.after(Seq::empty()),
    {
        MigrationRun { steps, next: 0, failed_at: None }
    }

    /// The provider to migrate next: none once a step aborted or all ran.
    pub fn next_step(&self) -> (r: Option<usize>)
        ensures
            r == (if self.failed_at is None && self.next < self.steps@.len() {
                Some(self.steps@[self.next as int].index)
            } else {
                None
            }),
    {
        if self.failed_at.is_none() && self.next < self.steps.len() {
            Some(self.steps[self.next].index)
        } else {
            None
        }
    }

    /// Records whether the step just handed out succeeded.
    pub fn record(&mut self, ok: bool)
        requires
            old(self).failed_at is None,
            old(self).next < old(self).steps@.len(),
        ensures
            final(self).steps == old(self).steps,
            final(self).next == old(self).next + 1,
            final(self).failed_at == (if !ok && old(self).steps@[old(self).next as int].stop_on_error {
                Some(old(self).next)
            } else {
                None
            }),
            forall|o: Seq<bool>| old(self).after(o) ==> #[trigger] final(self).after(o.push(ok)),
    {
        let len = self.steps.len();
        let abort = !ok && self.steps[self.next].stop_on_error;
        if abort {
            self.failed_at = Some(self.next);
        }
        assert(self.next < len);
        self.next = self.next + 1;
        proof {
            assert forall|o: Seq<bool>| old(self).after(o) implies #[trigger] self.after(
                o.push(ok),
            ) by {
                lemma_first_abort_push(old(self).steps@, o, ok);
            }
        }
    }
}

/// Which failure stops a snippet migration: when the strict current
/// provider leads the plan, only its own failure does, whatever happens to
/// the others; otherwise the first failing provider does, and a run without
/// failures completes.
pub proof fn lemma_migration_stops(n: nat, current: Option<int>, outcomes: Seq<bool>)
    requires
        current matches Some(c) ==> 0 <= c < n,
        outcomes.len() <= n,
    ensures
        current matches Some(c) ==> first_abort(current_first_steps(n, c), outcomes) == (if outcomes.len()
            > 0 && !outcomes[0] {
            Some(0int)
        } else {
            None
        }),
        current is None ==> match first_abort(all_steps(n), outcomes) {
            Some(i) => 0 <= i < outcomes.len() && !outcomes[i] && forall|j: int|
                0 <= j < i ==> outcomes[j],
            None => forall|j: int| 0 <= j < outcomes.len() ==> outcomes[j],
        },
    decreases outcomes.len(),
{
    if outcomes.len() > 0 {
        lemma_migration_stops(n, current, outcomes.drop_last());
        let m = outcomes.len() - 1;
        let d = outcomes.drop_last();
        assert forall|j: int| 0 <= j < m implies d[j] == outcomes[j] by {}
        match current {
            Some(c) => {
                let steps = current_first_steps(n, c);
                if m > 0 {
                    assert(d[0] == outcomes[0]);
                    assert(!steps[m].stop_on_error);
                } else {
                    assert(steps[0].stop_on_error);
                }
            },
            None => {
                let steps = all_steps(n);
                assert(steps[m].stop_on_error);
            },
        }
    }
}

#[verifier::external_type_specification]
#[verifier::external_body]
pub struct ExJsonValue(serde_json::Value);

/// Whether `serde_json` parses the text as a JSON value.
pub uninterp spec fn json_text_parses(text: Seq<char>) -> bool;

/// Whether `serde_json` parses the text as a JSON object.
pub uninterp spec fn json_text_is_object(text: Seq<char>) -> bool;

/// The value `serde_json` parses from the text.
pub uninterp spec fn json_value_of(text: Seq<char>) -> serde_json::Value;

/// `serde_json::from_str::<serde_json::Value>`: the parsed value, or the
/// parser's message. Claimed: it succeeds exactly when the text parses, and
/// the value is the one named for the text; the message is not described.
#[verifier::external_body]
fn parse_json_value(text: &str) -> (r: Result<serde_json::Value, String>)
    ensures
        r is Ok <==> json_text_parses(text@),
        r matches Ok(v) ==> v == json_value_of(text@),
{
    match serde_json::from_str::<serde_json::Value>(text) {
        Ok(v) => Ok(v),
        Err(e) => Err(e.to_string()),
    }
}

/// `serde_json::from_str::<serde_json::Map<String, serde_json::Value>>`,
/// which succeeds exactly for a JSON object; claimed: the result is the
/// named property of the text, and a text that is an object also parses as
/// a JSON value (any object is a value).
#[verifier::external_body]
fn parses_as_json_object(text: &str) -> (b: bool)
    ensures
        b == json_text_is_object(text@),
        b ==> json_text_parses(text@),
{
    serde_json::from_str::<serde_json::Map<String, serde_json::Value>>(text).is_ok()
}

/// Why a common-config snippet is refused.
#[derive(Debug, Clone)]
pub enum SnippetError {
    /// Not valid JSON; the parser's message.
    InvalidJson { detail: String },
    /// Valid JSON, but not an object.
    NotObject,
}

/// Parses a Gemini common-config snippet, which must be a JSON object.
pub fn parse_common_gemini_config_snippet(snippet: &str) -> (r: Result<
    serde_json::Value,
    SnippetError,
>)
    ensures
        !json_text_parses(snippet@) ==> r matches Err(SnippetError::InvalidJson { .. }),
        json_text_parses(snippet@) && !json_text_is_object(snippet@) ==> r matches Err(
            SnippetError::NotObject,
        ),
        json_text_parses(snippet@) && json_text_is_object(snippet@) ==> r is Ok,
        r matches Ok(v) ==> v == json_value_of(snippet@) && json_text_is_object(snippet@),
{
    let value = match parse_json_value(snippet) {
        Ok(v) => v,
        Err(detail) => {
            return Err(SnippetError::InvalidJson { detail });
        },
    };
    if !parses_as_json_object(snippet) {
        return Err(SnippetError::NotObject);
    }
    Ok(value)
}

} // verus!
