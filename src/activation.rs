use vstd::prelude::*;
use vstd::string::{StrSliceExecFns, StringExecFns};

verus! {

/// The namespace of the entitlement store that holds license data.
pub const KV_NAMESPACE: &'static str = "license";

/// The key, within [`KV_NAMESPACE`], under which the activation id is stored.
pub const KV_ACTIVATION_ID_KEY: &'static str = "activation_id";

/// The event broadcast after an activation has been stored.
pub const ACTIVATED_EVENT: &'static str = "license-activated";

/// The event broadcast after the activation has been removed.
pub const DEACTIVATED_EVENT: &'static str = "license-deactivated";

pub open spec fn license_namespace() -> Seq<char> {
    seq!['l', 'i', 'c', 'e', 'n', 's', 'e']
}

pub open spec fn activation_id_key() -> Seq<char> {
    seq!['a', 'c', 't', 'i', 'v', 'a', 't', 'i', 'o', 'n', '_', 'i', 'd']
}

pub open spec fn activated_event() -> Seq<char> {
    seq!['l', 'i', 'c', 'e', 'n', 's', 'e', '-', 'a', 'c', 't', 'i', 'v', 'a', 't', 'e', 'd']
}

pub open spec fn deactivated_event() -> Seq<char> {
    seq!['l', 'i', 'c', 'e', 'n', 's', 'e', '-', 'd', 'e', 'a', 'c', 't', 'i', 'v', 'a', 't', 'e', 'd']
}

fn namespace_string() -> (r: String)
    ensures
        r@ == license_namespace(),
{
    proof {
        reveal_strlit("license");
    }
    let r = String::from_str(KV_NAMESPACE);
    assert(r@ =~= license_namespace());
    r
}

/// The number of leading characters of a license key kept in its activation id.
pub const ACTIVATION_KEY_PREFIX_LEN: usize = 8;

/// The characters that open every activation id.
pub open spec fn activation_id_tag() -> Seq<char> {
    seq!['l', 'o', 'c', 'a', 'l', '-']
}

/// The leading characters of a license key that an activation id keeps.
pub open spec fn key_prefix(license_key: Seq<char>) -> Seq<char> {
    if license_key.len() < ACTIVATION_KEY_PREFIX_LEN {
        license_key
    } else {
        license_key.take(ACTIVATION_KEY_PREFIX_LEN as int)
    }
}

/// The activation id derived from a license key: the tag, then the key's
/// first eight characters (all of them when it is shorter).
pub open spec fn activation_id_of(license_key: Seq<char>) -> Seq<char> {
    activation_id_tag() + key_prefix(license_key)
}

/// Derives the opaque activation id that is stored for a license key.
pub fn derive_activation_id(license_key: &str) -> (r: String)
    ensures
        r@ == activation_id_of(license_key@),
{
    let len = license_key.unicode_len();
    let n: usize = if len < ACTIVATION_KEY_PREFIX_LEN {
        len
    } else {
        ACTIVATION_KEY_PREFIX_LEN
    };
    let prefix = license_key.substring_char(0, n);
    let mut id = String::from_str("local-");
    proof {
        reveal_strlit("local-");
    }
    assert(id@ =~= activation_id_tag());
    id.append(prefix);
    assert(prefix@ =~= key_prefix(license_key@));
    id
}


fn activation_key_string() -> (r: String)
    ensures
        r@ == activation_id_key(),
{
    proof {
        reveal_strlit("activation_id");
    }
    let r = String::from_str(KV_ACTIVATION_ID_KEY);
    assert(r@ =~= activation_id_key());
    r
}

fn activated_event_string() -> (r: String)
    ensures
        r@ == activated_event(),
{
    proof {
        reveal_strlit("license-activated");
    }
    let r = String::from_str(ACTIVATED_EVENT);
    assert(r@ =~= activated_event());
    r
}

fn deactivated_event_string() -> (r: String)
    ensures
        r@ == deactivated_event(),
{
    proof {
        reveal_strlit("license-deactivated");
    }
    let r = String::from_str(DEACTIVATED_EVENT);
    assert(r@ =~= deactivated_event());
    r
}

/// Where a store mutation came from, so that observers of the store can tell
/// their own writes from those of others.
pub struct UpdateSource {
    /// The label of the window that asked for the mutation.
    pub window_label: String,
}

impl UpdateSource {
    /// The update source of a window.
    pub fn from_window(window_label: &str) -> (r: UpdateSource)
        ensures
            r.window_label@ == window_label@,
    {
        UpdateSource { window_label: String::from_str(window_label) }
    }
}

/// A mutation of the entitlement store.
pub enum StoreOp {
    /// Upsert `value` under `key` in `namespace`.
    SetString { key: String, namespace: String, value: String, source: UpdateSource },
    /// Remove `key` from `namespace`.
    DeleteKey { key: String, namespace: String, source: UpdateSource },
}

/// A named application-wide broadcast with a boolean payload.
pub struct Notification {
    pub event: String,
    pub payload: bool,
}

/// What one activation or deactivation asks of its collaborators: first the
/// store mutation, then, once it has succeeded, the notification.
pub struct LicenseRequest {
    pub store_op: StoreOp,
    pub notification: Notification,
}

/// The errors that reach the caller of an activation or deactivation.
pub enum LicenseError {
    /// The entitlement store failed; its message.
    Store(String),
}

/// `r` asks to store the activation id of `license_key` on behalf of the
/// window `window_label`, then to broadcast the activation.
pub open spec fn is_activation_request(
    r: LicenseRequest,
    window_label: Seq<char>,
    license_key: Seq<char>,
) -> bool {
    &&& r.store_op matches StoreOp::SetString { key, namespace, value, source }
        && key@ == activation_id_key() && namespace@ == license_namespace()
        && value@ == activation_id_of(license_key) && source.window_label@ == window_label
    &&& r.notification.event@ == activated_event()
    &&& r.notification.payload
}

/// `r` asks to remove the activation id on behalf of the window
/// `window_label`, then to broadcast the deactivation.
pub open spec fn is_deactivation_request(r: LicenseRequest, window_label: Seq<char>) -> bool {
    &&& r.store_op matches StoreOp::DeleteKey { key, namespace, source }
        && key@ == activation_id_key() && namespace@ == license_namespace()
        && source.window_label@ == window_label
    &&& r.notification.event@ == deactivated_event()
    &&& r.notification.payload
}

/// Plans the activation of `license_key` from the window `window_label`.
/// Any key is accepted; a prior activation is replaced.
pub fn activate_license(window_label: &str, license_key: &str) -> (r: LicenseRequest)
    ensures
        is_activation_request(r, window_label@, license_key@),
{
    let store_op = StoreOp::SetString {
        key: activation_key_string(),
        namespace: namespace_string(),
        value: derive_activation_id(license_key),
        source: UpdateSource::from_window(window_label),
    };
    LicenseRequest { store_op, notification: Notification { event: activated_event_string(), payload: true } }
}

/// Plans the removal of the activation from the window `window_label`.
pub fn deactivate_license(window_label: &str) -> (r: LicenseRequest)
    ensures
        is_deactivation_request(r, window_label@),
{
    let store_op = StoreOp::DeleteKey {
        key: activation_key_string(),
        namespace: namespace_string(),
        source: UpdateSource::from_window(window_label),
    };
    LicenseRequest {
        store_op,
        notification: Notification { event: deactivated_event_string(), payload: true },
    }
}

/// `key` in `namespace` is where the activation id lives.
pub open spec fn is_activation_slot(key: Seq<char>, namespace: Seq<char>) -> bool {
    key == activation_id_key() && namespace == license_namespace()
}

/// What the store holds under the activation slot after `op`, given what it
/// held before. Removing an absent activation id leaves it absent.
pub open spec fn stored_after(before: Option<Seq<char>>, op: StoreOp) -> Option<Seq<char>> {
    match op {
        StoreOp::SetString { key, namespace, value, .. } => if is_activation_slot(key@, namespace@) {
            Some(value@)
        } else {
            before
        },
        StoreOp::DeleteKey { key, namespace, .. } => if is_activation_slot(key@, namespace@) {
            None
        } else {
            before
        },
    }
}

/// The activation id that a read of the store reports: the empty string when
/// none is stored.
pub open spec fn read_activation_id(stored: Option<Seq<char>>) -> Seq<char> {
    match stored {
        Some(id) => id,
        None => Seq::empty(),
    }
}

/// The activation record: the activation id that the store holds, if any.
/// With none the application is not activated.
pub struct ActivationState {
    pub activation_id: Option<String>,
}

impl View for ActivationState {
    type V = Option<Seq<char>>;

    open spec fn view(&self) -> Option<Seq<char>> {
        match self.activation_id {
            Some(id) => Some(id@),
            None => None,
        }
    }
}

impl ActivationState {
    /// The state of a store that holds no activation id.
    pub fn new() -> (r: ActivationState)
        ensures
            r@ == None::<Seq<char>>,
    {
        ActivationState { activation_id: None }
    }

    /// The state given by a read of the activation slot that defaults to the
    /// empty string: an empty value means that none is stored.
    pub fn from_stored(value: String) -> (r: ActivationState)
        ensures
            r@ == (if value@.len() == 0 {
                None
            } else {
                Some(value@)
            }),
    {
        if value.unicode_len() == 0 {
            ActivationState { activation_id: None }
        } else {
            ActivationState { activation_id: Some(value) }
        }
    }

    pub fn is_activated(&self) -> (r: bool)
        ensures
            r == self@ is Some,
    {
        self.activation_id.is_some()
    }

    /// Applies a store mutation to the record.
    pub fn apply_store_op(&mut self, op: &StoreOp)
        ensures
            final(self)@ == stored_after(old(self)@, *op),
    {
        let slot_key = activation_key_string();
        let slot_namespace = namespace_string();
        match op {
            StoreOp::SetString { key, namespace, value, .. } => {
                if *key == slot_key && *namespace == slot_namespace {
                    self.activation_id = Some(value.clone());
                }
            },
            StoreOp::DeleteKey { key, namespace, .. } => {
                if *key == slot_key && *namespace == slot_namespace {
                    self.activation_id = None;
                }
            },
        }
    }
}

/// Reads the activation id; the empty string when the application is not
/// activated.
pub fn get_activation_id(state: &ActivationState) -> (r: String)
    ensures
        r@ == read_activation_id(state@),
{
    match &state.activation_id {
        Some(id) => id.clone(),
        None => String::new(),
    }
}

/// Decides the outcome of a request once its store mutation has been
/// attempted: on success the notification is due; a store failure is
/// handed to the caller and nothing is broadcast.
pub fn settle_store_result(request: LicenseRequest, store_result: Result<(), String>) -> (r: Result<
    Notification,
    LicenseError,
>)
    ensures
        store_result is Ok ==> r == Ok::<Notification, LicenseError>(request.notification),
        store_result matches Err(e) ==> r == Err::<Notification, LicenseError>(
            LicenseError::Store(e),
        ),
{
    match store_result {
        Ok(()) => Ok(request.notification),
        Err(e) => Err(LicenseError::Store(e)),
    }
}

/// The warning logged when broadcasting `event` failed with `error`.
pub open spec fn emit_warning(event: Seq<char>, error: Seq<char>) -> Seq<char> {
    "Failed to emit "@ + event + " event: "@ + error
}

/// How a request ends once its notification has been attempted.
pub struct EmitOutcome {
    /// What the caller of the operation receives.
    pub result: Result<(), LicenseError>,
    /// What to log as a warning, if anything.
    pub warning: Option<String>,
}

/// Decides the outcome of a request once its notification has been
/// attempted. Delivery is best effort: a failure becomes a warning and the
/// operation still succeeds.
pub fn settle_emit_result(notification: &Notification, emit_result: Result<(), String>) -> (r:
    EmitOutcome)
    ensures
        r.result is Ok,
        emit_result is Ok ==> r.warning is None,
        emit_result matches Err(e) ==> r.warning matches Some(w) && w@ == emit_warning(
            notification.event@,
            e@,
        ),
{
    match emit_result {
        Ok(()) => EmitOutcome { result: Ok(()), warning: None },
        Err(e) => {
            let mut w = String::from_str("Failed to emit ");
            w.append(notification.event.as_str());
            w.append(" event: ");
            w.append(e.as_str());
            EmitOutcome { result: Ok(()), warning: Some(w) }
        },
    }
}

} // verus!
