use vstd::prelude::*;
use crate::activation::{
    activation_id_of, activated_event, deactivated_event, is_activation_request,
    is_deactivation_request, read_activation_id, stored_after, LicenseRequest,
};

verus! {

/// Activating twice with the same key, from any windows, leaves the store
/// holding what one activation with that key leaves: the key's activation id.
pub proof fn lemma_activate_twice_as_once(
    before: Option<Seq<char>>,
    first: LicenseRequest,
    second: LicenseRequest,
    first_window: Seq<char>,
    second_window: Seq<char>,
    license_key: Seq<char>,
)
    requires
        is_activation_request(first, first_window, license_key),
        is_activation_request(second, second_window, license_key),
    ensures
        stored_after(stored_after(before, first.store_op), second.store_op) == stored_after(
            before,
            first.store_op,
        ),
        stored_after(before, first.store_op) == Some(activation_id_of(license_key)),
{
}

/// After an activation with a key, reading the activation id gives a
/// non-empty id that depends on the key alone.
pub proof fn lemma_activation_round_trip(
    before: Option<Seq<char>>,
    request: LicenseRequest,
    window: Seq<char>,
    license_key: Seq<char>,
)
    requires
        is_activation_request(request, window, license_key),
    ensures
        read_activation_id(stored_after(before, request.store_op)) == activation_id_of(
            license_key,
        ),
        activation_id_of(license_key).len() > 0,
{
}

/// After a deactivation, reading the activation id gives the empty string,
/// whether or not an activation was stored before.
pub proof fn lemma_deactivation_round_trip(
    before: Option<Seq<char>>,
    request: LicenseRequest,
    window: Seq<char>,
)
    requires
        is_deactivation_request(request, window),
    ensures
        read_activation_id(stored_after(before, request.store_op)) == Seq::<char>::empty(),
{
}

/// Deactivating twice leaves the store as deactivating once does.
pub proof fn lemma_deactivate_twice_as_once(
    before: Option<Seq<char>>,
    first: LicenseRequest,
    second: LicenseRequest,
    first_window: Seq<char>,
    second_window: Seq<char>,
)
    requires
        is_deactivation_request(first, first_window),
        is_deactivation_request(second, second_window),
    ensures
        stored_after(stored_after(before, first.store_op), second.store_op) == stored_after(
            before,
            first.store_op,
        ),
{
}

/// An activation broadcasts the activation event with a `true` payload, a
/// deactivation the deactivation event with a `true` payload, and the two
/// events differ.
pub proof fn lemma_notifications_distinct(
    activation: LicenseRequest,
    deactivation: LicenseRequest,
    activation_window: Seq<char>,
    deactivation_window: Seq<char>,
    license_key: Seq<char>,
)
    requires
        is_activation_request(activation, activation_window, license_key),
        is_deactivation_request(deactivation, deactivation_window),
    ensures
        activation.notification.event@ == activated_event(),
        deactivation.notification.event@ == deactivated_event(),
        activation.notification.payload && deactivation.notification.payload,
        activation.notification.event@ != deactivation.notification.event@,
{
    assert(activated_event()[9] != deactivated_event()[9]);
}

} // verus!
