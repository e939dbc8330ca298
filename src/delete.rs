//! Removing a component: one delete of its manifest reference.
use crate::entities::ZotConfig;
use crate::error::ComponentError;
use crate::registry::{is_not_found, is_success, manifest_text, manifest_url, success, RegistryRequest, Reply, RequestView};
use vstd::prelude::*;

verus! {

/// The outcome of a delete for each reply: success, absence (`NotFound`,
/// also for a reference deleted before), or any other refusal.
pub open spec fn delete_result(reply: Reply) -> Result<(), ComponentError> {
    match reply {
        Reply::Unreachable => Err(ComponentError::RegistryUnreachable),
        Reply::Answered { status, .. } => if is_success(status) {
            Ok(())
        } else if is_not_found(status) {
            Err(ComponentError::NotFound)
        } else {
            Err(ComponentError::DeleteRejected { status })
        },
    }
}

/// The request that deletes the component at `repository`/`reference`.
pub fn delete_component(registry: &ZotConfig, repository: &String, reference: &String) -> (r:
    RegistryRequest)
    ensures
        r@ == (RequestView::DeleteManifest {
            url: manifest_text(registry.url@, repository@, reference@),
        }),
{
    RegistryRequest::DeleteManifest { url: manifest_url(&registry.url, repository, reference) }
}

/// The outcome of a delete, from the registry's reply.
pub fn delete_outcome(reply: &Reply) -> (r: Result<(), ComponentError>)
    ensures
        r == delete_result(*reply),
{
    match reply {
        Reply::Unreachable => Err(ComponentError::RegistryUnreachable),
        Reply::Answered { status, .. } => {
            if success(*status) {
                Ok(())
            } else if *status == 404 {
                Err(ComponentError::NotFound)
            } else {
                Err(ComponentError::DeleteRejected { status: *status })
            }
        },
    }
}

/// Deleting a reference that is already gone (the registry reports it
/// absent) gives `NotFound`, not a generic refusal.
pub proof fn lemma_delete_absent_not_found(reply: Reply)
    requires
        reply matches Reply::Answered { status, .. } && is_not_found(status),
    ensures
        delete_result(reply) == Err::<(), ComponentError>(ComponentError::NotFound),
{
}

} // verus!
