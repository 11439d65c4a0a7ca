//! The landing page.

use vstd::prelude::*;

verus! {

/// The landing page. It shows nothing that is fetched.
pub struct IndexTemplate;

/// The view of the landing page.
pub fn index() -> (view: IndexTemplate)
    ensures
        view == IndexTemplate,
{
    IndexTemplate
}

} // verus!
