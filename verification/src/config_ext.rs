//! Extensions to [`Config`]; implemented for [`Config`] alone.

use vstd::prelude::*;

use crate::config::Config;

mod private;

verus! {

/// Extensions to [`Config`] for custom clients.
pub trait ConfigExt: private::Sealed {}

impl ConfigExt for Config {}

} // verus!
