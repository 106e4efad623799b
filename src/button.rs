//! The kinds of button of the catalog's web page, and their style classes.

use vstd::prelude::*;
use vstd::string::StringExecFns;

verus! {

/// The style classes of a primary button.
pub const PRIMARY_CLASSES: &'static str = "text-slate-200 inline-flex items-center bg-cyan-700 border-0 py-1 px-3 focus:outline-none hover:bg-cyan-500 hover:text-teal-900 rounded mt-4 md:mt-0";

/// The style classes of a secondary button.
pub const SECONDARY_CLASSES: &'static str = "text-slate-200 inline-flex items-center bg-rose-700 border-0 py-1 px-3 focus:outline-none hover:bg-rose-800 rounded mt-4 md:mt-0";

/// A kind of button.
#[derive(Clone, Copy, Debug, PartialEq, Eq, Structural)]
pub enum ButtonType {
    Primary,
    Secondary,
}

impl ButtonType {
    /// The style classes of this kind of button.
    pub fn to_string(&self) -> (r: String)
        ensures
            *self == ButtonType::Primary ==> r@ == PRIMARY_CLASSES@,
            *self == ButtonType::Secondary ==> r@ == SECONDARY_CLASSES@,
    {
        match self {
            ButtonType::Primary => String::from_str(PRIMARY_CLASSES),
            ButtonType::Secondary => String::from_str(SECONDARY_CLASSES),
        }
    }
}

} // verus!
