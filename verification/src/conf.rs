use vstd::prelude::*;
use vstd::string::StringExecFns;

verus! {

/// The translatable texts of the launcher.
#[derive(Clone)]
pub struct I18nConf {
    /// The text to display in the search bar while it is empty.
    pub search_placeholder: String,
}

impl Default for I18nConf {
    /// The default placeholder text.
    fn default() -> (r: Self)
        ensures
            r.search_placeholder@ == "Search..."@,
    {
        I18nConf { search_placeholder: String::from_str("Search...") }
    }
}

} // verus!
