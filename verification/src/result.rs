use crate::icons;
use vstd::prelude::*;

verus! {

/// What activating a displayed result does.
#[derive(Clone)]
pub enum SearchAction {
    /// Open the given URL in the default handler.
    OpenUrl(String),
    /// Place the given text on the clipboard.
    CopyToClipboard(String),
}

/// One match shown to the user: a glyph, a line of text and an optional action.
/// Built once through the builder methods, then treated as immutable.
#[derive(Clone)]
pub struct SearchResult {
    pub icon: char,
    pub text: String,
    pub action: Option<SearchAction>,
}

impl SearchResult {
    /// Sets the icon of the search result.
    pub fn icon(self, icon: char) -> (r: Self)
        ensures
            r.icon == icon,
            r.text == self.text,
            r.action == self.action,
    {
        SearchResult { icon, text: self.text, action: self.action }
    }

    /// Sets the text of the search result.
    pub fn text(self, text: String) -> (r: Self)
        ensures
            r.icon == self.icon,
            r.text == text,
            r.action == self.action,
    {
        SearchResult { icon: self.icon, text, action: self.action }
    }

    /// Sets the action to open the given URL.
    pub fn open_with(self, url: String) -> (r: Self)
        ensures
            r.icon == self.icon,
            r.text == self.text,
            r.action == Some(SearchAction::OpenUrl(url)),
    {
        SearchResult { icon: self.icon, text: self.text, action: Some(SearchAction::OpenUrl(url)) }
    }
}

impl Default for SearchResult {
    /// The default result: neutral icon, empty text, no action.
    fn default() -> (r: Self)
        ensures
            r.icon == icons::SHROOM,
            r.text@ == Seq::<char>::empty(),
            r.action is None,
    {
        SearchResult { icon: icons::SHROOM, text: String::new(), action: None }
    }
}

} // verus!
