//! The page of the application shell that is currently shown.

use vstd::prelude::*;

verus! {

/// Which page of the shell is active. The shell starts on the song
/// selection page; the menu switches between the three.
#[derive(Clone, PartialEq, Eq, Structural)]
pub enum ActivePage {
    SongSelection,
    Presentation,
    Settings,
}

impl ActivePage {
    /// The title of this page, as a sequence of characters.
    pub open spec fn spec_title(self) -> Seq<char> {
        match self {
            ActivePage::SongSelection => "Song Selection"@,
            ActivePage::Presentation => "Presentation"@,
            ActivePage::Settings => "Settings"@,
        }
    }

    /// The human-readable title of this page.
    pub fn get_title(&self) -> (title: String)
        ensures
            title@ == self.spec_title(),
    {
        match self {
            ActivePage::SongSelection => "Song Selection".to_string(),
            ActivePage::Presentation => "Presentation".to_string(),
            ActivePage::Settings => "Settings".to_string(),
        }
    }
}

} // verus!
