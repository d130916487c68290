use vstd::prelude::*;

verus! {

/// The text `N/A`, shown where nothing is known.
pub open spec fn not_available() -> Seq<char> {
    seq!['N', '/', 'A']
}

/// A fresh string reading `N/A`.
pub fn not_available_string() -> (s: String)
    ensures
        s@ == not_available(),
{
    proof {
        reveal_strlit("N/A");
    }
    String::from_str("N/A")
}

/// The item that is playing: its title, its authors and its length.
#[derive(Clone, Debug, PartialEq)]
pub struct TrackInfo {
    pub title: String,
    pub authors: String,
    /// Length in milliseconds.
    pub duration: i32,
}

/// The mathematical content of a `TrackInfo`.
pub struct TrackInfoView {
    pub title: Seq<char>,
    pub authors: Seq<char>,
    pub duration: i32,
}

impl View for TrackInfo {
    type V = TrackInfoView;

    open spec fn view(&self) -> TrackInfoView {
        TrackInfoView { title: self.title@, authors: self.authors@, duration: self.duration }
    }
}

/// `N/A` for the texts and a length of zero.
pub open spec fn default_track_view() -> TrackInfoView {
    TrackInfoView { title: not_available(), authors: not_available(), duration: 0 }
}

impl Default for TrackInfo {
    /// `N/A` for the texts and a length of zero.
    fn default() -> (r: Self)
        ensures
            r@ == default_track_view(),
    {
        TrackInfo { title: not_available_string(), authors: not_available_string(), duration: 0 }
    }
}

} // verus!
