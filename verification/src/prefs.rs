use vstd::prelude::*;

verus! {

/// User preferences of the overlay, as persisted between runs.
#[derive(Clone, Debug, PartialEq)]
pub struct Preferences {
    pub enable_overlay: bool,
    pub display_daily_clears: bool,
    pub display_clear_notifications: bool,
    pub display_milliseconds: bool,
    pub filter_activity_type: String,
    pub filter_timespan: String,
    pub primary_background: String,
    pub secondary_background: String,
    pub primary_highlight: String,
    pub clear_text_color: String,
}

impl Default for Preferences {
    fn default() -> (r: Self)
        ensures
            !r.enable_overlay,
            r.display_daily_clears,
            r.display_clear_notifications,
            r.display_milliseconds,
            r.filter_activity_type@ == "all"@,
            r.filter_timespan@ == "1"@,
            r.primary_background@ == "#12171c"@,
            r.secondary_background@ == "#180f1c"@,
            r.primary_highlight@ == "#74259c"@,
            r.clear_text_color@ == "#ffffff"@,
    {
        Preferences {
            enable_overlay: false,
            display_daily_clears: true,
            display_clear_notifications: true,
            display_milliseconds: true,
            filter_activity_type: String::from_str("all"),
            filter_timespan: String::from_str("1"),
            primary_background: String::from_str("#12171c"),
            secondary_background: String::from_str("#180f1c"),
            primary_highlight: String::from_str("#74259c"),
            clear_text_color: String::from_str("#ffffff"),
        }
    }
}

impl Preferences {
    /// The file these preferences persist in.
    pub fn get_filename() -> (r: &'static str)
        ensures
            r@ == "preferences.json"@,
    {
        "preferences.json"
    }
}

} // verus!
