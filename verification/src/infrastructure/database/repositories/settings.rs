//! The application settings stored when the database is created.
use vstd::prelude::*;

verus! {

/// The default settings, as key and value, in the order they are stored.
pub open spec fn default_settings_view() -> Seq<(Seq<char>, Seq<char>)> {
    seq![
        ("scan_interval_minutes"@, "30"@),
        ("max_repo_depth"@, "3"@),
        ("enable_file_watching"@, "true"@),
        ("theme"@, "system"@),
        ("language"@, "en"@),
    ]
}

/// The default settings.
pub fn default_settings() -> (s: Vec<(&'static str, &'static str)>)
    ensures
        s@.map_values(|p: (&'static str, &'static str)| (p.0@, p.1@)) == default_settings_view(),
{
    let s = vec![
        ("scan_interval_minutes", "30"),
        ("max_repo_depth", "3"),
        ("enable_file_watching", "true"),
        ("theme", "system"),
        ("language", "en"),
    ];
    assert(s@.map_values(|p: (&'static str, &'static str)| (p.0@, p.1@)) =~= default_settings_view());
    s
}

} // verus!
