//! Stored preferences, the choices of one run, and how the two are merged.

use crate::order::DateOrder;
use vstd::prelude::*;

verus! {

/// The preferences that decide a file's name.
#[derive(Clone, Debug, PartialEq, Eq)]
pub struct Config {
    /// The order of day, month and year.
    pub order: DateOrder,
    /// The character between two components of the date.
    pub separator: char,
    /// The file's extension, without the dot in front of it.
    pub extension: String,
    /// Whether the year is written in full or cut to its last digits.
    pub full_year: bool,
}

/// What a `Config` holds, as mathematical values.
pub struct ConfigView {
    pub order: DateOrder,
    pub separator: char,
    pub extension: Seq<char>,
    pub full_year: bool,
}

impl View for Config {
    type V = ConfigView;

    open spec fn view(&self) -> ConfigView {
        ConfigView {
            order: self.order,
            separator: self.separator,
            extension: self.extension@,
            full_year: self.full_year,
        }
    }
}

/// The preferences of someone who has stored none: day before month before
/// year, a hyphen between them, a short year and the extension `md`.
pub open spec fn default_view() -> ConfigView {
    ConfigView {
        order: DateOrder::DMY,
        separator: '-',
        extension: seq!['m', 'd'],
        full_year: false,
    }
}

impl Default for Config {
    fn default() -> (config: Config)
        ensures
            config@ == default_view(),
    {
        proof {
            reveal_strlit("md");
        }
        let config = Config {
            order: DateOrder::DMY,
            separator: '-',
            extension: "md".to_owned(),
            full_year: false,
        };
        assert(config.extension@ =~= seq!['m', 'd']);
        config
    }
}

/// The choices made for a single run. A field that was not chosen leaves the
/// stored preference in force.
#[derive(Clone, Debug, PartialEq, Eq)]
pub struct Overrides {
    /// The chosen order, if one was chosen.
    pub order: Option<DateOrder>,
    /// The chosen separator, if one was chosen.
    pub separator: Option<char>,
    /// The chosen extension, if one was chosen.
    pub extension: Option<String>,
    /// Whether the full year was asked for. The flag can only ask for it:
    /// left unset it is no choice, and the stored preference decides.
    pub full_year: bool,
}

/// What an `Overrides` holds: for each field of a `Config` the chosen value,
/// or `None` where nothing was chosen.
pub struct OverridesView {
    pub order: Option<DateOrder>,
    pub separator: Option<char>,
    pub extension: Option<Seq<char>>,
    pub full_year: Option<bool>,
}

impl View for Overrides {
    type V = OverridesView;

    open spec fn view(&self) -> OverridesView {
        OverridesView {
            order: self.order,
            separator: self.separator,
            extension: match self.extension {
                Some(extension) => Some(extension@),
                None => None,
            },
            full_year: if self.full_year {
                Some(true)
            } else {
                None
            },
        }
    }
}

/// The overrides of a run in which nothing was chosen.
pub open spec fn no_overrides() -> OverridesView {
    OverridesView { order: None, separator: None, extension: None, full_year: None }
}

impl Overrides {
    /// Overrides that choose nothing.
    pub fn none() -> (overrides: Overrides)
        ensures
            overrides@ == no_overrides(),
    {
        Overrides { order: None, separator: None, extension: None, full_year: false }
    }
}

/// The chosen value where there is one, the stored one where there is none.
pub open spec fn chosen_or<T>(choice: Option<T>, stored: T) -> T {
    match choice {
        Some(value) => value,
        None => stored,
    }
}

/// The configuration in force: field by field the override where one was
/// chosen, the stored preference where none was.
pub open spec fn merged(config: ConfigView, overrides: OverridesView) -> ConfigView {
    ConfigView {
        order: chosen_or(overrides.order, config.order),
        separator: chosen_or(overrides.separator, config.separator),
        extension: chosen_or(overrides.extension, config.extension),
        full_year: chosen_or(overrides.full_year, config.full_year),
    }
}

/// Lays the choices of a run over the stored preferences.
pub fn merge(config: Config, overrides: Overrides) -> (resolved: Config)
    ensures
        resolved@ == merged(config@, overrides@),
{
    Config {
        order: overrides.order.unwrap_or(config.order),
        separator: overrides.separator.unwrap_or(config.separator),
        extension: overrides.extension.unwrap_or(config.extension),
        full_year: overrides.full_year || config.full_year,
    }
}

/// Merging overrides that choose nothing leaves every preference as it was.
pub proof fn lemma_merge_nothing(config: ConfigView)
    ensures
        merged(config, no_overrides()) == config,
{
}

/// A field that the overrides choose is the field of the merged
/// configuration, whatever was stored.
pub proof fn lemma_merge_chosen(config: ConfigView, overrides: OverridesView)
    ensures
        overrides.order matches Some(order) ==> merged(config, overrides).order == order,
        overrides.separator matches Some(separator) ==> merged(config, overrides).separator
            == separator,
        overrides.extension matches Some(extension) ==> merged(config, overrides).extension
            == extension,
        overrides.full_year matches Some(full_year) ==> merged(config, overrides).full_year
            == full_year,
{
}

/// A field that the overrides leave open keeps the stored preference.
pub proof fn lemma_merge_open(config: ConfigView, overrides: OverridesView)
    ensures
        overrides.order is None ==> merged(config, overrides).order == config.order,
        overrides.separator is None ==> merged(config, overrides).separator == config.separator,
        overrides.extension is None ==> merged(config, overrides).extension == config.extension,
        overrides.full_year is None ==> merged(config, overrides).full_year == config.full_year,
{
}

} // verus!
