//! Generator for Debian packaging metadata.
//!
//! From a configuration record and caller-supplied strings (a version, change
//! notes, extra control fields) the library renders the text of a
//! `debian/changelog` entry block and of a complete `debian/control` file.
//! All rendering is pure: the functions here take the current file contents
//! as arguments and return the new contents together with a status message,
//! and a thin unverified shell performs the actual reads and writes.

use vstd::prelude::*;
use vstd::string::StringExecFns;

mod changelog;
mod config;
mod control;
mod keywords;
mod laws;
mod text;

verus! {

pub use changelog::Changelog;
pub use changelog::spec_changelog_entry;
pub use changelog::spec_format_changes;
pub use changelog::spec_format_contents;
pub use config::Config;
pub use config::Maintainer;
pub use control::BinaryControl;
pub use control::Control;
pub use control::SourceControl;
pub use control::spec_binary_stanza;
pub use control::spec_control_contents;
pub use control::spec_dep_lines_from;
pub use control::spec_format_additional;
pub use control::spec_format_field;
pub use control::spec_format_maintainer;
pub use control::spec_format_str;
pub use control::spec_format_vec;
pub use control::spec_source_stanza;
pub use keywords::Architecture;
pub use laws::lemma_architecture_text_injective;
pub use laws::lemma_distribution_text_injective;
pub use laws::lemma_empty_changes_render_empty;
pub use laws::lemma_empty_field_renders_nothing;
pub use laws::lemma_field_renders_one_line;
pub use laws::lemma_many_values_no_trailing_comma;
pub use laws::lemma_one_value_renders_one_line;
pub use laws::lemma_priority_text_injective;
pub use laws::lemma_urgency_text_injective;
pub use keywords::Distribution;
pub use keywords::FieldText;
pub use keywords::Priority;
pub use keywords::Urgency;
pub use text::is_space;
pub use text::spec_bullets;
pub use text::spec_lines;
pub use text::spec_trim;
pub use text::trim_str;

/// What went wrong while updating the files. The rendering here never fails;
/// these errors are reported by callers whose reads, parses or writes around
/// the rendering fail.
#[derive(Clone, Copy, Debug, PartialEq, Eq, Structural)]
pub enum DebyError {
    ConfigNew,
    Update,
    ChangelogUpdate,
    ControlUpdate,
}

impl DebyError {
    /// The descriptive text of this error.
    pub open spec fn spec_message(&self) -> Seq<char> {
        match self {
            DebyError::ConfigNew => "Could not create configuration from config file .debyrc"@,
            DebyError::Update => "Could not update your files"@,
            DebyError::ChangelogUpdate => "Could not update debian changelog file"@,
            DebyError::ControlUpdate => "Could not update debian control file"@,
        }
    }

    /// Renders the descriptive text of this error.
    pub fn message(&self) -> (r: &'static str)
        ensures
            r@ == self.spec_message(),
    {
        match self {
            DebyError::ConfigNew => "Could not create configuration from config file .debyrc",
            DebyError::Update => "Could not update your files",
            DebyError::ChangelogUpdate => "Could not update debian changelog file",
            DebyError::ControlUpdate => "Could not update debian control file",
        }
    }
}

/// What one generator decided: the new file contents when the file is to be
/// written, or no contents at all when the configuration switches the file
/// off, and in both cases a status message for the caller to surface.
pub struct UpdateOutcome {
    pub contents: Option<String>,
    pub message: String,
}

/// The outcome that writes nothing and reports `msg`.
pub open spec fn outcome_skips(r: UpdateOutcome, msg: Seq<char>) -> bool {
    r.contents is None && r.message@ == msg
}

/// The outcome that writes exactly `text` and reports `msg`.
pub open spec fn outcome_writes(r: UpdateOutcome, text: Seq<char>, msg: Seq<char>) -> bool {
    match r.contents {
        Some(c) => c@ == text && r.message@ == msg,
        None => false,
    }
}

/// The message returned when the changelog is switched off.
pub open spec fn changelog_skip_message() -> Seq<char> {
    "debian/changelog file not updated due to config file setting"@
}

/// The message returned when a new changelog entry was rendered.
pub open spec fn changelog_success_message() -> Seq<char> {
    "Successfully created a new entry in debian/changelog file"@
}

/// The message returned when the control file is switched off.
pub open spec fn control_skip_message() -> Seq<char> {
    "debian/control file not updated due to config file setting"@
}

/// The message returned when the control file was rendered.
pub open spec fn control_success_message() -> Seq<char> {
    "Successfully created a new entry in debian/control file"@
}

/// The whole new changelog file for one update: the entry built from the
/// settings, version, change notes and date, put before the current
/// contents.
pub open spec fn spec_changelog_file(
    cl: Changelog,
    version: Seq<char>,
    changes: Seq<char>,
    current: Seq<char>,
    date: Seq<char>,
) -> Seq<char> {
    spec_format_contents(
        spec_changelog_entry(cl, version, spec_format_changes(changes), date),
        current,
    )
}

/// Renders the new changelog file, or skips when the configuration says so.
///
/// `current` is what the changelog file holds now, and `date` the date line
/// value to stamp the entry with; the caller reads the one and chooses the
/// other, so this function is deterministic and exact.
pub fn render_changelog(
    config: &Config,
    version: &str,
    changes: &str,
    current: &str,
    date: &str,
) -> (r: UpdateOutcome)
    ensures
        config.changelog.update ==> outcome_writes(
            r,
            spec_changelog_file(config.changelog, version@, changes@, current@, date@),
            changelog_success_message(),
        ),
        !config.changelog.update ==> outcome_skips(r, changelog_skip_message()),
{
    if !config.changelog.update {
        return UpdateOutcome {
            contents: None,
            message: String::from_str(
                "debian/changelog file not updated due to config file setting",
            ),
        };
    }
    let formatted_changes = Changelog::format_changes(changes);
    let entry = Changelog::format_changelog_entry(config, version, formatted_changes.as_str(), date);
    let contents = Changelog::format_contents(entry.as_str(), current);
    UpdateOutcome {
        contents: Some(contents),
        message: String::from_str("Successfully created a new entry in debian/changelog file"),
    }
}

/// Renders the new control file, or skips when the configuration says so.
pub fn render_control(config: &Config, user_defined_fields: Vec<&str>) -> (r: UpdateOutcome)
    ensures
        config.control.update ==> outcome_writes(
            r,
            spec_control_contents(config.control, user_defined_fields.deep_view()),
            control_success_message(),
        ),
        !config.control.update ==> outcome_skips(r, control_skip_message()),
{
    if !config.control.update {
        return UpdateOutcome {
            contents: None,
            message: String::from_str(
                "debian/control file not updated due to config file setting",
            ),
        };
    }
    let contents = Control::create_contents(config, user_defined_fields);
    UpdateOutcome {
        contents: Some(contents),
        message: String::from_str("Successfully created a new entry in debian/control file"),
    }
}

/// Renders the new changelog file with the current date, or skips when the
/// configuration says so.
///
/// The date is read from the clock, so all a caller knows of the written
/// text is that it is the rendering for some date value.
pub fn update_changelog_file(config: &Config, version: &str, changes: &str, current: &str) -> (r:
    UpdateOutcome)
    ensures
        config.changelog.update ==> r.message@ == changelog_success_message() && (exists|
            date: Seq<char>,
        |
            outcome_writes(
                r,
                #[trigger] spec_changelog_file(
                    config.changelog,
                    version@,
                    changes@,
                    current@,
                    date,
                ),
                changelog_success_message(),
            )),
        !config.changelog.update ==> outcome_skips(r, changelog_skip_message()),
{
    let date = Changelog::format_date();
    let r = render_changelog(config, version, changes, current, date.as_str());
    proof {
        if config.changelog.update {
            assert(outcome_writes(
                r,
                spec_changelog_file(config.changelog, version@, changes@, current@, date@),
                changelog_success_message(),
            ));
        }
    }
    r
}

/// Renders the new control file, or skips when the configuration says so.
pub fn update_control_file(config: &Config, user_defined_fields: Vec<&str>) -> (r: UpdateOutcome)
    ensures
        config.control.update ==> outcome_writes(
            r,
            spec_control_contents(config.control, user_defined_fields.deep_view()),
            control_success_message(),
        ),
        !config.control.update ==> outcome_skips(r, control_skip_message()),
{
    render_control(config, user_defined_fields)
}

/// Renders both files for one update: the changelog entry for `version` and
/// `changes` stamped with the current date, and the control file with the
/// caller's extra fields.
pub fn update(
    config: &Config,
    version: &str,
    changes: &str,
    user_defined_fields: Vec<&str>,
    current_changelog: &str,
) -> (r: (UpdateOutcome, UpdateOutcome))
    ensures
        config.changelog.update ==> r.0.message@ == changelog_success_message() && (exists|
            date: Seq<char>,
        |
            outcome_writes(
                r.0,
                #[trigger] spec_changelog_file(
                    config.changelog,
                    version@,
                    changes@,
                    current_changelog@,
                    date,
                ),
                changelog_success_message(),
            )),
        !config.changelog.update ==> outcome_skips(r.0, changelog_skip_message()),
        config.control.update ==> outcome_writes(
            r.1,
            spec_control_contents(config.control, user_defined_fields.deep_view()),
            control_success_message(),
        ),
        !config.control.update ==> outcome_skips(r.1, control_skip_message()),
{
    let changelog_outcome = update_changelog_file(config, version, changes, current_changelog);
    let control_outcome = update_control_file(config, user_defined_fields);
    (changelog_outcome, control_outcome)
}

} // verus!
