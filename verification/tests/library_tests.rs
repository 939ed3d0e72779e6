use deby::Architecture;
use deby::BinaryControl;
use deby::Changelog;
use deby::Config;
use deby::Control;
use deby::DebyError;
use deby::Distribution;
use deby::Maintainer;
use deby::Priority;
use deby::SourceControl;
use deby::Urgency;

const FIXED_DATE: &str = "Tue, 1 Jul 2003 10:52:37 +0000";

fn changelog_settings(update: bool) -> Changelog {
    Changelog {
        update,
        package: "foo".to_string(),
        distribution: Distribution::Unstable,
        urgency: Urgency::Low,
        maintainer: Maintainer {
            name: "A".to_string(),
            email: "a@x.com".to_string(),
        },
    }
}

fn control_settings(update: bool, homepage: &str) -> Control {
    Control {
        update,
        source_control: SourceControl {
            source: "mypkg".to_string(),
            maintainer: Maintainer {
                name: "B".to_string(),
                email: "b@y.com".to_string(),
            },
            section: String::new(),
            priority: Priority::Optional,
            build_depends: vec![],
            standards_version: String::new(),
            homepage: homepage.to_string(),
            vcs_browser: String::new(),
        },
        binary_control: BinaryControl {
            package: "mypkg-bin".to_string(),
            description: "desc".to_string(),
            section: String::new(),
            priority: Priority::Optional,
            pre_depends: String::new(),
            architecture: Architecture::Any,
        },
    }
}

fn config(changelog_update: bool, control_update: bool) -> Config {
    Config {
        changelog: changelog_settings(changelog_update),
        control: control_settings(control_update, ""),
    }
}

#[test]
fn test_render_changelog_skips_when_disabled() {
    let outcome = deby::render_changelog(&config(false, false), "1.2.3", "fix bug", "", FIXED_DATE);
    assert!(outcome.contents.is_none());
    assert_eq!(
        outcome.message,
        "debian/changelog file not updated due to config file setting"
    );
}

#[test]
fn test_render_control_skips_when_disabled() {
    let outcome = deby::render_control(&config(false, false), vec![]);
    assert!(outcome.contents.is_none());
    assert_eq!(
        outcome.message,
        "debian/control file not updated due to config file setting"
    );
}

#[test]
fn test_render_changelog_scenario() {
    let outcome = deby::render_changelog(&config(true, false), "1.2.3", "fix bug", "", FIXED_DATE);
    let expected_entry = format!(
        "foo (1.2.3) unstable; urgency=low\n\n  * fix bug\n\n -- A <a@x.com>  {}",
        FIXED_DATE
    );
    assert_eq!(
        outcome.message,
        "Successfully created a new entry in debian/changelog file"
    );
    assert_eq!(outcome.contents.unwrap(), format!("{}\n", expected_entry));
}

#[test]
fn test_render_changelog_prepends_to_existing() {
    let outcome =
        deby::render_changelog(&config(true, false), "1.2.3", "fix bug", "OLD", FIXED_DATE);
    let expected_entry = format!(
        "foo (1.2.3) unstable; urgency=low\n\n  * fix bug\n\n -- A <a@x.com>  {}",
        FIXED_DATE
    );
    let contents = outcome.contents.unwrap();
    assert!(contents.starts_with(&expected_entry));
    assert_eq!(contents, format!("{}\n\nOLD\n", expected_entry));
    assert!(contents.ends_with('\n'));
    assert!(!contents.ends_with("\n\n"));
}

#[test]
fn test_render_control_with_extra_field() {
    let cfg = config(false, true);
    let outcome = deby::render_control(&cfg, vec!["X-Custom: value"]);
    let expected = "Source: mypkg\nPriority: optional\nMaintainer: B <b@y.com>\n\n\
                    Package: mypkg-bin\nPriority: optional\nArchitecture: any\nDescription: desc\n\n\
                    X-Custom: value\n";
    assert_eq!(
        outcome.message,
        "Successfully created a new entry in debian/control file"
    );
    assert_eq!(outcome.contents.unwrap(), expected);
}

#[test]
fn test_render_control_omits_empty_homepage() {
    let cfg = Config {
        changelog: changelog_settings(false),
        control: control_settings(true, ""),
    };
    let contents = deby::render_control(&cfg, vec![]).contents.unwrap();
    assert!(!contents.contains("Homepage:"));
}

#[test]
fn test_render_control_renders_homepage_once() {
    let cfg = Config {
        changelog: changelog_settings(false),
        control: control_settings(true, "http://x"),
    };
    let contents = deby::render_control(&cfg, vec![]).contents.unwrap();
    assert_eq!(contents.matches("Homepage: http://x\n").count(), 1);
    assert_eq!(contents.matches("Homepage:").count(), 1);
}

#[test]
fn test_render_control_multiline_build_depends() {
    let mut cfg = Config {
        changelog: changelog_settings(false),
        control: control_settings(true, ""),
    };
    cfg.control.source_control.build_depends =
        vec!["debhelper (>= 11)".to_string(), "rustc".to_string()];
    let contents = deby::render_control(&cfg, vec![]).contents.unwrap();
    assert!(contents.contains("Build-Depends:\n debhelper (>= 11),\n rustc\n"));
    assert!(!contents.contains("rustc,"));
}

#[test]
fn test_render_control_single_build_depends() {
    let mut cfg = Config {
        changelog: changelog_settings(false),
        control: control_settings(true, ""),
    };
    cfg.control.source_control.build_depends = vec!["debhelper".to_string()];
    let contents = deby::render_control(&cfg, vec![]).contents.unwrap();
    assert!(contents.contains("Build-Depends: debhelper\n"));
    assert!(!contents.contains("Build-Depends:\n"));
}

#[test]
fn test_update_skips_both_when_disabled() {
    let (changelog_outcome, control_outcome) =
        deby::update(&config(false, false), "1.2.3", "fix bug", vec![], "");
    assert!(changelog_outcome.contents.is_none());
    assert!(control_outcome.contents.is_none());
    assert_eq!(
        changelog_outcome.message,
        "debian/changelog file not updated due to config file setting"
    );
    assert_eq!(
        control_outcome.message,
        "debian/control file not updated due to config file setting"
    );
}

#[test]
fn test_update_changelog_file_stamps_some_date() {
    let outcome = deby::update_changelog_file(&config(true, false), "9.9", "x", "");
    assert_eq!(
        outcome.message,
        "Successfully created a new entry in debian/changelog file"
    );
    let contents = outcome.contents.unwrap();
    let prefix = "foo (9.9) unstable; urgency=low\n\n  * x\n\n -- A <a@x.com>  ";
    assert!(contents.starts_with(prefix));
    assert!(contents.ends_with('\n'));
    let date = &contents[prefix.len()..contents.len() - 1];
    assert!(!date.is_empty());
    assert!(!date.contains('\n'));
}

#[test]
fn test_update_control_file_matches_render_control() {
    let cfg = config(false, true);
    let from_update = deby::update_control_file(&cfg, vec!["X-A: 1"]);
    let from_render = deby::render_control(&cfg, vec!["X-A: 1"]);
    assert_eq!(from_update.contents, from_render.contents);
    assert_eq!(from_update.message, from_render.message);
}

#[test]
fn test_error_messages() {
    assert_eq!(
        DebyError::ConfigNew.message(),
        "Could not create configuration from config file .debyrc"
    );
    assert_eq!(DebyError::Update.message(), "Could not update your files");
    assert_eq!(
        DebyError::ChangelogUpdate.message(),
        "Could not update debian changelog file"
    );
    assert_eq!(
        DebyError::ControlUpdate.message(),
        "Could not update debian control file"
    );
}
