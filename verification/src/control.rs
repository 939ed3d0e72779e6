//! The control side: settings read from the configuration file and the
//! rendering of the whole `debian/control` file, source stanza, binary
//! stanza and caller-supplied extra fields.

use vstd::prelude::*;
use vstd::string::StringExecFns;

use crate::config::Maintainer;
use crate::keywords::Architecture;
use crate::keywords::FieldText;
use crate::keywords::Priority;
use crate::text::joined_lines_from;
use crate::text::spec_trim;
use crate::text::trim_str;

verus! {

/// The source stanza's fields. Empty string fields are left out of the
/// rendered file; the priority and the maintainer always render.
#[derive(Debug)]
pub struct SourceControl {
    pub source: String,
    pub maintainer: Maintainer,
    pub section: String,
    pub priority: Priority,
    pub build_depends: Vec<String>,
    pub standards_version: String,
    pub homepage: String,
    pub vcs_browser: String,
}

/// The binary stanza's fields. Empty string fields are left out of the
/// rendered file; the priority and the architecture always render.
#[derive(Debug)]
pub struct BinaryControl {
    pub package: String,
    pub description: String,
    pub section: String,
    pub priority: Priority,
    pub pre_depends: String,
    pub architecture: Architecture,
}

/// The control settings of the configuration: whether to write the file at
/// all, and the two stanzas' fields.
#[derive(Debug)]
pub struct Control {
    pub update: bool,
    pub source_control: SourceControl,
    pub binary_control: BinaryControl,
}

impl Default for Control {
    /// The settings used when the configuration has no `control` key: no
    /// update, every string field empty, optional priority in both stanzas,
    /// no build dependencies, and architecture `any`.
    fn default() -> (r: Self)
        ensures
            r.update == false,
            r.source_control.source@ == Seq::<char>::empty(),
            r.source_control.maintainer.name@ == Seq::<char>::empty(),
            r.source_control.maintainer.email@ == Seq::<char>::empty(),
            r.source_control.section@ == Seq::<char>::empty(),
            r.source_control.priority == Priority::Optional,
            r.source_control.build_depends@ == Seq::<String>::empty(),
            r.source_control.standards_version@ == Seq::<char>::empty(),
            r.source_control.homepage@ == Seq::<char>::empty(),
            r.source_control.vcs_browser@ == Seq::<char>::empty(),
            r.binary_control.package@ == Seq::<char>::empty(),
            r.binary_control.description@ == Seq::<char>::empty(),
            r.binary_control.section@ == Seq::<char>::empty(),
            r.binary_control.priority == Priority::Optional,
            r.binary_control.pre_depends@ == Seq::<char>::empty(),
            r.binary_control.architecture == Architecture::Any,
    {
        Control {
            update: false,
            source_control: SourceControl {
                source: String::new(),
                maintainer: Maintainer::default(),
                section: String::new(),
                priority: Priority::Optional,
                build_depends: Vec::new(),
                standards_version: String::new(),
                homepage: String::new(),
                vcs_browser: String::new(),
            },
            binary_control: BinaryControl {
                package: String::new(),
                description: String::new(),
                section: String::new(),
                priority: Priority::Optional,
                pre_depends: String::new(),
                architecture: Architecture::Any,
            },
        }
    }
}

/// A `Key: value` line for a plain string field, or nothing at all when the
/// value is empty.
pub open spec fn spec_format_str(key: Seq<char>, val: Seq<char>) -> Seq<char> {
    if val.len() == 0 {
        Seq::empty()
    } else {
        key + ": "@ + val + "\n"@
    }
}

/// A `Key: value` line that renders whatever the value is.
pub open spec fn spec_format_field(key: Seq<char>, val: Seq<char>) -> Seq<char> {
    key + ": "@ + val + "\n"@
}

/// The maintainer line, `Maintainer: name <email>`.
pub open spec fn spec_format_maintainer(name: Seq<char>, email: Seq<char>) -> Seq<char> {
    "Maintainer: "@ + name + " <"@ + email + ">\n"@
}

/// The continuation lines of a multi-line list field from index `i` on: each
/// value on a line of its own behind one space, every value but the last
/// followed by a comma.
pub open spec fn spec_dep_lines_from(values: Seq<Seq<char>>, i: int) -> Seq<char>
    decreases values.len() - i,
{
    if i < 0 || i >= values.len() {
        Seq::empty()
    } else if i + 1 < values.len() {
        "\n "@ + values[i] + ","@ + spec_dep_lines_from(values, i + 1)
    } else {
        "\n "@ + values[i]
    }
}

/// A list-valued field: nothing for an empty list, a single `Key: value`
/// line for one value, and the multi-line form for more.
pub open spec fn spec_format_vec(key: Seq<char>, values: Seq<Seq<char>>) -> Seq<char> {
    if values.len() == 0 {
        Seq::empty()
    } else if values.len() == 1 {
        key + ": "@ + values[0] + "\n"@
    } else {
        key + ":"@ + spec_dep_lines_from(values, 0) + "\n"@
    }
}

/// The source stanza, its fields in fixed order, trimmed at both ends.
pub open spec fn spec_source_stanza(sc: SourceControl) -> Seq<char> {
    spec_trim(
        spec_format_str("Source"@, sc.source@) + spec_format_str("Section"@, sc.section@)
            + spec_format_field("Priority"@, sc.priority.spec_text()) + spec_format_maintainer(
            sc.maintainer.name@,
            sc.maintainer.email@,
        ) + spec_format_vec("Build-Depends"@, sc.build_depends.deep_view()) + spec_format_str(
            "Standards-Version"@,
            sc.standards_version@,
        ) + spec_format_str("Homepage"@, sc.homepage@) + spec_format_str(
            "Vcs-Browser"@,
            sc.vcs_browser@,
        ),
    )
}

/// The binary stanza, its fields in fixed order, trimmed at both ends.
pub open spec fn spec_binary_stanza(bc: BinaryControl) -> Seq<char> {
    spec_trim(
        spec_format_str("Package"@, bc.package@) + spec_format_str("Section"@, bc.section@)
            + spec_format_field("Priority"@, bc.priority.spec_text()) + spec_format_str(
            "Pre-Depends"@,
            bc.pre_depends@,
        ) + spec_format_field("Architecture"@, bc.architecture.spec_text()) + spec_format_str(
            "Description"@,
            bc.description@,
        ),
    )
}

/// The extras block: every caller-supplied field on a line of its own, in
/// input order, trimmed at both ends.
pub open spec fn spec_format_additional(fields: Seq<Seq<char>>) -> Seq<char> {
    spec_trim(joined_lines_from(fields, 0))
}

/// The whole control file: source stanza, binary stanza and extras block,
/// each parted from the next by one blank line, ended by exactly one
/// newline.
pub open spec fn spec_control_contents(c: Control, fields: Seq<Seq<char>>) -> Seq<char> {
    spec_trim(
        spec_source_stanza(c.source_control) + "\n\n"@ + spec_binary_stanza(c.binary_control)
            + "\n\n"@ + spec_format_additional(fields),
    ) + "\n"@
}

impl Control {
    /// Appends a `Key: value` line to `acc`, or nothing when the value is
    /// empty.
    pub fn format_str(key: &str, val: &str, acc: &mut String)
        ensures
            final(acc)@ == old(acc)@ + spec_format_str(key@, val@),
    {
        if val.is_empty() {
            proof {
                assert(acc@ =~= old(acc)@ + spec_format_str(key@, val@));
            }
            return ;
        }
        acc.append(key);
        acc.append(": ");
        acc.append(val);
        acc.append("\n");
        proof {
            assert(acc@ =~= old(acc)@ + spec_format_str(key@, val@));
        }
    }

    /// Appends a `Key: value` line for a keyword value, which renders
    /// whatever it is.
    pub fn format_custom_data<T: FieldText>(key: &str, val: &T, acc: &mut String)
        ensures
            final(acc)@ == old(acc)@ + spec_format_field(key@, val.spec_text()),
    {
        acc.append(key);
        acc.append(": ");
        acc.append(val.text());
        acc.append("\n");
        proof {
            assert(acc@ =~= old(acc)@ + spec_format_field(key@, val.spec_text()));
        }
    }

    /// Appends the maintainer line to `acc`.
    pub fn format_maintainer(name: &str, email: &str, acc: &mut String)
        ensures
            final(acc)@ == old(acc)@ + spec_format_maintainer(name@, email@),
    {
        acc.append("Maintainer: ");
        acc.append(name);
        acc.append(" <");
        acc.append(email);
        acc.append(">\n");
        proof {
            assert(acc@ =~= old(acc)@ + spec_format_maintainer(name@, email@));
        }
    }

    /// Appends a list-valued field to `acc`: nothing for an empty list, one
    /// line for one value, the multi-line form with no comma after the last
    /// value for more.
    pub fn format_vec(key: &str, values: &Vec<String>, acc: &mut String)
        ensures
            final(acc)@ == old(acc)@ + spec_format_vec(key@, values.deep_view()),
    {
        let ghost vs = values.deep_view();
        let ghost goal = old(acc)@ + spec_format_vec(key@, vs);
        if values.len() == 0 {
            proof {
                assert(acc@ =~= goal);
            }
            return ;
        }
        if values.len() == 1 {
            acc.append(key);
            acc.append(": ");
            acc.append(values[0].as_str());
            acc.append("\n");
            proof {
                assert(vs[0] == values@[0]@);
                assert(acc@ =~= goal);
            }
            return ;
        }
        acc.append(key);
        acc.append(":");
        proof {
            assert(acc@ + spec_dep_lines_from(vs, 0) + "\n"@ =~= goal);
        }
        let mut i: usize = 0;
        while i < values.len()
            invariant
                0 <= i <= values.len(),
                vs == values.deep_view(),
                vs.len() == values@.len(),
                vs.len() >= 2,
                goal == acc@ + spec_dep_lines_from(vs, i as int) + "\n"@,
            decreases values.len() - i,
        {
            let ghost acc_before = acc@;
            acc.append("\n ");
            acc.append(values[i].as_str());
            if i + 1 < values.len() {
                acc.append(",");
            }
            proof {
                assert(vs[i as int] == values@[i as int]@);
                assert(acc@ + spec_dep_lines_from(vs, i + 1) + "\n"@ =~= acc_before
                    + spec_dep_lines_from(vs, i as int) + "\n"@);
            }
            i = i + 1;
        }
        acc.append("\n");
        proof {
            assert(spec_dep_lines_from(vs, vs.len() as int) == Seq::<char>::empty());
            assert(acc@ =~= goal);
        }
    }

    /// Renders the source stanza of the control file.
    pub fn format_source_contents(config: &crate::config::Config) -> (r: String)
        ensures
            r@ == spec_source_stanza(config.control.source_control),
    {
        let sc = &config.control.source_control;
        let mut acc = String::new();
        Control::format_str("Source", sc.source.as_str(), &mut acc);
        Control::format_str("Section", sc.section.as_str(), &mut acc);
        Control::format_custom_data("Priority", &sc.priority, &mut acc);
        Control::format_maintainer(sc.maintainer.name.as_str(), sc.maintainer.email.as_str(), &mut acc);
        Control::format_vec("Build-Depends", &sc.build_depends, &mut acc);
        Control::format_str("Standards-Version", sc.standards_version.as_str(), &mut acc);
        Control::format_str("Homepage", sc.homepage.as_str(), &mut acc);
        Control::format_str("Vcs-Browser", sc.vcs_browser.as_str(), &mut acc);
        proof {
            assert(acc@ =~= spec_format_str("Source"@, sc.source@) + spec_format_str(
                "Section"@,
                sc.section@,
            ) + spec_format_field("Priority"@, sc.priority.spec_text()) + spec_format_maintainer(
                sc.maintainer.name@,
                sc.maintainer.email@,
            ) + spec_format_vec("Build-Depends"@, sc.build_depends.deep_view()) + spec_format_str(
                "Standards-Version"@,
                sc.standards_version@,
            ) + spec_format_str("Homepage"@, sc.homepage@) + spec_format_str(
                "Vcs-Browser"@,
                sc.vcs_browser@,
            ));
        }
        trim_str(acc.as_str())
    }

    /// Renders the binary stanza of the control file.
    pub fn format_binary_contents(config: &crate::config::Config) -> (r: String)
        ensures
            r@ == spec_binary_stanza(config.control.binary_control),
    {
        let bc = &config.control.binary_control;
        let mut acc = String::new();
        Control::format_str("Package", bc.package.as_str(), &mut acc);
        Control::format_str("Section", bc.section.as_str(), &mut acc);
        Control::format_custom_data("Priority", &bc.priority, &mut acc);
        Control::format_str("Pre-Depends", bc.pre_depends.as_str(), &mut acc);
        Control::format_custom_data("Architecture", &bc.architecture, &mut acc);
        Control::format_str("Description", bc.description.as_str(), &mut acc);
        proof {
            assert(acc@ =~= spec_format_str("Package"@, bc.package@) + spec_format_str(
                "Section"@,
                bc.section@,
            ) + spec_format_field("Priority"@, bc.priority.spec_text()) + spec_format_str(
                "Pre-Depends"@,
                bc.pre_depends@,
            ) + spec_format_field("Architecture"@, bc.architecture.spec_text()) + spec_format_str(
                "Description"@,
                bc.description@,
            ));
        }
        trim_str(acc.as_str())
    }

    /// Renders the extras block: each caller-supplied field verbatim on a
    /// line of its own, in input order.
    pub fn format_additional_fields(user_defined_fields: Vec<&str>) -> (r: String)
        ensures
            r@ == spec_format_additional(user_defined_fields.deep_view()),
    {
        let ghost fs = user_defined_fields.deep_view();
        let mut acc = String::new();
        proof {
            assert(acc@ + joined_lines_from(fs, 0) =~= joined_lines_from(fs, 0));
        }
        let mut i: usize = 0;
        while i < user_defined_fields.len()
            invariant
                0 <= i <= user_defined_fields.len(),
                fs == user_defined_fields.deep_view(),
                fs.len() == user_defined_fields@.len(),
                joined_lines_from(fs, 0) == acc@ + joined_lines_from(fs, i as int),
            decreases user_defined_fields.len() - i,
        {
            let ghost acc_before = acc@;
            acc.append(user_defined_fields[i]);
            acc.append("\n");
            proof {
                assert(fs[i as int] == user_defined_fields@[i as int]@);
                assert(acc@ + joined_lines_from(fs, i + 1) =~= acc_before + joined_lines_from(
                    fs,
                    i as int,
                ));
            }
            i = i + 1;
        }
        proof {
            assert(joined_lines_from(fs, fs.len() as int) == Seq::<char>::empty());
            assert(acc@ =~= joined_lines_from(fs, 0));
        }
        trim_str(acc.as_str())
    }

    /// Renders the whole control file from the settings and the
    /// caller-supplied extra fields.
    pub fn create_contents(config: &crate::config::Config, user_defined_fields: Vec<&str>) -> (r:
        String)
        ensures
            r@ == spec_control_contents(config.control, user_defined_fields.deep_view()),
    {
        let ghost fs = user_defined_fields.deep_view();
        let additional = Control::format_additional_fields(user_defined_fields);
        let source = Control::format_source_contents(config);
        let binary = Control::format_binary_contents(config);
        let mut whole = String::new();
        whole.append(source.as_str());
        whole.append("\n\n");
        whole.append(binary.as_str());
        whole.append("\n\n");
        whole.append(additional.as_str());
        proof {
            assert(whole@ =~= spec_source_stanza(config.control.source_control) + "\n\n"@
                + spec_binary_stanza(config.control.binary_control) + "\n\n"@
                + spec_format_additional(fs));
        }
        let mut r = trim_str(whole.as_str());
        r.append("\n");
        r
    }
}

} // verus!
