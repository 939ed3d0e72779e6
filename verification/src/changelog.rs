//! The changelog side: settings read from the configuration file and the
//! rendering of one `debian/changelog` entry on top of the existing file
//! contents.

use vstd::prelude::*;
use vstd::string::StrSliceExecFns;
use vstd::string::StringExecFns;

use crate::config::Maintainer;
use crate::keywords::Distribution;
use crate::keywords::FieldText;
use crate::keywords::Urgency;
use crate::text::bullet_piece;
use crate::text::lines_from;
use crate::text::spec_bullets;
use crate::text::spec_lines;
use crate::text::spec_trim;
use crate::text::strip_cr;
use crate::text::trim_str;

verus! {

/// The changelog settings of the configuration: whether to touch the file at
/// all, and the values every new entry is stamped with.
#[derive(Debug)]
pub struct Changelog {
    pub update: bool,
    pub package: String,
    pub distribution: Distribution,
    pub urgency: Urgency,
    pub maintainer: Maintainer,
}

impl Default for Changelog {
    /// The settings used when the configuration has no `changelog` key: no
    /// update, empty package and maintainer, unstable distribution, low
    /// urgency.
    fn default() -> (r: Self)
        ensures
            r.update == false,
            r.package@ == Seq::<char>::empty(),
            r.distribution == Distribution::Unstable,
            r.urgency == Urgency::Low,
            r.maintainer.name@ == Seq::<char>::empty(),
            r.maintainer.email@ == Seq::<char>::empty(),
    {
        Changelog {
            update: false,
            package: String::new(),
            distribution: Distribution::Unstable,
            urgency: Urgency::Low,
            maintainer: Maintainer::default(),
        }
    }
}

/// The bullet block built from free-text change notes: every non-empty line
/// becomes one `  * ` bullet, and the block is trimmed at both ends.
pub open spec fn spec_format_changes(changes: Seq<char>) -> Seq<char> {
    spec_trim(spec_bullets(spec_lines(changes)))
}

/// One changelog entry: the header line, the bullet block indented under it,
/// and the maintainer line with the date.
pub open spec fn spec_changelog_entry(
    cl: Changelog,
    version: Seq<char>,
    changes: Seq<char>,
    date: Seq<char>,
) -> Seq<char> {
    cl.package@ + " ("@ + version + ") "@ + cl.distribution.spec_text() + "; urgency="@
        + cl.urgency.spec_text() + "\n\n  "@ + changes + "\n\n -- "@ + cl.maintainer.name@ + " <"@
        + cl.maintainer.email@ + ">  "@ + date
}

/// The whole changelog file: the new entry first, one blank line, then the
/// previous contents, trimmed and ended by exactly one newline.
pub open spec fn spec_format_contents(entry: Seq<char>, current: Seq<char>) -> Seq<char> {
    spec_trim(entry + "\n\n"@ + current) + "\n"@
}

impl Changelog {
    /// Builds the bullet block from the change notes, one bullet per
    /// non-empty line.
    pub fn format_changes(changes: &str) -> (r: String)
        ensures
            r@ == spec_format_changes(changes@),
    {
        let ghost s = changes@;
        let n = changes.unicode_len();
        let mut acc = String::new();
        let mut start: usize = 0;
        let mut i: usize = 0;
        proof {
            assert(s.subrange(0, 0) =~= Seq::<char>::empty());
            assert(acc@ + spec_bullets(lines_from(s, 0, Seq::empty())) =~= spec_bullets(
                spec_lines(s),
            ));
        }
        while i < n
            invariant
                0 <= start <= i <= n,
                n == s.len(),
                s == changes@,
                spec_bullets(spec_lines(s)) == acc@ + spec_bullets(
                    lines_from(s, i as int, s.subrange(start as int, i as int)),
                ),
            decreases n - i,
        {
            let ghost cur = s.subrange(start as int, i as int);
            let c = changes.get_char(i);
            if c == '\n' {
                let line_end = if i > start && changes.get_char(i - 1) == '\r' {
                    i - 1
                } else {
                    i
                };
                proof {
                    assert(lines_from(s, i as int, cur) == seq![strip_cr(cur)] + lines_from(
                        s,
                        i + 1,
                        Seq::empty(),
                    ));
                    lemma_bullets_split(strip_cr(cur), lines_from(s, i + 1, Seq::empty()));
                    assert(strip_cr(cur) =~= s.subrange(start as int, line_end as int));
                }
                let ghost acc_before = acc@;
                if line_end > start {
                    let line = changes.substring_char(start, line_end);
                    acc.append("  * ");
                    acc.append(line);
                    acc.append("\n");
                    proof {
                        assert(acc@ =~= acc_before + bullet_piece(strip_cr(cur)));
                    }
                } else {
                    proof {
                        assert(acc@ =~= acc_before + bullet_piece(strip_cr(cur)));
                    }
                }
                proof {
                    assert(acc_before + (bullet_piece(strip_cr(cur)) + spec_bullets(
                        lines_from(s, i + 1, Seq::empty()),
                    )) =~= acc@ + spec_bullets(lines_from(s, i + 1, Seq::empty())));
                    assert(s.subrange(i + 1, i + 1) =~= Seq::<char>::empty());
                }
                i = i + 1;
                start = i;
            } else {
                proof {
                    assert(s.subrange(start as int, i + 1) =~= cur.push(s[i as int]));
                    assert(lines_from(s, i as int, cur) == lines_from(
                        s,
                        i + 1,
                        cur.push(s[i as int]),
                    ));
                }
                i = i + 1;
            }
        }
        let ghost cur = s.subrange(start as int, n as int);
        if start < n {
            let line = changes.substring_char(start, n);
            let ghost acc_before = acc@;
            acc.append("  * ");
            acc.append(line);
            acc.append("\n");
            proof {
                assert(lines_from(s, n as int, cur) =~= seq![cur]);
                assert(seq![cur].drop_first() =~= Seq::<Seq<char>>::empty());
                assert(spec_bullets(seq![cur]) == bullet_piece(cur) + spec_bullets(
                    Seq::<Seq<char>>::empty(),
                ));
                assert(acc@ =~= acc_before + spec_bullets(lines_from(s, n as int, cur)));
            }
        } else {
            proof {
                assert(cur =~= Seq::<char>::empty());
                assert(acc@ =~= acc@ + spec_bullets(lines_from(s, n as int, cur)));
            }
        }
        trim_str(acc.as_str())
    }

    /// Renders one changelog entry from the settings, the version, the
    /// already-built bullet block and the date line.
    pub fn format_changelog_entry(
        config: &crate::config::Config,
        version: &str,
        changes: &str,
        date: &str,
    ) -> (r: String)
        ensures
            r@ == spec_changelog_entry(config.changelog, version@, changes@, date@),
    {
        let mut r = String::new();
        r.append(config.changelog.package.as_str());
        r.append(" (");
        r.append(version);
        r.append(") ");
        r.append(config.changelog.distribution.text());
        r.append("; urgency=");
        r.append(config.changelog.urgency.text());
        r.append("\n\n  ");
        r.append(changes);
        r.append("\n\n -- ");
        r.append(config.changelog.maintainer.name.as_str());
        r.append(" <");
        r.append(config.changelog.maintainer.email.as_str());
        r.append(">  ");
        r.append(date);
        proof {
            assert(r@ =~= spec_changelog_entry(config.changelog, version@, changes@, date@));
        }
        r
    }

    /// Places a new entry before the previous file contents, newest first,
    /// separated by one blank line and ended by exactly one newline.
    pub fn format_contents(entry: &str, current_file_contents: &str) -> (r: String)
        ensures
            r@ == spec_format_contents(entry@, current_file_contents@),
    {
        let mut whole = String::new();
        whole.append(entry);
        whole.append("\n\n");
        whole.append(current_file_contents);
        proof {
            assert(whole@ =~= entry@ + "\n\n"@ + current_file_contents@);
        }
        let mut r = trim_str(whole.as_str());
        r.append("\n");
        r
    }

    /// Relies on chrono's `Utc::now` and `DateTime::to_rfc2822`: the current
    /// UTC time as an RFC 2822 date string such as
    /// `Tue, 1 Jul 2003 10:52:37 +0000`. The writer emits only weekday and
    /// month names, digits, spaces and the characters `,`, `:`, `+`, `-`, so
    /// the result is never empty and never holds a line break. It aborts on a
    /// system clock before 1970 or past the year 9999.
    #[verifier::external_body]
    pub(crate) fn format_date() -> (r: String)
        ensures
            r@.len() > 0,
            forall|i: int| 0 <= i < r@.len() ==> r@[i] != '\n' && r@[i] != '\r',
    {
        chrono::Utc::now().to_rfc2822()
    }
}

proof fn lemma_bullets_split(line: Seq<char>, rest: Seq<Seq<char>>)
    ensures
        spec_bullets(seq![line] + rest) == bullet_piece(line) + spec_bullets(rest),
{
    let whole = seq![line] + rest;
    assert(whole.first() == line);
    assert(whole.drop_first() =~= rest);
}

} // verus!
