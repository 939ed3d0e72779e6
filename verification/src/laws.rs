//! Properties of the rendering, stated once and proved for every input.

use vstd::prelude::*;

use crate::changelog::spec_format_changes;
use crate::keywords::Architecture;
use crate::keywords::Distribution;
use crate::keywords::FieldText;
use crate::keywords::Priority;
use crate::keywords::Urgency;
use crate::control::spec_dep_lines_from;
use crate::control::spec_format_str;
use crate::control::spec_format_vec;
use crate::text::spec_bullets;
use crate::text::spec_lines;
use crate::text::spec_trim;

verus! {

/// An empty change-notes string renders as an empty bullet block.
pub proof fn lemma_empty_changes_render_empty(changes: Seq<char>)
    requires
        changes.len() == 0,
    ensures
        spec_format_changes(changes) == Seq::<char>::empty(),
{
    assert(spec_lines(changes) =~= Seq::<Seq<char>>::empty());
    assert(spec_bullets(Seq::<Seq<char>>::empty()) == Seq::<char>::empty());
    assert(spec_trim(Seq::<char>::empty()) =~= Seq::<char>::empty());
}

/// A list field with exactly one value renders as the single line
/// `Key: value`, never in the multi-line form: when neither the key nor the
/// value holds a line break, the rendered block holds exactly one, at its
/// end.
pub proof fn lemma_one_value_renders_one_line(key: Seq<char>, values: Seq<Seq<char>>)
    requires
        values.len() == 1,
        forall|i: int| 0 <= i < key.len() ==> key[i] != '\n',
        forall|i: int| 0 <= i < values[0].len() ==> values[0][i] != '\n',
    ensures
        spec_format_vec(key, values) == key + ": "@ + values[0] + "\n"@,
        spec_format_vec(key, values).len() > 0,
        spec_format_vec(key, values).last() == '\n',
        forall|i: int|
            0 <= i < spec_format_vec(key, values).len() - 1 ==> spec_format_vec(key, values)[i]
                != '\n',
{
    reveal_strlit(": ");
    reveal_strlit("\n");
    let r = spec_format_vec(key, values);
    assert(r.last() == '\n');
    assert forall|i: int| 0 <= i < r.len() - 1 implies r[i] != '\n' by {
        if i < key.len() {
            assert(r[i] == key[i]);
        } else if i < key.len() + 2 {
            assert(r[i] == ": "@[i - key.len()]);
        } else {
            assert(r[i] == values[0][i - key.len() - 2]);
        }
    }
}

proof fn lemma_dep_lines_end(values: Seq<Seq<char>>, i: int)
    requires
        0 <= i < values.len(),
    ensures
        spec_dep_lines_from(values, i).len() > 0,
        spec_dep_lines_from(values, i).last() == (if values.last().len() > 0 {
            values.last().last()
        } else {
            ' '
        }),
    decreases values.len() - i,
{
    reveal_strlit("\n ");
    if i + 1 < values.len() {
        lemma_dep_lines_end(values, i + 1);
    } else {
        assert(values[i] == values.last());
    }
}

/// A list field with two or more values renders in the multi-line form and
/// never ends with a trailing comma: the rendered block ends with the last
/// value and a line break, with no comma between them. Holds whenever the
/// last value does not itself end with a comma.
pub proof fn lemma_many_values_no_trailing_comma(key: Seq<char>, values: Seq<Seq<char>>)
    requires
        values.len() >= 2,
        values.last().len() == 0 || values.last().last() != ',',
    ensures
        spec_format_vec(key, values).len() >= 2,
        spec_format_vec(key, values).last() == '\n',
        spec_format_vec(key, values)[spec_format_vec(key, values).len() - 2] != ',',
{
    reveal_strlit("\n");
    lemma_dep_lines_end(values, 0);
    let body = key + ":"@ + spec_dep_lines_from(values, 0);
    let r = spec_format_vec(key, values);
    assert(r == body + "\n"@);
    assert(r[r.len() - 2] == body.last());
    assert(body.last() == spec_dep_lines_from(values, 0).last());
}

/// A plain string field with an empty value renders no line at all.
pub proof fn lemma_empty_field_renders_nothing(key: Seq<char>)
    ensures
        spec_format_str(key, Seq::<char>::empty()) == Seq::<char>::empty(),
{
}

/// A plain string field with a non-empty value renders exactly one line:
/// when neither the key nor the value holds a line break, the rendered text
/// holds exactly one, at its end.
pub proof fn lemma_field_renders_one_line(key: Seq<char>, val: Seq<char>)
    requires
        val.len() > 0,
        forall|i: int| 0 <= i < key.len() ==> key[i] != '\n',
        forall|i: int| 0 <= i < val.len() ==> val[i] != '\n',
    ensures
        spec_format_str(key, val).len() > 0,
        spec_format_str(key, val).last() == '\n',
        forall|i: int|
            0 <= i < spec_format_str(key, val).len() - 1 ==> spec_format_str(key, val)[i] != '\n',
{
    reveal_strlit(": ");
    reveal_strlit("\n");
    let r = spec_format_str(key, val);
    assert(r.last() == '\n');
    assert forall|i: int| 0 <= i < r.len() - 1 implies r[i] != '\n' by {
        if i < key.len() {
            assert(r[i] == key[i]);
        } else if i < key.len() + 2 {
            assert(r[i] == ": "@[i - key.len()]);
        } else {
            assert(r[i] == val[i - key.len() - 2]);
        }
    }
}

/// Each distribution keyword has its own text: the rendering maps the
/// variants one to one onto their lowercase names.
pub proof fn lemma_distribution_text_injective(a: Distribution, b: Distribution)
    ensures
        a.spec_text() == b.spec_text() ==> a == b,
{
    reveal_strlit("unstable");
    reveal_strlit("experimental");
    assert("unstable"@.len() == 8);
    assert("experimental"@.len() == 12);
}

/// Each urgency keyword has its own text: the rendering maps the variants
/// one to one onto their lowercase names.
pub proof fn lemma_urgency_text_injective(a: Urgency, b: Urgency)
    ensures
        a.spec_text() == b.spec_text() ==> a == b,
{
    reveal_strlit("low");
    reveal_strlit("medium");
    reveal_strlit("high");
    reveal_strlit("emergency");
    reveal_strlit("critical");
    assert("low"@.len() == 3);
    assert("medium"@.len() == 6);
    assert("high"@.len() == 4);
    assert("emergency"@.len() == 9);
    assert("critical"@.len() == 8);
}

/// Each priority keyword has its own text: the rendering maps the variants
/// one to one onto their lowercase names.
pub proof fn lemma_priority_text_injective(a: Priority, b: Priority)
    ensures
        a.spec_text() == b.spec_text() ==> a == b,
{
    reveal_strlit("required");
    reveal_strlit("important");
    reveal_strlit("standard");
    reveal_strlit("optional");
    reveal_strlit("extra");
    assert("required"@.len() == 8);
    assert("important"@.len() == 9);
    assert("standard"@.len() == 8);
    assert("optional"@.len() == 8);
    assert("extra"@.len() == 5);
    assert("required"@[0] != "standard"@[0]);
    assert("required"@[0] != "optional"@[0]);
    assert("standard"@[0] != "optional"@[0]);
}

/// Each architecture keyword has its own text: the rendering maps the
/// variants one to one onto their lowercase names.
pub proof fn lemma_architecture_text_injective(a: Architecture, b: Architecture)
    ensures
        a.spec_text() == b.spec_text() ==> a == b,
{
    reveal_strlit("all");
    reveal_strlit("any");
    assert("all"@[1] != "any"@[1]);
}

} // verus!
